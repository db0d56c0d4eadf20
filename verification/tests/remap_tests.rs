use dx3::mapping::{
    default_mappings, ButtonMapping, GamepadState, MappingTarget, PhysicalButton,
};
use dx3::remap::{
    axis_routes, discrete_tick, key_event_flags, mouse_button_flags, resolve_discrete, AxisRoute,
    HeldInputs, InputEvent, TouchMotion, TouchTracker,
};

fn map(source: PhysicalButton, targets: Vec<MappingTarget>) -> ButtonMapping {
    ButtonMapping { source, targets }
}

fn key_down(code: u16) -> InputEvent {
    InputEvent::Key { code, down: true }
}

fn key_up(code: u16) -> InputEvent {
    InputEvent::Key { code, down: false }
}

#[test]
fn is_axis_tells_continuous_sources() {
    assert!(PhysicalButton::LeftStick.is_axis());
    assert!(PhysicalButton::RightStick.is_axis());
    assert!(PhysicalButton::L2.is_axis());
    assert!(PhysicalButton::R2.is_axis());
    assert!(PhysicalButton::Touchpad.is_axis());
    assert!(!PhysicalButton::TouchpadLeft.is_axis());
    assert!(!PhysicalButton::TouchpadRight.is_axis());
    assert!(!PhysicalButton::Cross.is_axis());
    assert!(!PhysicalButton::Mute.is_axis());
    assert!(!PhysicalButton::DpadUp.is_axis());
}

#[test]
fn get_value_reads_the_matching_field() {
    let mut s = GamepadState::default();
    assert!(!PhysicalButton::Cross.get_value(&s));
    s.btn_cross = true;
    s.dpad_left = true;
    s.btn_mute = true;
    assert!(PhysicalButton::Cross.get_value(&s));
    assert!(PhysicalButton::DpadLeft.get_value(&s));
    assert!(PhysicalButton::Mute.get_value(&s));
    assert!(!PhysicalButton::Circle.get_value(&s));
    assert!(!PhysicalButton::DpadRight.get_value(&s));
}

#[test]
fn touchpad_halves_split_at_960() {
    let mut s = GamepadState::default();
    s.btn_touchpad = true;
    s.touch_x = 959;
    assert!(PhysicalButton::Touchpad.get_value(&s));
    assert!(PhysicalButton::TouchpadLeft.get_value(&s));
    assert!(!PhysicalButton::TouchpadRight.get_value(&s));
    s.touch_x = 960;
    assert!(!PhysicalButton::TouchpadLeft.get_value(&s));
    assert!(PhysicalButton::TouchpadRight.get_value(&s));
    s.btn_touchpad = false;
    assert!(!PhysicalButton::TouchpadLeft.get_value(&s));
    assert!(!PhysicalButton::TouchpadRight.get_value(&s));
}

#[test]
fn axes_are_never_pressed() {
    let mut s = GamepadState::default();
    s.l2 = 255;
    s.r2 = 255;
    s.left_x = 127;
    assert!(!PhysicalButton::L2.get_value(&s));
    assert!(!PhysicalButton::R2.get_value(&s));
    assert!(!PhysicalButton::LeftStick.get_value(&s));
    assert!(!PhysicalButton::RightStick.get_value(&s));
}

#[test]
fn default_table_maps_the_pad_to_an_xbox_pad() {
    let table = default_mappings();
    assert_eq!(table.len(), 23);
    assert_eq!(table[0].source, PhysicalButton::Cross);
    assert_eq!(table[0].targets, vec![MappingTarget::Xbox(0x1000)]);
    assert_eq!(table[10].source, PhysicalButton::PS);
    assert_eq!(table[10].targets, vec![MappingTarget::Xbox(0x0400)]);
    assert_eq!(table[14].source, PhysicalButton::DpadRight);
    assert_eq!(table[14].targets, vec![MappingTarget::Xbox(0x0008)]);
    assert_eq!(table[15].source, PhysicalButton::LeftStick);
    assert_eq!(table[15].targets, vec![MappingTarget::XboxLS]);
    assert_eq!(table[18].source, PhysicalButton::R2);
    assert_eq!(table[18].targets, vec![MappingTarget::XboxRT]);
    assert_eq!(table[22].source, PhysicalButton::Mute);
    assert!(table[22].targets.is_empty());
}

#[test]
fn pressed_buttons_are_ored_into_the_mask() {
    let table = default_mappings();
    let mut s = GamepadState::default();
    s.btn_cross = true;
    s.btn_triangle = true;
    s.dpad_up = true;
    s.l2 = 255;
    let out = resolve_discrete(&table, &s);
    assert_eq!(out.buttons, 0x1000 | 0x8000 | 0x0001);
    assert!(!out.left_trigger && !out.right_trigger);
    assert!(out.keys.is_empty());
    assert!(out.mouse_buttons.is_empty());
}

#[test]
fn nothing_pressed_activates_nothing() {
    let out = resolve_discrete(&default_mappings(), &GamepadState::default());
    assert_eq!(out.buttons, 0);
    assert!(!out.left_trigger && !out.right_trigger);
    assert!(out.keys.is_empty() && out.mouse_buttons.is_empty());
}

#[test]
fn one_source_fans_out_to_several_targets() {
    let table = vec![
        map(
            PhysicalButton::Cross,
            vec![
                MappingTarget::Xbox(0x1000),
                MappingTarget::Keyboard(0x41),
                MappingTarget::Mouse(0),
                MappingTarget::XboxLT,
            ],
        ),
        map(PhysicalButton::Circle, vec![MappingTarget::Keyboard(0x42), MappingTarget::XboxRT]),
    ];
    let mut s = GamepadState::default();
    s.btn_cross = true;
    let out = resolve_discrete(&table, &s);
    assert_eq!(out.buttons, 0x1000);
    assert!(out.left_trigger);
    assert!(!out.right_trigger);
    assert_eq!(out.keys, vec![0x41]);
    assert_eq!(out.mouse_buttons, vec![0]);
}

#[test]
fn a_key_mapped_twice_is_held_once() {
    let table = vec![
        map(PhysicalButton::Cross, vec![MappingTarget::Keyboard(0x41), MappingTarget::Mouse(2)]),
        map(
            PhysicalButton::Circle,
            vec![
                MappingTarget::Keyboard(0x41),
                MappingTarget::Keyboard(0x42),
                MappingTarget::Mouse(2),
            ],
        ),
    ];
    let mut s = GamepadState::default();
    s.btn_cross = true;
    s.btn_circle = true;
    let out = resolve_discrete(&table, &s);
    assert_eq!(out.keys, vec![0x41, 0x42]);
    assert_eq!(out.mouse_buttons, vec![2]);
}

#[test]
fn axis_sources_are_no_discrete_controls() {
    let table = vec![
        map(PhysicalButton::Touchpad, vec![MappingTarget::Keyboard(0x41), MappingTarget::Xbox(1)]),
        map(PhysicalButton::L2, vec![MappingTarget::Keyboard(0x42)]),
    ];
    let mut s = GamepadState::default();
    s.btn_touchpad = true;
    s.l2 = 255;
    let out = resolve_discrete(&table, &s);
    assert_eq!(out.buttons, 0);
    assert!(out.keys.is_empty());
}

#[test]
fn key_is_pressed_once_and_released_once() {
    let table = vec![map(PhysicalButton::Cross, vec![MappingTarget::Keyboard(0x41)])];
    let mut held = HeldInputs::new();
    let mut pressed = GamepadState::default();
    pressed.btn_cross = true;
    let released = GamepadState::default();

    let t1 = discrete_tick(&table, &pressed, &mut held);
    assert_eq!(t1.events, vec![key_down(0x41)]);
    let t2 = discrete_tick(&table, &released, &mut held);
    assert_eq!(t2.events, vec![key_up(0x41)]);
    for _ in 0..5 {
        let t = discrete_tick(&table, &released, &mut held);
        assert!(t.events.is_empty());
    }
    assert!(held.keys.is_empty());
}

#[test]
fn held_key_gives_no_further_events() {
    let table = vec![map(PhysicalButton::Cross, vec![MappingTarget::Keyboard(0x41)])];
    let mut held = HeldInputs::new();
    let mut pressed = GamepadState::default();
    pressed.btn_cross = true;
    assert_eq!(discrete_tick(&table, &pressed, &mut held).events.len(), 1);
    for _ in 0..5 {
        assert!(discrete_tick(&table, &pressed, &mut held).events.is_empty());
    }
    assert_eq!(held.keys, vec![0x41]);
}

#[test]
fn changing_the_table_releases_what_it_no_longer_holds() {
    let first = vec![map(PhysicalButton::Cross, vec![MappingTarget::Keyboard(0x41)])];
    let second = vec![map(PhysicalButton::Cross, vec![MappingTarget::Keyboard(0x42)])];
    let mut held = HeldInputs::new();
    let mut pressed = GamepadState::default();
    pressed.btn_cross = true;
    discrete_tick(&first, &pressed, &mut held);
    let t = discrete_tick(&second, &pressed, &mut held);
    assert_eq!(t.events, vec![key_down(0x42), key_up(0x41)]);
    let t = discrete_tick(&[].to_vec(), &pressed, &mut held);
    assert_eq!(t.events, vec![key_up(0x42)]);
}

#[test]
fn retarget_orders_keys_before_mouse_buttons() {
    let mut held = HeldInputs { keys: vec![1, 2], mouse_buttons: vec![0] };
    let events = held.retarget(vec![2, 3], vec![1]);
    assert_eq!(
        events,
        vec![
            key_down(3),
            key_up(1),
            InputEvent::MouseButton { id: 1, down: true },
            InputEvent::MouseButton { id: 0, down: false },
        ]
    );
    assert_eq!(held.keys, vec![2, 3]);
    assert_eq!(held.mouse_buttons, vec![1]);
}

#[test]
fn tick_reports_buttons_and_forced_triggers() {
    let table = vec![
        map(PhysicalButton::L1, vec![MappingTarget::XboxLT, MappingTarget::Xbox(0x0100)]),
        map(PhysicalButton::R1, vec![MappingTarget::XboxRT]),
    ];
    let mut held = HeldInputs::new();
    let mut s = GamepadState::default();
    s.btn_l1 = true;
    let t = discrete_tick(&table, &s, &mut held);
    assert_eq!(t.buttons, 0x0100);
    assert!(t.left_trigger);
    assert!(!t.right_trigger);
    assert!(t.events.is_empty());
}

#[test]
fn axis_routes_list_axis_sources_with_axis_targets() {
    let table = vec![
        map(PhysicalButton::Cross, vec![MappingTarget::XboxLT]),
        map(
            PhysicalButton::LeftStick,
            vec![
                MappingTarget::XboxLS,
                MappingTarget::Keyboard(0x41),
                MappingTarget::MouseMove { x_speed: 1, y_speed: 2 },
            ],
        ),
        map(PhysicalButton::Touchpad, vec![MappingTarget::MouseScroll { speed: 7 }]),
        map(PhysicalButton::R2, vec![MappingTarget::XboxRT, MappingTarget::Xbox(1)]),
    ];
    assert_eq!(
        axis_routes(&table),
        vec![
            AxisRoute { source: PhysicalButton::LeftStick, target: MappingTarget::XboxLS },
            AxisRoute {
                source: PhysicalButton::LeftStick,
                target: MappingTarget::MouseMove { x_speed: 1, y_speed: 2 },
            },
            AxisRoute {
                source: PhysicalButton::Touchpad,
                target: MappingTarget::MouseScroll { speed: 7 },
            },
            AxisRoute { source: PhysicalButton::R2, target: MappingTarget::XboxRT },
        ]
    );
}

#[test]
fn axis_routes_of_the_default_table() {
    assert_eq!(
        axis_routes(&default_mappings()),
        vec![
            AxisRoute { source: PhysicalButton::LeftStick, target: MappingTarget::XboxLS },
            AxisRoute { source: PhysicalButton::RightStick, target: MappingTarget::XboxRS },
            AxisRoute { source: PhysicalButton::L2, target: MappingTarget::XboxLT },
            AxisRoute { source: PhysicalButton::R2, target: MappingTarget::XboxRT },
        ]
    );
}

fn touch(x: u16, y: u16, active: bool) -> GamepadState {
    let mut s = GamepadState::default();
    s.touch_x = x;
    s.touch_y = y;
    s.touch_active = active;
    s
}

#[test]
fn touch_motion_is_the_difference_of_two_samples() {
    let mut t = TouchTracker::new();
    assert_eq!(t.track(&touch(100, 200, true)), TouchMotion { dx: 0, dy: 0, lifted: false });
    assert_eq!(t.track(&touch(130, 150, true)), TouchMotion { dx: 30, dy: -50, lifted: false });
    assert_eq!(t, TouchTracker { last_x: 130, last_y: 150, last_active: true });
}

#[test]
fn touch_jumps_of_500_or_more_are_discarded() {
    let mut t = TouchTracker { last_x: 1000, last_y: 500, last_active: true };
    assert_eq!(t.track(&touch(1499, 1, true)), true_motion(499, -499));
    let mut t = TouchTracker { last_x: 1000, last_y: 500, last_active: true };
    assert_eq!(t.track(&touch(1500, 500, true)), TouchMotion { dx: 0, dy: 0, lifted: false });
    let mut t = TouchTracker { last_x: 1000, last_y: 500, last_active: true };
    assert_eq!(t.track(&touch(1000, 0, true)), TouchMotion { dx: 0, dy: 0, lifted: false });
    let mut t = TouchTracker { last_x: 1000, last_y: 500, last_active: true };
    assert_eq!(t.track(&touch(500, 500, true)), TouchMotion { dx: 0, dy: 0, lifted: false });
}

fn true_motion(dx: i32, dy: i32) -> TouchMotion {
    TouchMotion { dx, dy, lifted: false }
}

#[test]
fn lifting_the_finger_drops_the_momentum() {
    let mut t = TouchTracker { last_x: 10, last_y: 10, last_active: true };
    assert_eq!(t.track(&touch(20, 20, false)), TouchMotion { dx: 0, dy: 0, lifted: true });
    assert_eq!(t, TouchTracker { last_x: 20, last_y: 20, last_active: false });
    assert_eq!(t.track(&touch(25, 25, true)), TouchMotion { dx: 0, dy: 0, lifted: false });
    assert_eq!(t.track(&touch(26, 27, true)), TouchMotion { dx: 1, dy: 2, lifted: false });
}

#[test]
fn keyboard_flags() {
    assert_eq!(key_event_flags(0x41, true, 30), 0x0008);
    assert_eq!(key_event_flags(0x41, false, 30), 0x000A);
    assert_eq!(key_event_flags(0x41, true, 0), 0x0000);
    assert_eq!(key_event_flags(0x41, false, 0), 0x0002);
    assert_eq!(key_event_flags(37, true, 75), 0x0009);
    assert_eq!(key_event_flags(37, false, 75), 0x000B);
}

#[test]
fn extended_key_ranges() {
    for vk in 0u16..256 {
        let extended = (33..=46).contains(&vk) || (91..=93).contains(&vk)
            || (106..=111).contains(&vk);
        assert_eq!(key_event_flags(vk, true, 0) & 1 == 1, extended);
    }
}

#[test]
fn mouse_flags() {
    assert_eq!(mouse_button_flags(0, true), Some(0x0002));
    assert_eq!(mouse_button_flags(0, false), Some(0x0004));
    assert_eq!(mouse_button_flags(1, true), Some(0x0020));
    assert_eq!(mouse_button_flags(1, false), Some(0x0040));
    assert_eq!(mouse_button_flags(2, true), Some(0x0008));
    assert_eq!(mouse_button_flags(2, false), Some(0x0010));
    assert_eq!(mouse_button_flags(3, true), None);
    assert_eq!(mouse_button_flags(255, false), None);
}
