//! The canonical controller state, the physical controls and their mapping
//! targets, and the decoders of the five input report layouts.
//!
//! Analog values are integer numerators: a stick axis is the raw byte minus
//! 128, to be read over 128; a trigger is the raw byte, to be read over 255.

use vstd::prelude::*;

verus! {

/// Normalised snapshot of the physical pad.
#[derive(Debug, Clone, Copy, PartialEq, Eq, Structural)]
pub struct GamepadState {
    /// Stick axes, in 128ths: `-128` is full left or up, `127` full right or down.
    pub left_x: i8,
    pub left_y: i8,
    pub right_x: i8,
    pub right_y: i8,
    /// Triggers, in 255ths.
    pub l2: u8,
    pub r2: u8,
    pub btn_cross: bool,
    pub btn_circle: bool,
    pub btn_square: bool,
    pub btn_triangle: bool,
    pub btn_l1: bool,
    pub btn_r1: bool,
    pub btn_l3: bool,
    pub btn_r3: bool,
    pub btn_options: bool,
    pub btn_share: bool,
    pub btn_ps: bool,
    pub dpad_up: bool,
    pub dpad_down: bool,
    pub dpad_left: bool,
    pub dpad_right: bool,
    pub btn_touchpad: bool,
    pub btn_mute: bool,
    /// Touch contact, 12 bits each.
    pub touch_x: u16,
    pub touch_y: u16,
    pub touch_active: bool,
    /// Battery charge in percent, a multiple of ten.
    pub battery: u8,
    pub is_charging: bool,
}

/// The state of a pad at rest: sticks centred, nothing pressed.
pub open spec fn neutral_state() -> GamepadState {
    GamepadState {
        left_x: 0,
        left_y: 0,
        right_x: 0,
        right_y: 0,
        l2: 0,
        r2: 0,
        btn_cross: false,
        btn_circle: false,
        btn_square: false,
        btn_triangle: false,
        btn_l1: false,
        btn_r1: false,
        btn_l3: false,
        btn_r3: false,
        btn_options: false,
        btn_share: false,
        btn_ps: false,
        dpad_up: false,
        dpad_down: false,
        dpad_left: false,
        dpad_right: false,
        btn_touchpad: false,
        btn_mute: false,
        touch_x: 0,
        touch_y: 0,
        touch_active: false,
        battery: 0,
        is_charging: false,
    }
}

impl GamepadState {
    /// What every decoder guarantees of the fields with a limited range.
    pub open spec fn well_formed(&self) -> bool {
        &&& self.touch_x < 4096
        &&& self.touch_y < 4096
        &&& self.battery <= 100
        &&& self.battery % 10 == 0
    }
}

impl Default for GamepadState {
    fn default() -> (r: Self)
        ensures
            r == neutral_state(),
    {
        GamepadState {
            left_x: 0,
            left_y: 0,
            right_x: 0,
            right_y: 0,
            l2: 0,
            r2: 0,
            btn_cross: false,
            btn_circle: false,
            btn_square: false,
            btn_triangle: false,
            btn_l1: false,
            btn_r1: false,
            btn_l3: false,
            btn_r3: false,
            btn_options: false,
            btn_share: false,
            btn_ps: false,
            dpad_up: false,
            dpad_down: false,
            dpad_left: false,
            dpad_right: false,
            btn_touchpad: false,
            btn_mute: false,
            touch_x: 0,
            touch_y: 0,
            touch_active: false,
            battery: 0,
            is_charging: false,
        }
    }
}

/// A source of input on the physical pad.
#[derive(Debug, Clone, Copy, PartialEq, Eq, Hash, Structural)]
pub enum PhysicalButton {
    Cross,
    Circle,
    Square,
    Triangle,
    L1,
    R1,
    L3,
    R3,
    Options,
    Share,
    PS,
    Touchpad,
    TouchpadLeft,
    TouchpadRight,
    Mute,
    DpadUp,
    DpadDown,
    DpadLeft,
    DpadRight,
    LeftStick,
    RightStick,
    L2,
    R2,
}

/// X coordinate that splits the touchpad into its left and right half.
pub const TOUCH_MIDPOINT_X: u16 = 960;

impl PhysicalButton {
    /// Whether the control is a continuous source.
    pub open spec fn spec_is_axis(&self) -> bool {
        *self == PhysicalButton::LeftStick || *self == PhysicalButton::RightStick
            || *self == PhysicalButton::L2 || *self == PhysicalButton::R2
            || *self == PhysicalButton::Touchpad
    }

    /// Whether the control, read as a discrete one, is pressed in `state`.
    /// The sticks and the triggers are never pressed.
    pub open spec fn pressed_in(&self, state: GamepadState) -> bool {
        match *self {
            PhysicalButton::Cross => state.btn_cross,
            PhysicalButton::Circle => state.btn_circle,
            PhysicalButton::Square => state.btn_square,
            PhysicalButton::Triangle => state.btn_triangle,
            PhysicalButton::L1 => state.btn_l1,
            PhysicalButton::R1 => state.btn_r1,
            PhysicalButton::L3 => state.btn_l3,
            PhysicalButton::R3 => state.btn_r3,
            PhysicalButton::Options => state.btn_options,
            PhysicalButton::Share => state.btn_share,
            PhysicalButton::PS => state.btn_ps,
            PhysicalButton::Touchpad => state.btn_touchpad,
            PhysicalButton::TouchpadLeft => state.btn_touchpad && state.touch_x < TOUCH_MIDPOINT_X,
            PhysicalButton::TouchpadRight => state.btn_touchpad && state.touch_x >= TOUCH_MIDPOINT_X,
            PhysicalButton::Mute => state.btn_mute,
            PhysicalButton::DpadUp => state.dpad_up,
            PhysicalButton::DpadDown => state.dpad_down,
            PhysicalButton::DpadLeft => state.dpad_left,
            PhysicalButton::DpadRight => state.dpad_right,
            PhysicalButton::LeftStick => false,
            PhysicalButton::RightStick => false,
            PhysicalButton::L2 => false,
            PhysicalButton::R2 => false,
        }
    }

    pub fn is_axis(&self) -> (r: bool)
        ensures
            r == self.spec_is_axis(),
    {
        match self {
            PhysicalButton::LeftStick
            | PhysicalButton::RightStick
            | PhysicalButton::L2
            | PhysicalButton::R2
            | PhysicalButton::Touchpad => true,
            _ => false,
        }
    }

    pub fn get_value(&self, state: &GamepadState) -> (r: bool)
        ensures
            r == self.pressed_in(*state),
    {
        match self {
            PhysicalButton::Cross => state.btn_cross,
            PhysicalButton::Circle => state.btn_circle,
            PhysicalButton::Square => state.btn_square,
            PhysicalButton::Triangle => state.btn_triangle,
            PhysicalButton::L1 => state.btn_l1,
            PhysicalButton::R1 => state.btn_r1,
            PhysicalButton::L3 => state.btn_l3,
            PhysicalButton::R3 => state.btn_r3,
            PhysicalButton::Options => state.btn_options,
            PhysicalButton::Share => state.btn_share,
            PhysicalButton::PS => state.btn_ps,
            PhysicalButton::Touchpad => state.btn_touchpad,
            PhysicalButton::TouchpadLeft => state.btn_touchpad && state.touch_x < TOUCH_MIDPOINT_X,
            PhysicalButton::TouchpadRight => state.btn_touchpad && state.touch_x >= TOUCH_MIDPOINT_X,
            PhysicalButton::Mute => state.btn_mute,
            PhysicalButton::DpadUp => state.dpad_up,
            PhysicalButton::DpadDown => state.dpad_down,
            PhysicalButton::DpadLeft => state.dpad_left,
            PhysicalButton::DpadRight => state.dpad_right,
            _ => false,
        }
    }
}

/// What a physical control drives. Speeds are carried as the bit pattern of
/// a 32-bit float, since nothing here computes with them.
#[derive(Debug, Clone, Copy, PartialEq, Eq, Structural)]
pub enum MappingTarget {
    /// Button bitmask of the virtual pad.
    Xbox(u16),
    XboxLT,
    XboxRT,
    XboxLS,
    XboxRS,
    /// Virtual key code.
    Keyboard(u16),
    /// Mouse button id.
    Mouse(u8),
    MouseMove { x_speed: u32, y_speed: u32 },
    MouseScroll { speed: u32 },
}

/// One entry of the mapping table.
#[derive(Debug, Clone)]
pub struct ButtonMapping {
    pub source: PhysicalButton,
    pub targets: Vec<MappingTarget>,
}

/// Number of entries in the default mapping table.
pub const DEFAULT_MAPPING_COUNT: usize = 23;

/// The default table, each entry as its source and its targets: every
/// physical control once; each button, stick and trigger drives its
/// counterpart on the virtual pad; the touchpad and the mute key drive
/// nothing.
pub open spec fn default_table() -> Seq<(PhysicalButton, Seq<MappingTarget>)> {
    seq![
        (PhysicalButton::Cross, seq![MappingTarget::Xbox(0x1000)]),
        (PhysicalButton::Circle, seq![MappingTarget::Xbox(0x2000)]),
        (PhysicalButton::Square, seq![MappingTarget::Xbox(0x4000)]),
        (PhysicalButton::Triangle, seq![MappingTarget::Xbox(0x8000)]),
        (PhysicalButton::L1, seq![MappingTarget::Xbox(0x0100)]),
        (PhysicalButton::R1, seq![MappingTarget::Xbox(0x0200)]),
        (PhysicalButton::L3, seq![MappingTarget::Xbox(0x0040)]),
        (PhysicalButton::R3, seq![MappingTarget::Xbox(0x0080)]),
        (PhysicalButton::Options, seq![MappingTarget::Xbox(0x0010)]),
        (PhysicalButton::Share, seq![MappingTarget::Xbox(0x0020)]),
        (PhysicalButton::PS, seq![MappingTarget::Xbox(0x0400)]),
        (PhysicalButton::DpadUp, seq![MappingTarget::Xbox(0x0001)]),
        (PhysicalButton::DpadDown, seq![MappingTarget::Xbox(0x0002)]),
        (PhysicalButton::DpadLeft, seq![MappingTarget::Xbox(0x0004)]),
        (PhysicalButton::DpadRight, seq![MappingTarget::Xbox(0x0008)]),
        (PhysicalButton::LeftStick, seq![MappingTarget::XboxLS]),
        (PhysicalButton::RightStick, seq![MappingTarget::XboxRS]),
        (PhysicalButton::L2, seq![MappingTarget::XboxLT]),
        (PhysicalButton::R2, seq![MappingTarget::XboxRT]),
        (PhysicalButton::Touchpad, Seq::empty()),
        (PhysicalButton::TouchpadLeft, Seq::empty()),
        (PhysicalButton::TouchpadRight, Seq::empty()),
        (PhysicalButton::Mute, Seq::empty()),
    ]
}

fn entry(source: PhysicalButton, target: MappingTarget) -> (m: ButtonMapping)
    ensures
        m.source == source,
        m.targets@ == seq![target],
{
    let mut targets: Vec<MappingTarget> = Vec::new();
    targets.push(target);
    assert(targets@ =~= seq![target]);
    ButtonMapping { source, targets }
}

fn unmapped(source: PhysicalButton) -> (m: ButtonMapping)
    ensures
        m.source == source,
        m.targets@ == Seq::<MappingTarget>::empty(),
{
    ButtonMapping { source, targets: Vec::new() }
}

/// The mapping table of a fresh installation: the pad as an Xbox 360 pad.
pub fn default_mappings() -> (table: Vec<ButtonMapping>)
    ensures
        table.len() == DEFAULT_MAPPING_COUNT,
        default_table().len() == DEFAULT_MAPPING_COUNT,
        forall|i: int|
            0 <= i < DEFAULT_MAPPING_COUNT ==> ((#[trigger] table[i]).source, table[i].targets@)
                == default_table()[i],
{
    let mut table: Vec<ButtonMapping> = Vec::new();
    table.push(entry(PhysicalButton::Cross, MappingTarget::Xbox(0x1000)));
    table.push(entry(PhysicalButton::Circle, MappingTarget::Xbox(0x2000)));
    table.push(entry(PhysicalButton::Square, MappingTarget::Xbox(0x4000)));
    table.push(entry(PhysicalButton::Triangle, MappingTarget::Xbox(0x8000)));
    table.push(entry(PhysicalButton::L1, MappingTarget::Xbox(0x0100)));
    table.push(entry(PhysicalButton::R1, MappingTarget::Xbox(0x0200)));
    table.push(entry(PhysicalButton::L3, MappingTarget::Xbox(0x0040)));
    table.push(entry(PhysicalButton::R3, MappingTarget::Xbox(0x0080)));
    table.push(entry(PhysicalButton::Options, MappingTarget::Xbox(0x0010)));
    table.push(entry(PhysicalButton::Share, MappingTarget::Xbox(0x0020)));
    table.push(entry(PhysicalButton::PS, MappingTarget::Xbox(0x0400)));
    table.push(entry(PhysicalButton::DpadUp, MappingTarget::Xbox(0x0001)));
    table.push(entry(PhysicalButton::DpadDown, MappingTarget::Xbox(0x0002)));
    table.push(entry(PhysicalButton::DpadLeft, MappingTarget::Xbox(0x0004)));
    table.push(entry(PhysicalButton::DpadRight, MappingTarget::Xbox(0x0008)));
    table.push(entry(PhysicalButton::LeftStick, MappingTarget::XboxLS));
    table.push(entry(PhysicalButton::RightStick, MappingTarget::XboxRS));
    table.push(entry(PhysicalButton::L2, MappingTarget::XboxLT));
    table.push(entry(PhysicalButton::R2, MappingTarget::XboxRT));
    table.push(unmapped(PhysicalButton::Touchpad));
    table.push(unmapped(PhysicalButton::TouchpadLeft));
    table.push(unmapped(PhysicalButton::TouchpadRight));
    table.push(unmapped(PhysicalButton::Mute));
    table
}

} // verus!
