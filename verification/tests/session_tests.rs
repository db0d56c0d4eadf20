use dx3::output::{
    encode_output, led_frame_bt, led_init_frame_usb, wakeup_frame_bt, OutputSettings,
    TriggerEffect,
};
use dx3::session::{
    cloak_action, cloak_after, feature_report_to_read, get_battery_led_mask, initial_frames,
    pick_candidate, plan_housekeeping, refresh_frame, shutdown_frame, snapshot_due,
    take_commands, Action, CloakAction, Commands, ControlFlags, DeviceInfo, Event,
    HousekeepingInput, HousekeepingPlan, ModeStatus, ModeTracker, Phase, Probe, Session,
};

fn dev(vendor_id: u16, product_id: u16, usage_page: u16, usage: u16) -> DeviceInfo {
    DeviceInfo { vendor_id, product_id, interface_number: 0, usage_page, usage }
}

fn housekeeping() -> HousekeepingInput {
    HousekeepingInput {
        protocol_scan_requested: false,
        sweep_active: false,
        sweep_interval_ms: 100,
        fuzzer_active: false,
        periodic_disabled: false,
        safe_to_send: true,
        since_sweep_ms: 0,
        since_fuzzer_ms: 0,
        since_refresh_ms: 0,
    }
}

fn no_commands() -> Commands {
    Commands {
        send_manual: false,
        send_pinpoint: false,
        send_leds: false,
        send_triggers: false,
        disconnect: false,
        seq: 0,
    }
}

fn idle_plan() -> HousekeepingPlan {
    HousekeepingPlan {
        reconnect: false,
        protocol_scan: false,
        send_manual: false,
        send_pinpoint: false,
        probe: Probe::Idle,
        refresh_leds: false,
    }
}

#[test]
fn device_families() {
    let ds = dev(0x054C, 0x0CE6, 1, 5);
    assert!(ds.is_dualsense() && !ds.is_ds4());
    assert!(dev(0x054C, 0x05C4, 1, 5).is_ds4());
    assert!(dev(0x054C, 0x09CC, 1, 5).is_ds4());
    assert!(!dev(0x054C, 0x1234, 1, 5).is_ds4());
    assert!(!ds.is_bluetooth());
    let bt = DeviceInfo { interface_number: -1, ..ds };
    assert!(bt.is_bluetooth());
    let ds4_bt = DeviceInfo { interface_number: -1, ..dev(0x054C, 0x05C4, 1, 5) };
    assert!(!ds4_bt.is_bluetooth());
}

#[test]
fn candidate_with_gamepad_usage_is_preferred() {
    let devices = vec![
        dev(0x046D, 0x0CE6, 1, 5),
        dev(0x054C, 0x0CE6, 0, 0),
        dev(0x054C, 0x0CE6, 1, 6),
        dev(0x054C, 0x09CC, 1, 5),
        dev(0x054C, 0x0CE6, 1, 5),
    ];
    assert_eq!(pick_candidate(&devices), Some(3));
}

#[test]
fn candidate_without_usage_is_the_fallback() {
    let devices = vec![
        dev(0x054C, 0x0CE6, 12, 1),
        dev(0x054C, 0x1111, 0, 0),
        dev(0x054C, 0x05C4, 0, 0),
        dev(0x054C, 0x0CE6, 0, 0),
    ];
    assert_eq!(pick_candidate(&devices), Some(2));
}

#[test]
fn no_candidate_among_strangers() {
    assert_eq!(pick_candidate(&vec![]), None);
    let devices = vec![dev(0x046D, 0x0CE6, 1, 5), dev(0x054C, 0x0CE6, 12, 1)];
    assert_eq!(pick_candidate(&devices), None);
}

#[test]
fn battery_led_mask_fills_from_the_left() {
    assert_eq!(get_battery_led_mask(0), 0x00);
    assert_eq!(get_battery_led_mask(9), 0x00);
    assert_eq!(get_battery_led_mask(10), 0x01);
    assert_eq!(get_battery_led_mask(29), 0x01);
    assert_eq!(get_battery_led_mask(30), 0x03);
    assert_eq!(get_battery_led_mask(50), 0x07);
    assert_eq!(get_battery_led_mask(69), 0x07);
    assert_eq!(get_battery_led_mask(70), 0x0F);
    assert_eq!(get_battery_led_mask(89), 0x0F);
    assert_eq!(get_battery_led_mask(90), 0x1F);
    assert_eq!(get_battery_led_mask(100), 0x1F);
    assert_eq!(get_battery_led_mask(255), 0x1F);
}

#[test]
fn refresh_frame_shows_the_centre_light_or_the_battery() {
    let mut s = OutputSettings::default();
    s.player_led_mask = 0x1F;
    let frame = refresh_frame(true, &s, 50, 3);
    assert_eq!(frame[45], 0x24);
    let mut want = s;
    want.player_led_mask = 0x04;
    assert_eq!(frame, encode_output(true, &want, 3));

    s.show_battery_led = true;
    let frame = refresh_frame(false, &s, 50, 3);
    assert_eq!(frame[44], 0x27);
    want.player_led_mask = 0x07;
    want.show_battery_led = true;
    assert_eq!(frame, encode_output(false, &want, 3));
}

#[test]
fn shutdown_frame_is_blue_with_free_triggers() {
    let frame = shutdown_frame(true, 2, 9);
    let want = OutputSettings {
        rgb_r: 0,
        rgb_g: 0,
        rgb_b: 255,
        rgb_brightness: 255,
        player_led_mask: 0x04,
        player_led_brightness: 2,
        trigger_l2: TriggerEffect { mode: 0, start: 0, force: 0 },
        trigger_r2: TriggerEffect { mode: 0, start: 0, force: 0 },
        show_battery_led: false,
    };
    assert_eq!(frame, encode_output(true, &want, 9));
    assert_eq!(&frame[46..49], &[0, 0, 255]);
    assert_eq!(frame[44], 2);
    assert_eq!(shutdown_frame(false, 0, 0).len(), 64);
}

#[test]
fn initial_frames_over_bluetooth() {
    let mut s = OutputSettings::default();
    s.rgb_r = 200;
    s.rgb_brightness = 128;
    let frames = initial_frames(true, &s, 80);
    assert_eq!(frames.len(), 3);
    assert_eq!(frames[0], wakeup_frame_bt(0));
    assert_eq!(frames[1], led_frame_bt(1, 0x04, 100, 0, 128));
    assert_eq!(frames[2], refresh_frame(true, &s, 80, 0));
}

#[test]
fn initial_frames_over_usb() {
    let mut s = OutputSettings::default();
    s.show_battery_led = true;
    let frames = initial_frames(false, &s, 80);
    assert_eq!(frames.len(), 2);
    assert_eq!(frames[0], led_init_frame_usb(0x0F, 0, 0, 255));
    assert_eq!(frames[1], refresh_frame(false, &s, 80, 0));
}

#[test]
fn feature_reports_are_tried_in_turn() {
    assert_eq!(feature_report_to_read(0), Some(0x09));
    assert_eq!(feature_report_to_read(1), Some(0x20));
    assert_eq!(feature_report_to_read(2), None);
    assert_eq!(feature_report_to_read(200), None);
}

#[test]
fn stuck_controller_is_reconnected_once_at_frame_201() {
    let mut t = ModeTracker::new();
    let mut reconnects = 0;
    for i in 1..=200u32 {
        assert!(!t.observe(0x01, true, true), "frame {}", i);
        assert_eq!(t.simple_frames, i);
        assert_eq!(t.status, ModeStatus::Waiting(1));
    }
    if t.observe(0x01, true, true) {
        reconnects += 1;
    }
    assert_eq!(reconnects, 1);
    assert_eq!(t.status, ModeStatus::SimpleReconnecting);
    assert_eq!(t.reconnects, 1);
    assert!(!t.observe(0x01, true, true));
    for _ in 0..1000 {
        assert!(!t.observe(0x01, true, true));
    }
    assert_eq!(t.reconnects, 1);
}

#[test]
fn stuck_again_after_the_reconnect_is_given_up() {
    let mut t = ModeTracker::new();
    for _ in 0..201 {
        t.observe(0x01, true, true);
    }
    t.reopen();
    assert_eq!(t, ModeTracker { status: ModeStatus::Unknown, simple_frames: 0, reconnects: 1 });
    for _ in 0..200 {
        assert!(!t.observe(0x01, true, true));
    }
    assert_eq!(t.status, ModeStatus::Waiting(1));
    assert!(!t.observe(0x01, true, true));
    assert_eq!(t.status, ModeStatus::SimpleFailed);
    for _ in 0..500 {
        assert!(!t.observe(0x01, true, true));
    }
    assert_eq!(t.status, ModeStatus::SimpleFailed);
    assert_eq!(t.reconnects, 1);
}

#[test]
fn native_frame_resets_the_counters() {
    let mut t = ModeTracker::new();
    for _ in 0..150 {
        t.observe(0x01, true, true);
    }
    assert!(!t.safe_to_send());
    assert!(!t.observe(0x31, true, true));
    assert_eq!(t, ModeTracker { status: ModeStatus::BtNative, simple_frames: 0, reconnects: 0 });
    assert!(t.safe_to_send());
    for _ in 0..500 {
        assert!(!t.observe(0x01, true, true));
    }
    assert_eq!(t, ModeTracker { status: ModeStatus::BtNative, simple_frames: 0, reconnects: 0 });
}

#[test]
fn native_frame_after_a_reconnect_gives_a_fresh_attempt() {
    let mut t = ModeTracker::new();
    for _ in 0..201 {
        t.observe(0x01, true, true);
    }
    t.reopen();
    t.observe(0x31, true, true);
    assert_eq!(t.reconnects, 0);
    t.reopen();
    for _ in 0..200 {
        assert!(!t.observe(0x01, true, true));
    }
    assert!(t.observe(0x01, true, true));
}

#[test]
fn other_transports_settle_on_the_first_report() {
    let mut t = ModeTracker::new();
    assert!(!t.observe(0x01, true, false));
    assert_eq!(t.status, ModeStatus::UsbNative);
    let mut t = ModeTracker::new();
    assert!(!t.observe(0x11, false, false));
    assert_eq!(t.status, ModeStatus::Ds4(0x11));
    assert!(!t.observe(0x01, false, false));
    assert_eq!(t.status, ModeStatus::Ds4(0x11));
    assert_eq!(t.simple_frames, 0);
}

#[test]
fn unknown_report_ids_leave_the_tracker_alone() {
    let mut t = ModeTracker::new();
    assert!(!t.observe(0x42, true, true));
    assert_eq!(t, ModeTracker::new());
}

#[test]
fn commands_are_taken_once() {
    let mut flags = ControlFlags {
        should_send_manual: true,
        should_send_pinpoint: false,
        should_send_leds: true,
        should_send_triggers: true,
        should_disconnect: true,
        bt_sequence: 255,
    };
    let first = take_commands(&mut flags);
    assert_eq!(
        first,
        Commands {
            send_manual: true,
            send_pinpoint: false,
            send_leds: true,
            send_triggers: true,
            disconnect: true,
            seq: 255,
        }
    );
    assert_eq!(
        flags,
        ControlFlags {
            should_send_manual: false,
            should_send_pinpoint: false,
            should_send_leds: false,
            should_send_triggers: false,
            should_disconnect: false,
            bt_sequence: 0,
        }
    );
    let second = take_commands(&mut flags);
    assert_eq!(second, Commands { seq: 0, ..no_commands() });
    assert_eq!(flags.bt_sequence, 1);
}

#[test]
fn reconnect_overrides_everything_else() {
    let cmds = Commands {
        send_manual: true,
        send_pinpoint: true,
        send_leds: true,
        send_triggers: true,
        disconnect: true,
        seq: 0,
    };
    let mut input = housekeeping();
    input.protocol_scan_requested = true;
    input.sweep_active = true;
    input.since_sweep_ms = 1000;
    assert_eq!(plan_housekeeping(&cmds, &input), HousekeepingPlan { reconnect: true, ..idle_plan() });
}

#[test]
fn led_refresh_runs_once_a_second_or_on_change() {
    let mut input = housekeeping();
    input.since_refresh_ms = 999;
    assert_eq!(plan_housekeeping(&no_commands(), &input), idle_plan());
    input.since_refresh_ms = 1000;
    assert_eq!(
        plan_housekeeping(&no_commands(), &input),
        HousekeepingPlan { refresh_leds: true, ..idle_plan() }
    );
    input.periodic_disabled = true;
    assert_eq!(plan_housekeeping(&no_commands(), &input), idle_plan());
    let leds = Commands { send_leds: true, ..no_commands() };
    assert!(plan_housekeeping(&leds, &input).refresh_leds);
    let triggers = Commands { send_triggers: true, ..no_commands() };
    assert!(plan_housekeeping(&triggers, &input).refresh_leds);
    input.safe_to_send = false;
    assert!(!plan_housekeeping(&leds, &input).refresh_leds);
}

#[test]
fn probes_take_the_place_of_the_led_refresh() {
    let mut input = housekeeping();
    input.since_refresh_ms = 5000;
    input.sweep_active = true;
    input.fuzzer_active = true;
    input.since_fuzzer_ms = 50;
    input.since_sweep_ms = 99;
    assert_eq!(plan_housekeeping(&no_commands(), &input), idle_plan());
    input.since_sweep_ms = 100;
    assert_eq!(
        plan_housekeeping(&no_commands(), &input),
        HousekeepingPlan { probe: Probe::Sweep, ..idle_plan() }
    );
    input.sweep_active = false;
    assert_eq!(
        plan_housekeeping(&no_commands(), &input),
        HousekeepingPlan { probe: Probe::Fuzzer, ..idle_plan() }
    );
    input.since_fuzzer_ms = 49;
    assert_eq!(plan_housekeeping(&no_commands(), &input), idle_plan());
}

#[test]
fn one_shot_sends_are_planned() {
    let cmds = Commands { send_manual: true, send_pinpoint: true, ..no_commands() };
    let mut input = housekeeping();
    input.protocol_scan_requested = true;
    assert_eq!(
        plan_housekeeping(&cmds, &input),
        HousekeepingPlan {
            protocol_scan: true,
            send_manual: true,
            send_pinpoint: true,
            ..idle_plan()
        }
    );
}

#[test]
fn cloak_follows_the_wish() {
    assert_eq!(cloak_action(true, false), CloakAction::Hide);
    assert_eq!(cloak_action(false, true), CloakAction::Unhide);
    assert_eq!(cloak_action(true, true), CloakAction::Keep);
    assert_eq!(cloak_action(false, false), CloakAction::Keep);
    assert!(cloak_after(CloakAction::Hide, true, false));
    assert!(!cloak_after(CloakAction::Hide, false, false));
    assert!(!cloak_after(CloakAction::Unhide, true, true));
    assert!(!cloak_after(CloakAction::Unhide, false, true));
    assert!(cloak_after(CloakAction::Keep, false, true));
    assert!(!cloak_after(CloakAction::Keep, true, false));
}

#[test]
fn snapshots_are_throttled_and_deduplicated() {
    assert!(!snapshot_due(true, 31, true, true, true, 5000));
    assert!(snapshot_due(true, 32, true, false, false, 0));
    assert!(snapshot_due(true, 32, false, true, false, 0));
    assert!(snapshot_due(true, 32, false, false, true, 0));
    assert!(!snapshot_due(true, 32, false, false, false, 1000));
    assert!(snapshot_due(true, 32, false, false, false, 1001));
    assert!(!snapshot_due(false, 32, true, true, true, 5000));
}

#[test]
fn session_walks_from_start_to_active() {
    let mut s = Session::new();
    assert_eq!(s.phase, Phase::InitBus);
    assert_eq!(s.step(Event::BusConnected), Action::InitHid);
    assert_eq!(s.phase, Phase::InitHid);
    assert_eq!(s.step(Event::HidReady), Action::Scan);
    assert_eq!(s.phase, Phase::Scanning);
    assert_eq!(s.step(Event::CandidateFound), Action::HideAndOpen);
    assert_eq!(s.phase, Phase::Opening);
    assert_eq!(s.step(Event::Opened), Action::RunSession);
    assert_eq!(s.phase, Phase::Active);
    assert_eq!(s.step(Event::Disconnected), Action::CleanUpAndWait(2000));
    assert_eq!(s.phase, Phase::Scanning);
}

#[test]
fn failed_subsystems_are_retried_after_two_seconds() {
    let mut s = Session::new();
    for _ in 0..10 {
        assert_eq!(s.step(Event::BusFailed), Action::Wait(2000));
        assert_eq!(s.phase, Phase::InitBus);
    }
    s.step(Event::BusConnected);
    assert_eq!(s.step(Event::HidFailed), Action::Wait(2000));
    assert_eq!(s.phase, Phase::InitBus);
}

#[test]
fn sixth_empty_scan_sets_hid_up_afresh() {
    let mut s = Session { phase: Phase::Scanning, empty_scans: 0 };
    for i in 1..=5u32 {
        assert_eq!(s.step(Event::NoCandidate), Action::Wait(2000));
        assert_eq!(s, Session { phase: Phase::Scanning, empty_scans: i });
    }
    assert_eq!(s.step(Event::NoCandidate), Action::InitHid);
    assert_eq!(s, Session { phase: Phase::InitHid, empty_scans: 0 });
}

#[test]
fn failed_open_counts_as_an_empty_scan() {
    let mut s = Session { phase: Phase::Scanning, empty_scans: 4 };
    assert_eq!(s.step(Event::CandidateFound), Action::HideAndOpen);
    assert_eq!(s.step(Event::OpenFailed), Action::Wait(2000));
    assert_eq!(s, Session { phase: Phase::Scanning, empty_scans: 5 });
    s.step(Event::CandidateFound);
    assert_eq!(s.step(Event::OpenFailed), Action::InitHid);
    assert_eq!(s.phase, Phase::InitHid);
}

#[test]
fn scanning_events() {
    let mut s = Session { phase: Phase::Scanning, empty_scans: 3 };
    assert_eq!(s.step(Event::Paused), Action::Wait(1000));
    assert_eq!(s, Session { phase: Phase::Scanning, empty_scans: 3 });
    assert_eq!(s.step(Event::ReinitRequested), Action::ConnectBus);
    assert_eq!(s, Session { phase: Phase::InitBus, empty_scans: 0 });
    let mut s = Session { phase: Phase::Scanning, empty_scans: 3 };
    assert_eq!(s.step(Event::EnumerationFailed), Action::ConnectBus);
    assert_eq!(s.phase, Phase::InitBus);
}

#[test]
fn only_shutdown_stops_the_session() {
    let phases = [Phase::InitBus, Phase::InitHid, Phase::Scanning, Phase::Opening, Phase::Active];
    let events = [
        Event::BusConnected,
        Event::BusFailed,
        Event::HidReady,
        Event::HidFailed,
        Event::Paused,
        Event::ReinitRequested,
        Event::EnumerationFailed,
        Event::CandidateFound,
        Event::NoCandidate,
        Event::Opened,
        Event::OpenFailed,
        Event::Disconnected,
    ];
    for phase in phases {
        for event in events {
            let mut s = Session { phase, empty_scans: 2 };
            s.step(event);
            assert_ne!(s.phase, Phase::Stopped);
        }
        let mut s = Session { phase, empty_scans: 2 };
        assert_eq!(s.step(Event::Shutdown), Action::Stop);
        assert_eq!(s.phase, Phase::Stopped);
        for event in events {
            assert_eq!(s.step(event), Action::Ignore);
            assert_eq!(s.phase, Phase::Stopped);
        }
    }
}

#[test]
fn events_that_do_not_belong_to_the_phase_are_ignored() {
    let mut s = Session::new();
    assert_eq!(s.step(Event::Opened), Action::Ignore);
    assert_eq!(s.step(Event::Disconnected), Action::Ignore);
    assert_eq!(s, Session::new());
}

#[test]
fn report_is_decoded_compared_and_tracked() {
    let mut tracker = ModeTracker::new();
    let mut last = dx3::mapping::GamepadState::default();
    let mut frame = vec![0x01u8, 128, 128, 128, 128, 0x08, 0, 0];
    let out =
        dx3::session::on_report(&mut tracker, &mut last, &frame, true, true, true).unwrap();
    assert_eq!(out.state, dx3::mapping::GamepadState::default());
    assert!(!out.changed);
    assert!(!out.reconnect);
    assert_eq!(tracker.simple_frames, 1);

    frame[5] = 0x28;
    let out =
        dx3::session::on_report(&mut tracker, &mut last, &frame, true, true, false).unwrap();
    assert!(out.changed);
    assert!(out.state.btn_cross);
    assert_eq!(last, out.state);
    // A drained report is not counted.
    assert_eq!(tracker.simple_frames, 1);

    let out =
        dx3::session::on_report(&mut tracker, &mut last, &frame, true, true, true).unwrap();
    assert!(!out.changed);
    assert_eq!(tracker.simple_frames, 2);
}

#[test]
fn report_that_is_no_frame_changes_nothing() {
    let mut tracker = ModeTracker::new();
    let mut last = dx3::mapping::GamepadState::default();
    last.btn_cross = true;
    let before = last;
    assert_eq!(dx3::session::on_report(&mut tracker, &mut last, &[0x77, 1, 2], true, true, true), None);
    assert_eq!(dx3::session::on_report(&mut tracker, &mut last, &[], false, false, true), None);
    assert_eq!(tracker, ModeTracker::new());
    assert_eq!(last, before);
}

#[test]
fn report_201_asks_for_the_reconnect() {
    let mut tracker = ModeTracker::new();
    let mut last = dx3::mapping::GamepadState::default();
    let frame = vec![0x01u8, 128, 128, 128, 128, 0x08, 0, 0];
    for _ in 0..200 {
        let out =
            dx3::session::on_report(&mut tracker, &mut last, &frame, true, true, true).unwrap();
        assert!(!out.reconnect);
    }
    let out = dx3::session::on_report(&mut tracker, &mut last, &frame, true, true, true).unwrap();
    assert!(out.reconnect);
    let out = dx3::session::on_report(&mut tracker, &mut last, &frame, true, true, true).unwrap();
    assert!(!out.reconnect);
}
