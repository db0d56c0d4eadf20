//! The decisions of the device session: which device to open, what the
//! observed reports say about the connection, when the one automatic
//! reconnect is due, and what the housekeeping pass has to do. The caller
//! performs the I/O and reports back what happened.

use vstd::prelude::*;
use crate::decode::{decode, decoded, REPORT_BASIC, REPORT_BT_NATIVE};
use crate::mapping::GamepadState;
use crate::output::{
    encode_output, led_frame_bt, led_init_frame_usb, led_init_payload_usb, led_payload_bt,
    output_frame, scale_channel, scaled, sealed, wakeup_frame_bt, wakeup_payload_bt,
    OutputSettings, TriggerEffect, LED_CENTER_MASK,
};

verus! {

/// USB vendor id of Sony.
pub const VID_SONY: u16 = 0x054C;

/// Product ids of the two DualShock 4 revisions and of the DualSense.
pub const PID_DS4_V1: u16 = 0x05C4;
pub const PID_DS4_V2: u16 = 0x09CC;
pub const PID_DUALSENSE: u16 = 0x0CE6;

/// HID usage page "Generic Desktop" and usage "Gamepad".
pub const USAGE_PAGE_GENERIC_DESKTOP: u16 = 1;
pub const USAGE_GAMEPAD: u16 = 5;

/// Interface number that the enumeration reports for a Bluetooth device.
pub const INTERFACE_BLUETOOTH: i32 = -1;

/// Consecutive basic reports after which a Bluetooth DualSense counts as
/// stuck in its basic mode.
pub const STUCK_THRESHOLD: u32 = 200;

/// Automatic reconnects that a stuck controller is given.
pub const MAX_AUTO_RECONNECTS: u32 = 1;

/// Empty scans after which the HID subsystem is set up afresh.
pub const MAX_EMPTY_SCANS: u32 = 5;

/// Timeout of the one blocking read of a tick, in milliseconds: short, so
/// that housekeeping goes on while the controller is idle.
pub const READ_TIMEOUT_MS: i32 = 10;

/// Queued reports that are taken, without waiting, after a blocking read.
pub const DRAIN_LIMIT: usize = 10;

/// Shortest time between two housekeeping passes, in milliseconds.
pub const HOUSEKEEPING_MS: u64 = 1;

/// Time between two looks at the cloak of the open device, in milliseconds.
pub const CLOAK_CHECK_MS: u64 = 1000;

/// Power-off frames that precede a reconnect, and the pause between them
/// in milliseconds.
pub const POWER_OFF_BURST: u8 = 10;
pub const POWER_OFF_PAUSE_MS: u64 = 10;

/// Pause after registering with the cloaking helper, before HID is set
/// up, in milliseconds.
pub const WHITELIST_SETTLE_MS: u64 = 500;

/// What the enumeration tells about one HID interface.
#[derive(Debug, Clone, Copy, PartialEq, Eq, Structural)]
pub struct DeviceInfo {
    pub vendor_id: u16,
    pub product_id: u16,
    pub interface_number: i32,
    pub usage_page: u16,
    pub usage: u16,
}

impl DeviceInfo {
    pub open spec fn spec_is_dualsense(&self) -> bool {
        self.product_id == PID_DUALSENSE
    }

    pub open spec fn spec_is_ds4(&self) -> bool {
        self.product_id == PID_DS4_V1 || self.product_id == PID_DS4_V2
    }

    /// A Sony device with one of the supported product ids.
    pub open spec fn supported(&self) -> bool {
        self.vendor_id == VID_SONY && (self.spec_is_dualsense() || self.spec_is_ds4())
    }

    /// A supported device whose interface declares itself a gamepad.
    pub open spec fn preferred(&self) -> bool {
        self.supported() && self.usage_page == USAGE_PAGE_GENERIC_DESKTOP && self.usage
            == USAGE_GAMEPAD
    }

    /// A supported device whose interface declares no usage page.
    pub open spec fn acceptable(&self) -> bool {
        self.supported() && self.usage_page == 0
    }

    /// A DualSense without a USB interface number is connected over
    /// Bluetooth.
    pub open spec fn spec_is_bluetooth(&self) -> bool {
        self.spec_is_dualsense() && self.interface_number == INTERFACE_BLUETOOTH
    }

    pub fn is_dualsense(&self) -> (r: bool)
        ensures
            r == self.spec_is_dualsense(),
    {
        self.product_id == PID_DUALSENSE
    }

    pub fn is_ds4(&self) -> (r: bool)
        ensures
            r == self.spec_is_ds4(),
    {
        self.product_id == PID_DS4_V1 || self.product_id == PID_DS4_V2
    }

    pub fn is_bluetooth(&self) -> (r: bool)
        ensures
            r == self.spec_is_bluetooth(),
    {
        self.is_dualsense() && self.interface_number == INTERFACE_BLUETOOTH
    }
}

/// Chooses the device to open: the first interface that declares itself a
/// gamepad; where there is none, the first that declares no usage at all.
pub fn pick_candidate(devices: &Vec<DeviceInfo>) -> (r: Option<usize>)
    ensures
        match r {
            Some(i) => {
                &&& i < devices.len()
                &&& forall|j: int| 0 <= j < i ==> !devices[j].preferred()
                &&& devices[i as int].preferred() || {
                    &&& devices[i as int].acceptable()
                    &&& forall|j: int| 0 <= j < devices.len() ==> !devices[j].preferred()
                    &&& forall|j: int| 0 <= j < i ==> !devices[j].acceptable()
                }
            },
            None => forall|j: int|
                0 <= j < devices.len() ==> !devices[j].preferred() && !devices[j].acceptable(),
        },
{
    let mut fallback: Option<usize> = None;
    let mut i: usize = 0;
    while i < devices.len()
        invariant
            i <= devices.len(),
            forall|j: int| 0 <= j < i ==> !devices[j].preferred(),
            match fallback {
                Some(f) => f < i && devices[f as int].acceptable() && forall|j: int|
                    0 <= j < f ==> !devices[j].acceptable(),
                None => forall|j: int| 0 <= j < i ==> !devices[j].acceptable(),
            },
        decreases devices.len() - i,
    {
        let d = &devices[i];
        if d.vendor_id == VID_SONY && (d.is_ds4() || d.is_dualsense()) {
            if d.usage_page == USAGE_PAGE_GENERIC_DESKTOP && d.usage == USAGE_GAMEPAD {
                return Some(i);
            }
            if fallback.is_none() && d.usage_page == 0 {
                fallback = Some(i);
            }
        }
        i = i + 1;
    }
    fallback
}

/// The player LED pattern for a battery charge: the five lights fill from
/// the left, one for every twenty percent from ten upwards.
pub open spec fn battery_led_mask(battery: u8) -> u8 {
    if battery >= 90 {
        0x1F
    } else if battery >= 70 {
        0x0F
    } else if battery >= 50 {
        0x07
    } else if battery >= 30 {
        0x03
    } else if battery >= 10 {
        0x01
    } else {
        0x00
    }
}

pub fn get_battery_led_mask(battery: u8) -> (mask: u8)
    ensures
        mask == battery_led_mask(battery),
{
    if battery >= 90 {
        0x1F
    } else if battery >= 70 {
        0x0F
    } else if battery >= 50 {
        0x07
    } else if battery >= 30 {
        0x03
    } else if battery >= 10 {
        0x01
    } else {
        0x00
    }
}

/// The settings as they go on the wire: with the battery pattern on the
/// player LEDs where that is asked for, the centre light otherwise.
pub open spec fn effective_settings(s: OutputSettings, battery: u8) -> OutputSettings {
    OutputSettings {
        player_led_mask: if s.show_battery_led {
            battery_led_mask(battery)
        } else {
            LED_CENTER_MASK
        },
        ..s
    }
}

/// Builds the periodic LED and trigger frame from the cached settings and
/// the last battery charge seen.
pub fn refresh_frame(is_bt: bool, settings: &OutputSettings, battery: u8, seq: u8) -> (frame: Vec<
    u8,
>)
    ensures
        frame@ == output_frame(is_bt, effective_settings(*settings, battery), seq),
{
    let mask: u8 = if settings.show_battery_led {
        get_battery_led_mask(battery)
    } else {
        LED_CENTER_MASK
    };
    let effective = OutputSettings {
        rgb_r: settings.rgb_r,
        rgb_g: settings.rgb_g,
        rgb_b: settings.rgb_b,
        rgb_brightness: settings.rgb_brightness,
        player_led_mask: mask,
        player_led_brightness: settings.player_led_brightness,
        trigger_l2: settings.trigger_l2,
        trigger_r2: settings.trigger_r2,
        show_battery_led: settings.show_battery_led,
    };
    encode_output(is_bt, &effective, seq)
}

/// Pause between the frames that initialise the LEDs, in milliseconds.
pub const INIT_PAUSE_MS: u64 = 50;

/// Feature reports whose reading switches a DualSense on Bluetooth to its
/// enhanced mode: the serial number, and the firmware version as a second
/// try.
pub const FEATURE_SERIAL: u8 = 0x09;
pub const FEATURE_FIRMWARE: u8 = 0x20;

/// The feature report to read next when `failed` readings have failed, or
/// `None` when both were tried: the controller then stays in its basic
/// mode, and the session goes on.
pub fn feature_report_to_read(failed: u8) -> (id: Option<u8>)
    ensures
        id == if failed == 0 {
            Some(FEATURE_SERIAL)
        } else if failed == 1 {
            Some(FEATURE_FIRMWARE)
        } else {
            None
        },
{
    if failed == 0 {
        Some(FEATURE_SERIAL)
    } else if failed == 1 {
        Some(FEATURE_FIRMWARE)
    } else {
        None
    }
}

/// The frames that set up the LEDs of a controller that has just been
/// opened, to be sent `INIT_PAUSE_MS` apart: over Bluetooth the wake-up
/// frame, the plain LED frame with the next sequence number and the full
/// output frame; over USB the wake-up frame and the full output frame.
pub open spec fn initial_frame_seq(is_bt: bool, s: OutputSettings, battery: u8) -> Seq<Seq<u8>> {
    let e = effective_settings(s, battery);
    let r = scaled(e.rgb_r, e.rgb_brightness);
    let g = scaled(e.rgb_g, e.rgb_brightness);
    let b = scaled(e.rgb_b, e.rgb_brightness);
    if is_bt {
        seq![
            sealed(wakeup_payload_bt(0)),
            sealed(led_payload_bt(1, e.player_led_mask, r, g, b)),
            output_frame(true, e, 0),
        ]
    } else {
        seq![led_init_payload_usb(e.player_led_mask, r, g, b), output_frame(false, e, 0)]
    }
}

/// Builds the frames that set up the LEDs of a controller that has just
/// been opened.
pub fn initial_frames(is_bt: bool, settings: &OutputSettings, battery: u8) -> (frames: Vec<
    Vec<u8>,
>)
    ensures
        frames@.len() == initial_frame_seq(is_bt, *settings, battery).len(),
        forall|i: int|
            0 <= i < frames@.len() ==> (#[trigger] frames@[i])@ == initial_frame_seq(
                is_bt,
                *settings,
                battery,
            )[i],
{
    let mask: u8 = if settings.show_battery_led {
        get_battery_led_mask(battery)
    } else {
        LED_CENTER_MASK
    };
    let r: u8 = scale_channel(settings.rgb_r, settings.rgb_brightness);
    let g: u8 = scale_channel(settings.rgb_g, settings.rgb_brightness);
    let b: u8 = scale_channel(settings.rgb_b, settings.rgb_brightness);
    let mut frames: Vec<Vec<u8>> = Vec::new();
    if is_bt {
        frames.push(wakeup_frame_bt(0));
        frames.push(led_frame_bt(1, mask, r, g, b));
    } else {
        frames.push(led_init_frame_usb(mask, r, g, b));
    }
    frames.push(refresh_frame(is_bt, settings, battery, 0));
    frames
}

/// The settings a controller is left with on shutdown: a blue lightbar,
/// the centre light, free triggers. The LED brightness stays as it is.
pub open spec fn shutdown_settings(player_led_brightness: u8) -> OutputSettings {
    OutputSettings {
        rgb_r: 0,
        rgb_g: 0,
        rgb_b: 255,
        rgb_brightness: 255,
        player_led_mask: LED_CENTER_MASK,
        player_led_brightness: player_led_brightness,
        trigger_l2: TriggerEffect { mode: 0, start: 0, force: 0 },
        trigger_r2: TriggerEffect { mode: 0, start: 0, force: 0 },
        show_battery_led: false,
    }
}

/// Builds the frame that resets a controller's LEDs and triggers on
/// shutdown.
pub fn shutdown_frame(is_bt: bool, player_led_brightness: u8, seq: u8) -> (frame: Vec<u8>)
    ensures
        frame@ == output_frame(is_bt, shutdown_settings(player_led_brightness), seq),
{
    let neutral = OutputSettings {
        rgb_r: 0,
        rgb_g: 0,
        rgb_b: 255,
        rgb_brightness: 255,
        player_led_mask: LED_CENTER_MASK,
        player_led_brightness: player_led_brightness,
        trigger_l2: TriggerEffect { mode: 0, start: 0, force: 0 },
        trigger_r2: TriggerEffect { mode: 0, start: 0, force: 0 },
        show_battery_led: false,
    };
    encode_output(is_bt, &neutral, seq)
}

/// What is known about the connection, for the status display.
#[derive(Debug, Clone, Copy, PartialEq, Eq, Structural)]
pub enum ModeStatus {
    /// No report seen yet.
    Unknown,
    /// Basic reports only so far, this many of them when the first came.
    Waiting(u32),
    /// The enhanced Bluetooth mode is confirmed.
    BtNative,
    /// Stuck in the basic mode; the automatic reconnect is under way.
    SimpleReconnecting,
    /// Stuck in the basic mode after the automatic reconnect: given up.
    SimpleFailed,
    /// DualSense over USB.
    UsbNative,
    /// DualShock 4, with the report id seen first.
    Ds4(u8),
}

/// Follows the reports of one controller and decides on the automatic
/// reconnect.
#[derive(Debug, Clone, Copy, PartialEq, Eq, Structural)]
pub struct ModeTracker {
    pub status: ModeStatus,
    /// Basic reports in a row since the device was opened.
    pub simple_frames: u32,
    /// Automatic reconnects made since the enhanced mode was last seen.
    pub reconnects: u32,
}

/// The tracker after a report with id `report_id`, and whether the
/// automatic reconnect is to be made now.
///
/// Over Bluetooth a DualSense that has shown the enhanced report stays
/// native for the session. Until then every basic report counts; past
/// `STUCK_THRESHOLD` of them the one reconnect is asked for, and if that
/// was spent already the tracker gives up. On the other transports the
/// first report settles the mode.
pub open spec fn observed(t: ModeTracker, report_id: u8, dualsense: bool, bt: bool) -> (
    ModeTracker,
    bool,
) {
    if dualsense && bt {
        if t.status == ModeStatus::BtNative {
            (t, false)
        } else if report_id == REPORT_BT_NATIVE {
            (ModeTracker { status: ModeStatus::BtNative, simple_frames: 0, reconnects: 0 }, false)
        } else if report_id == REPORT_BASIC {
            let n: u32 = if t.simple_frames == u32::MAX {
                t.simple_frames
            } else {
                (t.simple_frames + 1) as u32
            };
            let waiting = if t.status == ModeStatus::Unknown {
                ModeStatus::Waiting(n)
            } else {
                t.status
            };
            if n > STUCK_THRESHOLD && t.reconnects < MAX_AUTO_RECONNECTS {
                (
                    ModeTracker {
                        status: ModeStatus::SimpleReconnecting,
                        simple_frames: n,
                        reconnects: (t.reconnects + 1) as u32,
                    },
                    true,
                )
            } else if n == STUCK_THRESHOLD + 1 {
                (
                    ModeTracker {
                        status: ModeStatus::SimpleFailed,
                        simple_frames: n,
                        reconnects: t.reconnects,
                    },
                    false,
                )
            } else {
                (ModeTracker { status: waiting, simple_frames: n, reconnects: t.reconnects }, false)
            }
        } else {
            (t, false)
        }
    } else if t.status == ModeStatus::Unknown {
        (
            ModeTracker {
                status: if dualsense {
                    ModeStatus::UsbNative
                } else {
                    ModeStatus::Ds4(report_id)
                },
                simple_frames: t.simple_frames,
                reconnects: t.reconnects,
            },
            false,
        )
    } else {
        (t, false)
    }
}

/// The tracker when a device has just been opened: nothing is known of
/// its mode, no report is counted. The reconnects made are remembered.
pub open spec fn reopened(t: ModeTracker) -> ModeTracker {
    ModeTracker { status: ModeStatus::Unknown, simple_frames: 0, reconnects: t.reconnects }
}

impl ModeTracker {
    /// The tracker before any device was opened.
    pub fn new() -> (r: Self)
        ensures
            r == (ModeTracker { status: ModeStatus::Unknown, simple_frames: 0, reconnects: 0 }),
    {
        ModeTracker { status: ModeStatus::Unknown, simple_frames: 0, reconnects: 0 }
    }

    /// Starts the session of a device that has just been opened.
    pub fn reopen(&mut self)
        ensures
            *final(self) == reopened(*old(self)),
    {
        self.status = ModeStatus::Unknown;
        self.simple_frames = 0;
    }

    /// Takes note of a decoded report. Returns `true` where the controller
    /// is to be reconnected now.
    pub fn observe(&mut self, report_id: u8, is_dualsense: bool, is_bt: bool) -> (reconnect: bool)
        ensures
            (*final(self), reconnect) == observed(*old(self), report_id, is_dualsense, is_bt),
            reconnect ==> old(self).reconnects < MAX_AUTO_RECONNECTS,
    {
        if is_dualsense && is_bt {
            if self.status == ModeStatus::BtNative {
                return false;
            }
            if report_id == REPORT_BT_NATIVE {
                self.status = ModeStatus::BtNative;
                self.reconnects = 0;
                self.simple_frames = 0;
                return false;
            }
            if report_id == REPORT_BASIC {
                if self.simple_frames < u32::MAX {
                    self.simple_frames = self.simple_frames + 1;
                }
                if self.status == ModeStatus::Unknown {
                    self.status = ModeStatus::Waiting(self.simple_frames);
                }
                if self.simple_frames > STUCK_THRESHOLD {
                    if self.reconnects < MAX_AUTO_RECONNECTS {
                        self.reconnects = self.reconnects + 1;
                        self.status = ModeStatus::SimpleReconnecting;
                        return true;
                    } else if self.simple_frames == STUCK_THRESHOLD + 1 {
                        self.status = ModeStatus::SimpleFailed;
                    }
                }
            }
            false
        } else {
            if self.status == ModeStatus::Unknown {
                self.status = if is_dualsense {
                    ModeStatus::UsbNative
                } else {
                    ModeStatus::Ds4(report_id)
                };
            }
            false
        }
    }

    /// Whether output frames may be sent: not while basic reports are
    /// being counted, since the firmware would fight them.
    pub fn safe_to_send(&self) -> (r: bool)
        ensures
            r == (self.simple_frames == 0),
    {
        self.simple_frames == 0
    }
}

/// What a received buffer leads to.
#[derive(Debug, Clone, Copy, PartialEq, Eq, Structural)]
pub struct FrameOutcome {
    /// The decoded state, to be fed to the remapping engine.
    pub state: GamepadState,
    /// Whether it differs from the state of the tick before: only then is
    /// the virtual pad written to.
    pub changed: bool,
    /// Whether the controller is to be reconnected now.
    pub reconnect: bool,
}

/// Takes a received buffer: decodes it, compares the state with the last
/// one, and, for the first buffer of a tick (`first_of_tick`), lets the
/// tracker take note of its report id. A buffer that is no frame gives
/// `None` and changes nothing: such buffers are dropped in silence.
pub fn on_report(
    tracker: &mut ModeTracker,
    last_state: &mut GamepadState,
    report: &[u8],
    is_dualsense: bool,
    is_bt: bool,
    first_of_tick: bool,
) -> (r: Option<FrameOutcome>)
    ensures
        match decoded(report@, is_dualsense, is_bt) {
            None => r is None && *final(tracker) == *old(tracker) && *final(last_state) == *old(
                last_state,
            ),
            Some(state) => {
                let seen = if first_of_tick {
                    observed(*old(tracker), report@[0], is_dualsense, is_bt)
                } else {
                    (*old(tracker), false)
                };
                &&& r == Some(
                    FrameOutcome {
                        state: state,
                        changed: state != *old(last_state),
                        reconnect: seen.1,
                    },
                )
                &&& *final(tracker) == seen.0
                &&& *final(last_state) == state
                &&& state.well_formed()
            },
        },
{
    match decode(report, is_dualsense, is_bt) {
        None => None,
        Some(state) => {
            let reconnect = if first_of_tick {
                tracker.observe(report[0], is_dualsense, is_bt)
            } else {
                false
            };
            let changed = state != *last_state;
            *last_state = state;
            Some(FrameOutcome { state, changed, reconnect })
        },
    }
}

/// The tracker after `n` basic reports in a row from a DualSense over
/// Bluetooth.
pub open spec fn after_basic(t: ModeTracker, n: nat) -> ModeTracker
    decreases n,
{
    if n == 0 {
        t
    } else {
        observed(after_basic(t, (n - 1) as nat), REPORT_BASIC, true, true).0
    }
}

/// How many reconnects were asked for during `n` basic reports in a row.
pub open spec fn reconnects_during(t: ModeTracker, n: nat) -> nat
    decreases n,
{
    if n == 0 {
        0
    } else {
        reconnects_during(t, (n - 1) as nat) + if observed(
            after_basic(t, (n - 1) as nat),
            REPORT_BASIC,
            true,
            true,
        ).1 {
            1nat
        } else {
            0nat
        }
    }
}

proof fn lemma_basic_run(n: nat)
    requires
        n < 0xFFFF_FFFF,
    ensures
        ({
            let t = after_basic(
                ModeTracker { status: ModeStatus::Unknown, simple_frames: 0, reconnects: 0 },
                n,
            );
            &&& t.simple_frames == n
            &&& t.status != ModeStatus::BtNative
            &&& t.reconnects == (if n > STUCK_THRESHOLD { 1u32 } else { 0u32 })
        }),
        reconnects_during(
            ModeTracker { status: ModeStatus::Unknown, simple_frames: 0, reconnects: 0 },
            n,
        ) == (if n > STUCK_THRESHOLD { 1nat } else { 0nat }),
    decreases n,
{
    if n > 0 {
        lemma_basic_run((n - 1) as nat);
    }
}

/// A controller that sends nothing but basic reports is reconnected once,
/// at report 201, and never again: not at report 202, nor at any later one.
pub proof fn law_one_reconnect(n: nat)
    requires
        n < 0xFFFF_FFFF,
    ensures
        ({
            let fresh = ModeTracker {
                status: ModeStatus::Unknown,
                simple_frames: 0,
                reconnects: 0,
            };
            &&& observed(after_basic(fresh, n), REPORT_BASIC, true, true).1 <==> n
                == STUCK_THRESHOLD
            &&& reconnects_during(fresh, n) == (if n > STUCK_THRESHOLD { 1nat } else { 0nat })
        }),
{
    lemma_basic_run(n);
}

/// Once the automatic reconnect is spent, basic reports never ask for
/// another, whether the device was opened anew in between or not.
pub proof fn law_no_second_reconnect(t: ModeTracker, n: nat)
    requires
        t.reconnects >= MAX_AUTO_RECONNECTS,
    ensures
        after_basic(t, n).reconnects == t.reconnects,
        after_basic(reopened(t), n).reconnects == t.reconnects,
        !observed(after_basic(t, n), REPORT_BASIC, true, true).1,
        !observed(after_basic(reopened(t), n), REPORT_BASIC, true, true).1,
    decreases n,
{
    if n > 0 {
        law_no_second_reconnect(t, (n - 1) as nat);
    }
}

/// The enhanced report settles the mode for the session: whatever follows,
/// the tracker stays native and asks for no reconnect.
pub proof fn law_native_is_permanent(t: ModeTracker, report_id: u8)
    requires
        t.status == ModeStatus::BtNative,
    ensures
        observed(t, report_id, true, true) == (t, false),
{
}

/// Period of the LED and trigger refresh, in milliseconds.
pub const LED_REFRESH_MS: u64 = 1000;

/// Shortest time between two status snapshots, in milliseconds.
pub const SNAPSHOT_MS: u64 = 32;

/// Time after which a snapshot is sent though nothing has changed.
pub const SNAPSHOT_KEEPALIVE_MS: u64 = 1000;

/// Period of the fuzzing probe, in milliseconds.
pub const FUZZER_MS: u64 = 50;

/// The one-shot commands and the sequence counter that the control surface
/// shares with the worker.
#[derive(Debug, Clone, Copy, PartialEq, Eq, Structural)]
pub struct ControlFlags {
    pub should_send_manual: bool,
    pub should_send_pinpoint: bool,
    pub should_send_leds: bool,
    pub should_send_triggers: bool,
    pub should_disconnect: bool,
    pub bt_sequence: u8,
}

/// The commands taken out of the shared flags in one housekeeping pass.
#[derive(Debug, Clone, Copy, PartialEq, Eq, Structural)]
pub struct Commands {
    pub send_manual: bool,
    pub send_pinpoint: bool,
    pub send_leds: bool,
    pub send_triggers: bool,
    pub disconnect: bool,
    /// Sequence number for the frames of this pass.
    pub seq: u8,
}

/// The commands that `f` holds.
pub open spec fn pending(f: ControlFlags) -> Commands {
    Commands {
        send_manual: f.should_send_manual,
        send_pinpoint: f.should_send_pinpoint,
        send_leds: f.should_send_leds,
        send_triggers: f.should_send_triggers,
        disconnect: f.should_disconnect,
        seq: f.bt_sequence,
    }
}

/// The flags after their commands were taken: none is left, and the
/// sequence counter has moved on by one, from 255 back to 0.
pub open spec fn consumed(f: ControlFlags) -> ControlFlags {
    ControlFlags {
        should_send_manual: false,
        should_send_pinpoint: false,
        should_send_leds: false,
        should_send_triggers: false,
        should_disconnect: false,
        bt_sequence: if f.bt_sequence == 255 {
            0u8
        } else {
            (f.bt_sequence + 1) as u8
        },
    }
}

/// Takes the one-shot commands out of the shared flags. Each command is
/// handed out once: the flags are clear afterwards.
pub fn take_commands(flags: &mut ControlFlags) -> (cmds: Commands)
    ensures
        cmds == pending(*old(flags)),
        *final(flags) == consumed(*old(flags)),
{
    let cmds = Commands {
        send_manual: flags.should_send_manual,
        send_pinpoint: flags.should_send_pinpoint,
        send_leds: flags.should_send_leds,
        send_triggers: flags.should_send_triggers,
        disconnect: flags.should_disconnect,
        seq: flags.bt_sequence,
    };
    flags.should_send_manual = false;
    flags.should_send_pinpoint = false;
    flags.should_send_leds = false;
    flags.should_send_triggers = false;
    flags.should_disconnect = false;
    flags.bt_sequence = if flags.bt_sequence == 255 { 0 } else { flags.bt_sequence + 1 };
    cmds
}

/// A command is never carried out twice: a second pass over the same flags
/// finds none.
pub proof fn law_commands_consumed_once(f: ControlFlags)
    ensures
        !pending(consumed(f)).send_manual,
        !pending(consumed(f)).send_pinpoint,
        !pending(consumed(f)).send_leds,
        !pending(consumed(f)).send_triggers,
        !pending(consumed(f)).disconnect,
{
}

/// Which diagnostic probe runs in a housekeeping pass.
#[derive(Debug, Clone, Copy, PartialEq, Eq, Structural)]
pub enum Probe {
    Idle,
    Sweep,
    Fuzzer,
}

/// What the housekeeping pass finds besides the commands.
#[derive(Debug, Clone, Copy, PartialEq, Eq, Structural)]
pub struct HousekeepingInput {
    pub protocol_scan_requested: bool,
    pub sweep_active: bool,
    pub sweep_interval_ms: u64,
    pub fuzzer_active: bool,
    pub periodic_disabled: bool,
    /// Whether output frames may be sent at all (see `ModeTracker::safe_to_send`).
    pub safe_to_send: bool,
    /// Milliseconds since the sweep probe, the fuzzing probe and the LED
    /// refresh last ran.
    pub since_sweep_ms: u64,
    pub since_fuzzer_ms: u64,
    pub since_refresh_ms: u64,
}

/// What one housekeeping pass is to do, in the order of the fields.
#[derive(Debug, Clone, Copy, PartialEq, Eq, Structural)]
pub struct HousekeepingPlan {
    /// Tear the connection down and scan again; nothing else is done then.
    pub reconnect: bool,
    pub protocol_scan: bool,
    pub send_manual: bool,
    pub send_pinpoint: bool,
    pub probe: Probe,
    pub refresh_leds: bool,
}

/// The plan of a housekeeping pass. A reconnect command overrides all
/// else. Otherwise the one-shot sends go first; then the sweep probe where
/// it is active and due, else the fuzzing probe where it is active and due;
/// the LED refresh runs only while no probe is active, output is safe, and
/// a change was flagged or the period has passed.
pub open spec fn planned(cmds: Commands, input: HousekeepingInput) -> HousekeepingPlan {
    if cmds.disconnect {
        HousekeepingPlan {
            reconnect: true,
            protocol_scan: false,
            send_manual: false,
            send_pinpoint: false,
            probe: Probe::Idle,
            refresh_leds: false,
        }
    } else {
        HousekeepingPlan {
            reconnect: false,
            protocol_scan: input.protocol_scan_requested,
            send_manual: cmds.send_manual,
            send_pinpoint: cmds.send_pinpoint,
            probe: if input.sweep_active {
                if input.since_sweep_ms >= input.sweep_interval_ms {
                    Probe::Sweep
                } else {
                    Probe::Idle
                }
            } else if input.fuzzer_active {
                if input.since_fuzzer_ms >= FUZZER_MS {
                    Probe::Fuzzer
                } else {
                    Probe::Idle
                }
            } else {
                Probe::Idle
            },
            refresh_leds: !input.sweep_active && !input.fuzzer_active && input.safe_to_send && (
            cmds.send_leds || cmds.send_triggers || (!input.periodic_disabled
                && input.since_refresh_ms >= LED_REFRESH_MS)),
        }
    }
}

/// Plans one housekeeping pass from the commands taken and the timers.
pub fn plan_housekeeping(cmds: &Commands, input: &HousekeepingInput) -> (plan: HousekeepingPlan)
    ensures
        plan == planned(*cmds, *input),
{
    if cmds.disconnect {
        return HousekeepingPlan {
            reconnect: true,
            protocol_scan: false,
            send_manual: false,
            send_pinpoint: false,
            probe: Probe::Idle,
            refresh_leds: false,
        };
    }
    let mut probe = Probe::Idle;
    let mut refresh_leds = false;
    if input.sweep_active {
        if input.since_sweep_ms >= input.sweep_interval_ms {
            probe = Probe::Sweep;
        }
    } else if input.fuzzer_active {
        if input.since_fuzzer_ms >= FUZZER_MS {
            probe = Probe::Fuzzer;
        }
    } else {
        refresh_leds = input.safe_to_send && (cmds.send_leds || cmds.send_triggers || (
        !input.periodic_disabled && input.since_refresh_ms >= LED_REFRESH_MS));
    }
    HousekeepingPlan {
        reconnect: false,
        protocol_scan: input.protocol_scan_requested,
        send_manual: cmds.send_manual,
        send_pinpoint: cmds.send_pinpoint,
        probe,
        refresh_leds,
    }
}

/// What to ask of the cloaking helper.
#[derive(Debug, Clone, Copy, PartialEq, Eq, Structural)]
pub enum CloakAction {
    Keep,
    Hide,
    Unhide,
}

/// Brings the device's cloak in line with what is wanted.
pub fn cloak_action(want_hidden: bool, is_hidden: bool) -> (action: CloakAction)
    ensures
        action == if want_hidden && !is_hidden {
            CloakAction::Hide
        } else if !want_hidden && is_hidden {
            CloakAction::Unhide
        } else {
            CloakAction::Keep
        },
{
    if want_hidden && !is_hidden {
        CloakAction::Hide
    } else if !want_hidden && is_hidden {
        CloakAction::Unhide
    } else {
        CloakAction::Keep
    }
}

/// Whether the device is hidden after `action` was tried. A failed hide
/// leaves it visible; after an unhide it counts as visible whatever the
/// helper said.
pub fn cloak_after(action: CloakAction, succeeded: bool, was_hidden: bool) -> (hidden: bool)
    ensures
        hidden == match action {
            CloakAction::Keep => was_hidden,
            CloakAction::Hide => succeeded || was_hidden,
            CloakAction::Unhide => false,
        },
{
    match action {
        CloakAction::Keep => was_hidden,
        CloakAction::Hide => succeeded || was_hidden,
        CloakAction::Unhide => false,
    }
}

/// Whether a status snapshot is to be sent: at most every `SNAPSHOT_MS`,
/// only while the front-end is visible, and only where something it shows
/// has changed or the keep-alive time has passed.
pub fn snapshot_due(
    visible: bool,
    since_check_ms: u64,
    state_changed: bool,
    status_changed: bool,
    settings_pending: bool,
    since_emit_ms: u64,
) -> (due: bool)
    ensures
        due == (since_check_ms >= SNAPSHOT_MS && visible && (state_changed || status_changed
            || settings_pending || since_emit_ms > SNAPSHOT_KEEPALIVE_MS)),
{
    since_check_ms >= SNAPSHOT_MS && visible && (state_changed || status_changed
        || settings_pending || since_emit_ms > SNAPSHOT_KEEPALIVE_MS)
}

/// Pause before a failed subsystem is tried again, before the next scan,
/// and after a disconnect, in milliseconds.
pub const RETRY_MS: u64 = 2000;

/// Pause between two looks at the pause flag, in milliseconds.
pub const PAUSE_POLL_MS: u64 = 1000;

/// Where the worker stands.
#[derive(Debug, Clone, Copy, PartialEq, Eq, Structural)]
pub enum Phase {
    /// Connecting to the virtual-pad bus driver.
    InitBus,
    /// Setting up HID enumeration and registering with the cloaking helper.
    InitHid,
    /// Looking for a controller.
    Scanning,
    /// A controller was chosen and is being opened.
    Opening,
    /// Reading from an open controller.
    Active,
    /// Shut down.
    Stopped,
}

/// What the worker found when it did what it was told.
#[derive(Debug, Clone, Copy, PartialEq, Eq, Structural)]
pub enum Event {
    /// The global shutdown signal is set.
    Shutdown,
    BusConnected,
    BusFailed,
    HidReady,
    HidFailed,
    /// Scanning is paused by the user.
    Paused,
    /// The user asked for the drivers to be set up afresh.
    ReinitRequested,
    /// The device list could not be refreshed.
    EnumerationFailed,
    CandidateFound,
    NoCandidate,
    Opened,
    OpenFailed,
    /// A read failed, a reconnect was asked for, or the virtual pad could
    /// not be plugged in.
    Disconnected,
}

/// What the worker is to do next.
#[derive(Debug, Clone, Copy, PartialEq, Eq, Structural)]
pub enum Action {
    ConnectBus,
    InitHid,
    Scan,
    /// Hide the device where that is wanted, then open it.
    HideAndOpen,
    /// Enter the read loop.
    RunSession,
    /// Wait this many milliseconds, then do what the phase asks for.
    Wait(u64),
    /// Unplug the virtual pad and unhide the device, then wait this many
    /// milliseconds and scan again.
    CleanUpAndWait(u64),
    /// Reset the controller's LEDs and triggers where one is open, and end.
    Stop,
    /// Nothing: the event does not belong to the phase.
    Ignore,
}

/// The state of the session machine.
#[derive(Debug, Clone, Copy, PartialEq, Eq, Structural)]
pub struct Session {
    pub phase: Phase,
    /// Scans in a row that ended without an open device.
    pub empty_scans: u32,
}

/// The state after a scan that ended without an open device: past
/// `MAX_EMPTY_SCANS` of them HID is set up afresh, else the scan is
/// repeated after a pause.
pub open spec fn after_empty_scan(s: Session) -> (Session, Action) {
    if s.empty_scans >= MAX_EMPTY_SCANS {
        (Session { phase: Phase::InitHid, empty_scans: 0 }, Action::InitHid)
    } else {
        (
            Session { phase: Phase::Scanning, empty_scans: (s.empty_scans + 1) as u32 },
            Action::Wait(RETRY_MS),
        )
    }
}

/// The transition function of the session machine.
pub open spec fn next(s: Session, e: Event) -> (Session, Action) {
    if s.phase == Phase::Stopped {
        (s, Action::Ignore)
    } else if e == Event::Shutdown {
        (Session { phase: Phase::Stopped, empty_scans: s.empty_scans }, Action::Stop)
    } else {
        match (s.phase, e) {
            (Phase::InitBus, Event::BusConnected) => (
                Session { phase: Phase::InitHid, empty_scans: 0 },
                Action::InitHid,
            ),
            (Phase::InitBus, Event::BusFailed) => (s, Action::Wait(RETRY_MS)),
            (Phase::InitHid, Event::HidReady) => (
                Session { phase: Phase::Scanning, empty_scans: 0 },
                Action::Scan,
            ),
            (Phase::InitHid, Event::HidFailed) => (
                Session { phase: Phase::InitBus, empty_scans: 0 },
                Action::Wait(RETRY_MS),
            ),
            (Phase::Scanning, Event::Paused) => (s, Action::Wait(PAUSE_POLL_MS)),
            (Phase::Scanning, Event::ReinitRequested) => (
                Session { phase: Phase::InitBus, empty_scans: 0 },
                Action::ConnectBus,
            ),
            (Phase::Scanning, Event::EnumerationFailed) => (
                Session { phase: Phase::InitBus, empty_scans: 0 },
                Action::ConnectBus,
            ),
            (Phase::Scanning, Event::CandidateFound) => (
                Session { phase: Phase::Opening, empty_scans: s.empty_scans },
                Action::HideAndOpen,
            ),
            (Phase::Scanning, Event::NoCandidate) => after_empty_scan(s),
            (Phase::Opening, Event::Opened) => (
                Session { phase: Phase::Active, empty_scans: 0 },
                Action::RunSession,
            ),
            (Phase::Opening, Event::OpenFailed) => after_empty_scan(s),
            (Phase::Active, Event::Disconnected) => (
                Session { phase: Phase::Scanning, empty_scans: 0 },
                Action::CleanUpAndWait(RETRY_MS),
            ),
            _ => (s, Action::Ignore),
        }
    }
}

impl Session {
    /// The machine at start: the bus driver is to be connected.
    pub fn new() -> (r: Self)
        ensures
            r == (Session { phase: Phase::InitBus, empty_scans: 0 }),
    {
        Session { phase: Phase::InitBus, empty_scans: 0 }
    }

    fn empty_scan(&mut self) -> (action: Action)
        ensures
            (*final(self), action) == after_empty_scan(*old(self)),
    {
        if self.empty_scans >= MAX_EMPTY_SCANS {
            self.phase = Phase::InitHid;
            self.empty_scans = 0;
            Action::InitHid
        } else {
            self.phase = Phase::Scanning;
            self.empty_scans = self.empty_scans + 1;
            Action::Wait(RETRY_MS)
        }
    }

    /// Takes an event and tells what to do next.
    pub fn step(&mut self, event: Event) -> (action: Action)
        ensures
            (*final(self), action) == next(*old(self), event),
    {
        if self.phase == Phase::Stopped {
            return Action::Ignore;
        }
        if event == Event::Shutdown {
            self.phase = Phase::Stopped;
            return Action::Stop;
        }
        match (self.phase, event) {
            (Phase::InitBus, Event::BusConnected) => {
                self.phase = Phase::InitHid;
                self.empty_scans = 0;
                Action::InitHid
            },
            (Phase::InitBus, Event::BusFailed) => Action::Wait(RETRY_MS),
            (Phase::InitHid, Event::HidReady) => {
                self.phase = Phase::Scanning;
                self.empty_scans = 0;
                Action::Scan
            },
            (Phase::InitHid, Event::HidFailed) => {
                self.phase = Phase::InitBus;
                self.empty_scans = 0;
                Action::Wait(RETRY_MS)
            },
            (Phase::Scanning, Event::Paused) => Action::Wait(PAUSE_POLL_MS),
            (Phase::Scanning, Event::ReinitRequested) => {
                self.phase = Phase::InitBus;
                self.empty_scans = 0;
                Action::ConnectBus
            },
            (Phase::Scanning, Event::EnumerationFailed) => {
                self.phase = Phase::InitBus;
                self.empty_scans = 0;
                Action::ConnectBus
            },
            (Phase::Scanning, Event::CandidateFound) => {
                self.phase = Phase::Opening;
                Action::HideAndOpen
            },
            (Phase::Scanning, Event::NoCandidate) => self.empty_scan(),
            (Phase::Opening, Event::Opened) => {
                self.phase = Phase::Active;
                self.empty_scans = 0;
                Action::RunSession
            },
            (Phase::Opening, Event::OpenFailed) => self.empty_scan(),
            (Phase::Active, Event::Disconnected) => {
                self.phase = Phase::Scanning;
                self.empty_scans = 0;
                Action::CleanUpAndWait(RETRY_MS)
            },
            _ => Action::Ignore,
        }
    }
}

/// Nothing but the shutdown signal ends the worker, and once it has ended
/// it stays so.
pub proof fn law_only_shutdown_stops(s: Session, e: Event)
    ensures
        next(s, e).0.phase == Phase::Stopped <==> (s.phase == Phase::Stopped || e
            == Event::Shutdown),
        s.phase == Phase::Stopped ==> next(s, e) == (s, Action::Ignore),
{
}

/// A failure never stops the worker: a failed bus or HID set-up is tried
/// again after a pause, and a lost device leads back to scanning.
pub proof fn law_failures_recover(s: Session)
    ensures
        s.phase == Phase::InitBus ==> next(s, Event::BusFailed) == (s, Action::Wait(RETRY_MS)),
        s.phase == Phase::InitHid ==> next(s, Event::HidFailed).0.phase == Phase::InitBus
            && next(s, Event::HidFailed).1 == Action::Wait(RETRY_MS),
        s.phase == Phase::Active ==> next(s, Event::Disconnected) == (
            Session { phase: Phase::Scanning, empty_scans: 0 },
            Action::CleanUpAndWait(RETRY_MS),
        ),
{
}

/// The state after `n` scans in a row that found nothing.
pub open spec fn after_empty_scans(s: Session, n: nat) -> Session
    decreases n,
{
    if n == 0 {
        s
    } else {
        next(after_empty_scans(s, (n - 1) as nat), Event::NoCandidate).0
    }
}

/// Scanning goes on through five empty scans; the sixth sets HID up afresh.
pub proof fn law_soft_reinit(n: nat)
    requires
        n <= MAX_EMPTY_SCANS + 1,
    ensures
        ({
            let start = Session { phase: Phase::Scanning, empty_scans: 0 };
            after_empty_scans(start, n) == if n <= MAX_EMPTY_SCANS {
                Session { phase: Phase::Scanning, empty_scans: n as u32 }
            } else {
                Session { phase: Phase::InitHid, empty_scans: 0 }
            }
        }),
    decreases n,
{
    if n > 0 {
        law_soft_reinit((n - 1) as nat);
    }
}

} // verus!
