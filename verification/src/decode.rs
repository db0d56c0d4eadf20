//! Decoders of the input reports: five fixed byte layouts, chosen by the
//! leading report id and the buffer's length.

use vstd::prelude::*;
use crate::mapping::{neutral_state, GamepadState};

verus! {

/// Report id of the basic input report (USB, and Bluetooth before the
/// controller has been switched to its enhanced mode).
pub const REPORT_BASIC: u8 = 0x01;

/// Report id of the enhanced DualSense report over Bluetooth.
pub const REPORT_BT_NATIVE: u8 = 0x31;

/// Report id of the DualShock 4 report over Bluetooth.
pub const REPORT_DS4_BT: u8 = 0x11;

/// Shortest buffer that each layout is read from.
pub const MIN_LEN_SIMPLE: usize = 7;
pub const MIN_LEN_USB: usize = 11;
pub const MIN_LEN_BT: usize = 14;
pub const MIN_LEN_DS4_USB: usize = 10;
pub const MIN_LEN_DS4_BT: usize = 13;

/// Where the DualShock 4 payload starts behind the report id.
pub const DS4_USB_BASE: usize = 1;
pub const DS4_BT_BASE: usize = 3;

/// Offsets that were found by observation and may differ between firmware
/// revisions: the analog triggers, the touch contact (its flag byte, then
/// three bytes of coordinates) and the battery status. The DualShock 4
/// offset counts from the start of the payload.
pub const USB_L2: usize = 5;
pub const USB_R2: usize = 6;
pub const USB_BATTERY: usize = 53;
pub const BT_L2: usize = 6;
pub const BT_R2: usize = 7;
pub const BT_TOUCH: usize = 34;
pub const BT_BATTERY: usize = 54;
pub const DS4_BATTERY: usize = 11;

/// How a controller talks, as seen from the reports it sends. Each mode
/// has a byte layout of its own.
#[derive(Debug, Clone, Copy, PartialEq, Eq, Structural)]
pub enum ConnectionMode {
    /// DualSense over USB.
    UsbNative,
    /// DualSense over Bluetooth in its enhanced mode (report `0x31`).
    BtNative,
    /// DualSense over Bluetooth in its basic mode (report `0x01`).
    BtSimple,
    /// DualShock 4 over USB.
    Ds4Usb,
    /// DualShock 4 over Bluetooth.
    Ds4Bt,
}

/// A stick byte, centred: the numerator of `(v - 128) / 128`.
pub open spec fn axis_of(v: u8) -> i8 {
    (v - 128) as i8
}

pub open spec fn low_nibble(b: u8) -> u8 {
    b % 16
}

pub open spec fn high_nibble(b: u8) -> u8 {
    b / 16
}

/// Whether any bit of `mask` is set in `b`.
pub open spec fn bit(b: u8, mask: u8) -> bool {
    b & mask != 0
}

/// The eight directions run clockwise from Up (0); 8 and above is centred.
/// A diagonal sets its two neighbours.
pub open spec fn dpad_up(n: u8) -> bool {
    n == 7 || n == 0 || n == 1
}

pub open spec fn dpad_right(n: u8) -> bool {
    n == 1 || n == 2 || n == 3
}

pub open spec fn dpad_down(n: u8) -> bool {
    n == 3 || n == 4 || n == 5
}

pub open spec fn dpad_left(n: u8) -> bool {
    n == 5 || n == 6 || n == 7
}

/// Battery charge in percent from the status byte: the low nibble counts
/// tenths, capped at 100.
pub open spec fn battery_percent(b: u8) -> u8 {
    if low_nibble(b) >= 10 {
        100
    } else {
        (low_nibble(b) * 10) as u8
    }
}

/// 12-bit touch X: the low byte, and the low nibble of the mixed byte above it.
pub open spec fn touch_x_of(lo: u8, mid: u8) -> u16 {
    (lo + 256 * low_nibble(mid)) as u16
}

/// 12-bit touch Y: the high nibble of the mixed byte, and the high byte above it.
pub open spec fn touch_y_of(mid: u8, hi: u8) -> u16 {
    (high_nibble(mid) + 16 * hi) as u16
}

/// The power state nibbles that mean "charging" or "full".
pub open spec fn nibble_says_charging(n: u8) -> bool {
    n == 1 || n == 2
}

/// The trigger value of a digital trigger bit.
pub open spec fn digital_trigger(pressed: bool) -> u8 {
    if pressed {
        255
    } else {
        0
    }
}

/// What the basic report over Bluetooth holds. The triggers are digital
/// there; the system buttons are read only where the eighth byte exists.
/// Touch and battery are not part of this report.
pub open spec fn simple_state(r: Seq<u8>) -> GamepadState
    recommends
        r.len() >= MIN_LEN_SIMPLE,
{
    GamepadState {
        left_x: axis_of(r[1]),
        left_y: axis_of(r[2]),
        right_x: axis_of(r[3]),
        right_y: axis_of(r[4]),
        l2: digital_trigger(bit(r[6], 0x04)),
        r2: digital_trigger(bit(r[6], 0x08)),
        btn_cross: bit(r[5], 0x20),
        btn_circle: bit(r[5], 0x40),
        btn_square: bit(r[5], 0x10),
        btn_triangle: bit(r[5], 0x80),
        btn_l1: bit(r[6], 0x01),
        btn_r1: bit(r[6], 0x02),
        btn_l3: bit(r[6], 0x40),
        btn_r3: bit(r[6], 0x80),
        btn_options: bit(r[6], 0x20),
        btn_share: bit(r[6], 0x10),
        btn_ps: r.len() > 7 && bit(r[7], 0x01),
        dpad_up: dpad_up(low_nibble(r[5])),
        dpad_down: dpad_down(low_nibble(r[5])),
        dpad_left: dpad_left(low_nibble(r[5])),
        dpad_right: dpad_right(low_nibble(r[5])),
        btn_touchpad: r.len() > 7 && bit(r[7], 0x02),
        btn_mute: r.len() > 7 && bit(r[7], 0x04),
        touch_x: 0,
        touch_y: 0,
        touch_active: false,
        battery: 0,
        is_charging: false,
    }
}

/// What the DualSense report over USB holds. The battery byte is read where
/// the buffer reaches it.
pub open spec fn usb_state(r: Seq<u8>) -> GamepadState
    recommends
        r.len() >= MIN_LEN_USB,
{
    GamepadState {
        left_x: axis_of(r[1]),
        left_y: axis_of(r[2]),
        right_x: axis_of(r[3]),
        right_y: axis_of(r[4]),
        l2: r[USB_L2 as int],
        r2: r[USB_R2 as int],
        btn_cross: bit(r[8], 0x20),
        btn_circle: bit(r[8], 0x40),
        btn_square: bit(r[8], 0x10),
        btn_triangle: bit(r[8], 0x80),
        btn_l1: bit(r[9], 0x01),
        btn_r1: bit(r[9], 0x02),
        btn_l3: bit(r[9], 0x40),
        btn_r3: bit(r[9], 0x80),
        btn_options: bit(r[9], 0x20),
        btn_share: bit(r[9], 0x10),
        btn_ps: bit(r[10], 0x01),
        dpad_up: dpad_up(low_nibble(r[8])),
        dpad_down: dpad_down(low_nibble(r[8])),
        dpad_left: dpad_left(low_nibble(r[8])),
        dpad_right: dpad_right(low_nibble(r[8])),
        btn_touchpad: bit(r[10], 0x02),
        btn_mute: bit(r[10], 0x04),
        touch_x: 0,
        touch_y: 0,
        touch_active: false,
        battery: if r.len() > USB_BATTERY { battery_percent(r[USB_BATTERY as int]) } else { 0 },
        is_charging: r.len() > USB_BATTERY && bit(r[USB_BATTERY as int], 0x10),
    }
}

/// Whether the enhanced Bluetooth report shows a finger on the touchpad:
/// the top bit of the contact byte is set while none is down.
pub open spec fn bt_touching(r: Seq<u8>) -> bool {
    r.len() > BT_TOUCH + 3 && !bit(r[BT_TOUCH as int], 0x80)
}

/// What the enhanced DualSense report over Bluetooth holds. Touch and
/// battery are read where the buffer reaches them.
pub open spec fn bt_state(r: Seq<u8>) -> GamepadState
    recommends
        r.len() >= MIN_LEN_BT,
{
    GamepadState {
        left_x: axis_of(r[2]),
        left_y: axis_of(r[3]),
        right_x: axis_of(r[4]),
        right_y: axis_of(r[5]),
        l2: r[BT_L2 as int],
        r2: r[BT_R2 as int],
        btn_cross: bit(r[9], 0x20),
        btn_circle: bit(r[9], 0x40),
        btn_square: bit(r[9], 0x10),
        btn_triangle: bit(r[9], 0x80),
        btn_l1: bit(r[10], 0x01),
        btn_r1: bit(r[10], 0x02),
        btn_l3: bit(r[10], 0x40),
        btn_r3: bit(r[10], 0x80),
        btn_options: bit(r[10], 0x20),
        btn_share: bit(r[10], 0x10),
        btn_ps: bit(r[11], 0x01),
        dpad_up: dpad_up(low_nibble(r[9])),
        dpad_down: dpad_down(low_nibble(r[9])),
        dpad_left: dpad_left(low_nibble(r[9])),
        dpad_right: dpad_right(low_nibble(r[9])),
        btn_touchpad: bit(r[11], 0x02),
        btn_mute: bit(r[11], 0x04),
        touch_x: if bt_touching(r) { touch_x_of(r[BT_TOUCH + 1], r[BT_TOUCH + 2]) } else { 0 },
        touch_y: if bt_touching(r) { touch_y_of(r[BT_TOUCH + 2], r[BT_TOUCH + 3]) } else { 0 },
        touch_active: bt_touching(r),
        battery: if r.len() > BT_BATTERY + 1 { battery_percent(r[BT_BATTERY as int]) } else { 0 },
        is_charging: r.len() > BT_BATTERY + 1 && (nibble_says_charging(
            high_nibble(r[BT_BATTERY as int]),
        ) || nibble_says_charging(low_nibble(r[BT_BATTERY + 1]))),
    }
}

/// What a DualShock 4 payload holds, the report's header taken off.
pub open spec fn ds4_state(d: Seq<u8>) -> GamepadState
    recommends
        d.len() >= 9,
{
    GamepadState {
        left_x: axis_of(d[0]),
        left_y: axis_of(d[1]),
        right_x: axis_of(d[2]),
        right_y: axis_of(d[3]),
        l2: d[7],
        r2: d[8],
        btn_cross: bit(d[4], 0x20),
        btn_circle: bit(d[4], 0x40),
        btn_square: bit(d[4], 0x10),
        btn_triangle: bit(d[4], 0x80),
        btn_l1: bit(d[5], 0x01),
        btn_r1: bit(d[5], 0x02),
        btn_l3: bit(d[5], 0x40),
        btn_r3: bit(d[5], 0x80),
        btn_options: bit(d[5], 0x20),
        btn_share: bit(d[5], 0x10),
        btn_ps: bit(d[6], 0x01),
        dpad_up: dpad_up(low_nibble(d[4])),
        dpad_down: dpad_down(low_nibble(d[4])),
        dpad_left: dpad_left(low_nibble(d[4])),
        dpad_right: dpad_right(low_nibble(d[4])),
        btn_touchpad: bit(d[6], 0x02),
        btn_mute: false,
        touch_x: 0,
        touch_y: 0,
        touch_active: false,
        battery: if d.len() > DS4_BATTERY { battery_percent(d[DS4_BATTERY as int]) } else { 0 },
        is_charging: d.len() > DS4_BATTERY && bit(d[DS4_BATTERY as int], 0x10),
    }
}

/// The mode that a buffer shows, if any: by its report id, by the device
/// family and transport, and by its length.
pub open spec fn mode_of(report: Seq<u8>, dualsense: bool, bt: bool) -> Option<ConnectionMode> {
    if report.len() == 0 {
        None
    } else if dualsense && bt {
        if report[0] == REPORT_BASIC && report.len() >= MIN_LEN_SIMPLE {
            Some(ConnectionMode::BtSimple)
        } else if report[0] == REPORT_BT_NATIVE && report.len() >= MIN_LEN_BT {
            Some(ConnectionMode::BtNative)
        } else {
            None
        }
    } else if dualsense {
        if report[0] == REPORT_BASIC && report.len() >= MIN_LEN_USB {
            Some(ConnectionMode::UsbNative)
        } else {
            None
        }
    } else {
        if report[0] == REPORT_BASIC && report.len() >= MIN_LEN_DS4_USB {
            Some(ConnectionMode::Ds4Usb)
        } else if report[0] == REPORT_DS4_BT && report.len() >= MIN_LEN_DS4_BT {
            Some(ConnectionMode::Ds4Bt)
        } else {
            None
        }
    }
}

/// The state that `report` holds when read in the layout of `mode`.
pub open spec fn state_in(mode: ConnectionMode, report: Seq<u8>) -> GamepadState {
    match mode {
        ConnectionMode::BtSimple => simple_state(report),
        ConnectionMode::UsbNative => usb_state(report),
        ConnectionMode::BtNative => bt_state(report),
        ConnectionMode::Ds4Usb => ds4_state(report.skip(DS4_USB_BASE as int)),
        ConnectionMode::Ds4Bt => ds4_state(report.skip(DS4_BT_BASE as int)),
    }
}

/// The decoded state of a buffer, or `None` where it is no frame that is
/// understood.
pub open spec fn decoded(report: Seq<u8>, dualsense: bool, bt: bool) -> Option<GamepadState> {
    match mode_of(report, dualsense, bt) {
        Some(mode) => Some(state_in(mode, report)),
        None => None,
    }
}

/// Centres a stick byte: the result, over 128, is the deflection in `[-1, 1)`.
pub fn normalize_axis(val: u8) -> (r: i8)
    ensures
        r == axis_of(val),
        r == val - 128,
{
    if val >= 128 {
        (val - 128) as i8
    } else {
        -1 - ((127 - val) as i8)
    }
}

/// A trigger byte is its own numerator: the result, over 255, is the pull
/// in `[0, 1]`.
pub fn normalize_trigger(val: u8) -> (r: u8)
    ensures
        r == val,
{
    val
}

fn mask_set(b: u8, mask: u8) -> (r: bool)
    ensures
        r == bit(b, mask),
{
    (b & mask) != 0
}

fn low(b: u8) -> (r: u8)
    ensures
        r == low_nibble(b),
        r < 16,
{
    assert(b & 0x0F == b % 16) by (bit_vector);
    b & 0x0F
}

fn high(b: u8) -> (r: u8)
    ensures
        r == high_nibble(b),
        r < 16,
{
    assert(b >> 4 == b / 16) by (bit_vector);
    b >> 4
}

fn battery_from(b: u8) -> (r: u8)
    ensures
        r == battery_percent(b),
        r <= 100,
        r % 10 == 0,
{
    let level: u8 = low(b);
    if level >= 10 {
        100
    } else {
        level * 10
    }
}

fn touch_from(lo: u8, mid: u8, hi: u8) -> (r: (u16, u16))
    ensures
        r.0 == touch_x_of(lo, mid),
        r.1 == touch_y_of(mid, hi),
        r.0 < 4096,
        r.1 < 4096,
{
    let x_lo: u16 = lo as u16;
    let m: u16 = mid as u16;
    let y_hi: u16 = hi as u16;
    assert(((m & 0x0F) << 8) | x_lo == x_lo + 256 * (m % 16)) by (bit_vector)
        requires
            x_lo < 256,
            m < 256,
    ;
    assert((y_hi << 4) | ((m & 0xF0) >> 4) == m / 16 + 16 * y_hi) by (bit_vector)
        requires
            y_hi < 256,
            m < 256,
    ;
    (((m & 0x0F) << 8) | x_lo, (y_hi << 4) | ((m & 0xF0) >> 4))
}

fn parse_dualsense_simple(report: &[u8]) -> (state: GamepadState)
    requires
        report.len() >= MIN_LEN_SIMPLE,
    ensures
        state == simple_state(report@),
        state.well_formed(),
{
    let b1: u8 = report[5];
    let b2: u8 = report[6];
    // The system buttons sit in an eighth byte that short reports lack.
    let b3: u8 = if report.len() > 7 { report[7] } else { 0 };
    let dpad: u8 = low(b1);
    assert(!bit(0u8, 0x01) && !bit(0u8, 0x02) && !bit(0u8, 0x04)) by (bit_vector);
    GamepadState {
        left_x: normalize_axis(report[1]),
        left_y: normalize_axis(report[2]),
        right_x: normalize_axis(report[3]),
        right_y: normalize_axis(report[4]),
        l2: if mask_set(b2, 0x04) { 255 } else { 0 },
        r2: if mask_set(b2, 0x08) { 255 } else { 0 },
        btn_cross: mask_set(b1, 0x20),
        btn_circle: mask_set(b1, 0x40),
        btn_square: mask_set(b1, 0x10),
        btn_triangle: mask_set(b1, 0x80),
        btn_l1: mask_set(b2, 0x01),
        btn_r1: mask_set(b2, 0x02),
        btn_l3: mask_set(b2, 0x40),
        btn_r3: mask_set(b2, 0x80),
        btn_options: mask_set(b2, 0x20),
        btn_share: mask_set(b2, 0x10),
        btn_ps: mask_set(b3, 0x01),
        dpad_up: dpad == 7 || dpad == 0 || dpad == 1,
        dpad_down: dpad == 3 || dpad == 4 || dpad == 5,
        dpad_left: dpad == 5 || dpad == 6 || dpad == 7,
        dpad_right: dpad == 1 || dpad == 2 || dpad == 3,
        btn_touchpad: mask_set(b3, 0x02),
        btn_mute: mask_set(b3, 0x04),
        touch_x: 0,
        touch_y: 0,
        touch_active: false,
        battery: 0,
        is_charging: false,
    }
}

fn parse_dualsense_usb(report: &[u8]) -> (state: GamepadState)
    requires
        report.len() >= MIN_LEN_USB,
    ensures
        state == usb_state(report@),
        state.well_formed(),
{
    let b1: u8 = report[8];
    let b2: u8 = report[9];
    let b3: u8 = report[10];
    let dpad: u8 = low(b1);
    let mut battery: u8 = 0;
    let mut is_charging = false;
    if report.len() > USB_BATTERY {
        battery = battery_from(report[USB_BATTERY]);
        is_charging = mask_set(report[USB_BATTERY], 0x10);
    }
    GamepadState {
        left_x: normalize_axis(report[1]),
        left_y: normalize_axis(report[2]),
        right_x: normalize_axis(report[3]),
        right_y: normalize_axis(report[4]),
        l2: normalize_trigger(report[USB_L2]),
        r2: normalize_trigger(report[USB_R2]),
        btn_cross: mask_set(b1, 0x20),
        btn_circle: mask_set(b1, 0x40),
        btn_square: mask_set(b1, 0x10),
        btn_triangle: mask_set(b1, 0x80),
        btn_l1: mask_set(b2, 0x01),
        btn_r1: mask_set(b2, 0x02),
        btn_l3: mask_set(b2, 0x40),
        btn_r3: mask_set(b2, 0x80),
        btn_options: mask_set(b2, 0x20),
        btn_share: mask_set(b2, 0x10),
        btn_ps: mask_set(b3, 0x01),
        dpad_up: dpad == 7 || dpad == 0 || dpad == 1,
        dpad_down: dpad == 3 || dpad == 4 || dpad == 5,
        dpad_left: dpad == 5 || dpad == 6 || dpad == 7,
        dpad_right: dpad == 1 || dpad == 2 || dpad == 3,
        btn_touchpad: mask_set(b3, 0x02),
        btn_mute: mask_set(b3, 0x04),
        touch_x: 0,
        touch_y: 0,
        touch_active: false,
        battery: battery,
        is_charging: is_charging,
    }
}

fn parse_dualsense_bt(data: &[u8]) -> (state: GamepadState)
    requires
        data.len() >= MIN_LEN_BT,
    ensures
        state == bt_state(data@),
        state.well_formed(),
{
    let b1: u8 = data[9];
    let b2: u8 = data[10];
    let b3: u8 = data[11];
    let dpad: u8 = low(b1);
    let touching = data.len() > BT_TOUCH + 3 && !mask_set(data[BT_TOUCH], 0x80);
    let touch: (u16, u16) = if touching {
        touch_from(data[BT_TOUCH + 1], data[BT_TOUCH + 2], data[BT_TOUCH + 3])
    } else {
        (0, 0)
    };
    let mut battery: u8 = 0;
    let mut is_charging = false;
    if data.len() > BT_BATTERY + 1 {
        battery = battery_from(data[BT_BATTERY]);
        // Charging or full, in the high nibble here or the low nibble next door.
        let b_status: u8 = high(data[BT_BATTERY]);
        let power_status: u8 = low(data[BT_BATTERY + 1]);
        is_charging = b_status == 1 || b_status == 2 || power_status == 1 || power_status == 2;
    }
    GamepadState {
        left_x: normalize_axis(data[2]),
        left_y: normalize_axis(data[3]),
        right_x: normalize_axis(data[4]),
        right_y: normalize_axis(data[5]),
        l2: normalize_trigger(data[BT_L2]),
        r2: normalize_trigger(data[BT_R2]),
        btn_cross: mask_set(b1, 0x20),
        btn_circle: mask_set(b1, 0x40),
        btn_square: mask_set(b1, 0x10),
        btn_triangle: mask_set(b1, 0x80),
        btn_l1: mask_set(b2, 0x01),
        btn_r1: mask_set(b2, 0x02),
        btn_l3: mask_set(b2, 0x40),
        btn_r3: mask_set(b2, 0x80),
        btn_options: mask_set(b2, 0x20),
        btn_share: mask_set(b2, 0x10),
        btn_ps: mask_set(b3, 0x01),
        dpad_up: dpad == 7 || dpad == 0 || dpad == 1,
        dpad_down: dpad == 3 || dpad == 4 || dpad == 5,
        dpad_left: dpad == 5 || dpad == 6 || dpad == 7,
        dpad_right: dpad == 1 || dpad == 2 || dpad == 3,
        btn_touchpad: mask_set(b3, 0x02),
        btn_mute: mask_set(b3, 0x04),
        touch_x: touch.0,
        touch_y: touch.1,
        touch_active: touching,
        battery: battery,
        is_charging: is_charging,
    }
}

fn parse_ds_common(report: &[u8], base: usize) -> (state: GamepadState)
    requires
        base <= 3,
        report.len() >= base + 9,
    ensures
        state == ds4_state(report@.skip(base as int)),
        state.well_formed(),
{
    let ghost d = report@.skip(base as int);
    assert(d.len() == report.len() - base);
    assert(forall|k: int| 0 <= k < d.len() ==> d[k] == report@[base + k]);
    let b1: u8 = report[base + 4];
    let b2: u8 = report[base + 5];
    let b3: u8 = report[base + 6];
    let dpad: u8 = low(b1);
    let mut battery: u8 = 0;
    let mut is_charging = false;
    if report.len() - base > DS4_BATTERY {
        battery = battery_from(report[base + DS4_BATTERY]);
        is_charging = mask_set(report[base + DS4_BATTERY], 0x10);
    }
    GamepadState {
        left_x: normalize_axis(report[base]),
        left_y: normalize_axis(report[base + 1]),
        right_x: normalize_axis(report[base + 2]),
        right_y: normalize_axis(report[base + 3]),
        l2: normalize_trigger(report[base + 7]),
        r2: normalize_trigger(report[base + 8]),
        btn_cross: mask_set(b1, 0x20),
        btn_circle: mask_set(b1, 0x40),
        btn_square: mask_set(b1, 0x10),
        btn_triangle: mask_set(b1, 0x80),
        btn_l1: mask_set(b2, 0x01),
        btn_r1: mask_set(b2, 0x02),
        btn_l3: mask_set(b2, 0x40),
        btn_r3: mask_set(b2, 0x80),
        btn_options: mask_set(b2, 0x20),
        btn_share: mask_set(b2, 0x10),
        btn_ps: mask_set(b3, 0x01),
        dpad_up: dpad == 7 || dpad == 0 || dpad == 1,
        dpad_down: dpad == 3 || dpad == 4 || dpad == 5,
        dpad_left: dpad == 5 || dpad == 6 || dpad == 7,
        dpad_right: dpad == 1 || dpad == 2 || dpad == 3,
        btn_touchpad: mask_set(b3, 0x02),
        btn_mute: false,
        touch_x: 0,
        touch_y: 0,
        touch_active: false,
        battery: battery,
        is_charging: is_charging,
    }
}

/// Decodes a DualSense input report. Over Bluetooth the basic report
/// (id `0x01`) and the enhanced one (id `0x31`) are understood, over USB the
/// report with id `0x01`. Anything else, and any buffer too short for its
/// layout, gives `None`.
pub fn parse_dualsense(report: &[u8], is_bt: bool) -> (r: Option<GamepadState>)
    ensures
        r == decoded(report@, true, is_bt),
        r matches Some(s) ==> s.well_formed(),
{
    if report.len() == 0 {
        return None;
    }
    let report_id: u8 = report[0];
    if is_bt {
        if report_id == REPORT_BASIC && report.len() >= MIN_LEN_SIMPLE {
            return Some(parse_dualsense_simple(report));
        }
        if report_id == REPORT_BT_NATIVE && report.len() >= MIN_LEN_BT {
            return Some(parse_dualsense_bt(report));
        }
    } else {
        if report_id == REPORT_BASIC && report.len() >= MIN_LEN_USB {
            return Some(parse_dualsense_usb(report));
        }
    }
    None
}

/// Decodes a DualShock 4 input report: id `0x01` over USB, id `0x11` over
/// Bluetooth. Anything else, and any buffer too short, gives `None`.
pub fn parse_ds4(report: &[u8]) -> (r: Option<GamepadState>)
    ensures
        r == decoded(report@, false, false),
        r == decoded(report@, false, true),
        r matches Some(s) ==> s.well_formed(),
{
    if report.len() == 0 {
        return None;
    }
    let report_id: u8 = report[0];
    if report_id == REPORT_BASIC && report.len() >= MIN_LEN_DS4_USB {
        return Some(parse_ds_common(report, DS4_USB_BASE));
    }
    if report_id == REPORT_DS4_BT && report.len() >= MIN_LEN_DS4_BT {
        return Some(parse_ds_common(report, DS4_BT_BASE));
    }
    None
}

/// Tells the mode that a buffer shows, or `None` where it is no frame that
/// is understood.
pub fn classify(report: &[u8], is_dualsense: bool, is_bt: bool) -> (r: Option<ConnectionMode>)
    ensures
        r == mode_of(report@, is_dualsense, is_bt),
{
    if report.len() == 0 {
        return None;
    }
    let id: u8 = report[0];
    let len = report.len();
    if is_dualsense && is_bt {
        if id == REPORT_BASIC && len >= MIN_LEN_SIMPLE {
            Some(ConnectionMode::BtSimple)
        } else if id == REPORT_BT_NATIVE && len >= MIN_LEN_BT {
            Some(ConnectionMode::BtNative)
        } else {
            None
        }
    } else if is_dualsense {
        if id == REPORT_BASIC && len >= MIN_LEN_USB {
            Some(ConnectionMode::UsbNative)
        } else {
            None
        }
    } else {
        if id == REPORT_BASIC && len >= MIN_LEN_DS4_USB {
            Some(ConnectionMode::Ds4Usb)
        } else if id == REPORT_DS4_BT && len >= MIN_LEN_DS4_BT {
            Some(ConnectionMode::Ds4Bt)
        } else {
            None
        }
    }
}

/// Decodes one input report of either family.
pub fn decode(report: &[u8], is_dualsense: bool, is_bt: bool) -> (r: Option<GamepadState>)
    ensures
        r == decoded(report@, is_dualsense, is_bt),
        r matches Some(s) ==> s.well_formed(),
{
    if is_dualsense {
        parse_dualsense(report, is_bt)
    } else {
        parse_ds4(report)
    }
}

/// The D-pad table: value 1 is Up and Right, value 5 is Down and Left, 8
/// and above is centred. No value sets more than two directions, and none
/// sets two opposite ones.
pub proof fn law_dpad_table(n: u8)
    ensures
        dpad_up(1) && dpad_right(1) && !dpad_down(1) && !dpad_left(1),
        dpad_down(5) && dpad_left(5) && !dpad_up(5) && !dpad_right(5),
        n >= 8 ==> !dpad_up(n) && !dpad_right(n) && !dpad_down(n) && !dpad_left(n),
        !(dpad_up(n) && dpad_down(n)),
        !(dpad_left(n) && dpad_right(n)),
        n < 8 ==> dpad_up(n) || dpad_right(n) || dpad_down(n) || dpad_left(n),
{
}

/// A basic report of a pad at rest decodes to the neutral state: with the
/// four stick bytes at 128, the D-pad nibble at 8 and no button bit set,
/// every button is released and both sticks are centred.
pub proof fn law_rest_frame_is_neutral(r: Seq<u8>)
    requires
        r.len() >= MIN_LEN_SIMPLE,
        r[0] == REPORT_BASIC,
        r[1] == 128 && r[2] == 128 && r[3] == 128 && r[4] == 128,
        r[5] == 8,
        r[6] == 0,
        r.len() > 7 ==> r[7] == 0,
    ensures
        decoded(r, true, true) == Some(neutral_state()),
{
    assert(forall|m: u8| !bit(0u8, m)) by {
        assert(forall|m: u8| 0u8 & m == 0) by (bit_vector);
    }
    assert(!bit(8u8, 0x10) && !bit(8u8, 0x20) && !bit(8u8, 0x40) && !bit(8u8, 0x80))
        by (bit_vector);
}

} // verus!
