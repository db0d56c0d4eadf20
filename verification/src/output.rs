//! Encoders of the output reports: lightbar, player LEDs and adaptive
//! triggers, in the USB layout (64 bytes) and the Bluetooth layout
//! (74 bytes of payload and a 4-byte checksum).

use vstd::prelude::*;
use vstd::string::*;
use crate::crc::{crc32_bt, spec_crc32_bt};

verus! {

/// Report id of the DualSense output report over USB.
pub const REPORT_OUT_USB: u8 = 0x02;

/// Report id of the DualSense output report over Bluetooth.
pub const REPORT_OUT_BT: u8 = 0x31;

/// Length of a USB output frame.
pub const USB_FRAME_LEN: usize = 64;

/// Length of the Bluetooth payload that the checksum covers.
pub const BT_PAYLOAD_LEN: usize = 74;

/// Length of a Bluetooth output frame, checksum included.
pub const BT_FRAME_LEN: usize = 78;

/// Offsets in the USB layout. Over Bluetooth every one of them lies one
/// byte further on, behind the sequence tag.
pub const OFFSET_TRIGGER_R2: usize = 11;
pub const OFFSET_TRIGGER_L2: usize = 22;
pub const OFFSET_LED_FLAGS: usize = 39;
pub const OFFSET_LIGHTBAR_SETUP: usize = 42;
pub const OFFSET_LED_BRIGHTNESS: usize = 43;
pub const OFFSET_LED_MASK: usize = 44;
pub const OFFSET_RGB: usize = 45;

/// Flag bytes of the header: everything enabled; triggers and LEDs; LEDs.
pub const FLAGS_ALL: u8 = 0xFF;
pub const FLAGS_TRIGGERS_AND_LED: u8 = 0xF7;
pub const FLAGS_LED: u8 = 0x15;

/// In the LED flags byte: the player LED brightness is to be applied.
pub const LED_BRIGHTNESS_ENABLE: u8 = 0x01;

/// In the lightbar set-up byte: the lightbar is switched on.
pub const LIGHTBAR_ENABLE: u8 = 0x02;

/// In the player LED byte: the LEDs change at once, without fading in.
pub const LED_APPLY_NOW: u8 = 0x20;

/// In the sequence tag: the mark of an output report, and the bit that
/// asks the controller to disconnect.
pub const TAG_OUTPUT: u8 = 0x02;
pub const TAG_DISCONNECT: u8 = 0x40;

/// Strength of the rumble pulse in the USB wake-up frame.
pub const WAKE_RUMBLE: u8 = 0x20;

/// Player LED mask of the centre light.
pub const LED_CENTER_MASK: u8 = 0x04;

/// The program of one adaptive trigger.
#[derive(Debug, Clone, Copy, PartialEq, Eq, Structural)]
pub struct TriggerEffect {
    pub mode: u8,
    pub start: u8,
    pub force: u8,
}

/// What the controller is told to show and to do.
#[derive(Debug, Clone, Copy, PartialEq, Eq, Structural)]
pub struct OutputSettings {
    pub rgb_r: u8,
    pub rgb_g: u8,
    pub rgb_b: u8,
    /// Scales the three colour channels: 255 leaves them as they are.
    pub rgb_brightness: u8,
    pub player_led_mask: u8,
    /// 0 is bright, 1 medium, 2 dim.
    pub player_led_brightness: u8,
    pub trigger_l2: TriggerEffect,
    pub trigger_r2: TriggerEffect,
    /// Show the battery charge on the player LEDs in place of the mask.
    pub show_battery_led: bool,
}

/// `n` zero bytes.
pub open spec fn zeros(n: nat) -> Seq<u8> {
    Seq::new(n, |i: int| 0u8)
}

/// Second byte of a Bluetooth frame: the sequence counter in the high
/// nibble, the output tag in the low one.
pub open spec fn sequence_tag(seq: u8) -> u8 {
    (seq << 4) | TAG_OUTPUT
}

/// A colour channel scaled by the brightness, rounded down.
pub open spec fn scaled(channel: u8, brightness: u8) -> u8 {
    (channel * brightness / 255) as u8
}

/// The four bytes of `x`, lowest first.
pub open spec fn le_bytes(x: u32) -> Seq<u8> {
    seq![
        (x % 256) as u8,
        ((x / 256) % 256) as u8,
        ((x / 65536) % 256) as u8,
        (x / 16777216) as u8,
    ]
}

/// A Bluetooth payload followed by its checksum.
pub open spec fn sealed(payload: Seq<u8>) -> Seq<u8> {
    payload + le_bytes(spec_crc32_bt(payload))
}

/// The zeroed frame with its report id and flag bytes.
pub open spec fn output_header(is_bt: bool, seq: u8) -> Seq<u8> {
    if is_bt {
        zeros(BT_PAYLOAD_LEN as nat).update(0, REPORT_OUT_BT).update(1, sequence_tag(seq)).update(
            2,
            FLAGS_ALL,
        ).update(3, FLAGS_LED)
    } else {
        zeros(USB_FRAME_LEN as nat).update(0, REPORT_OUT_USB).update(
            1,
            FLAGS_TRIGGERS_AND_LED,
        ).update(2, FLAGS_LED)
    }
}

/// The bytes of an output frame before any checksum: the header, the two
/// trigger programs, the LED flags, and the lightbar colour scaled by the
/// brightness.
pub open spec fn output_payload(is_bt: bool, s: OutputSettings, seq: u8) -> Seq<u8> {
    let k: int = if is_bt { 1 } else { 0 };
    output_header(is_bt, seq)
        .update(OFFSET_TRIGGER_R2 + k, s.trigger_r2.mode)
        .update(OFFSET_TRIGGER_R2 + k + 1, s.trigger_r2.start)
        .update(OFFSET_TRIGGER_R2 + k + 2, s.trigger_r2.force)
        .update(OFFSET_TRIGGER_L2 + k, s.trigger_l2.mode)
        .update(OFFSET_TRIGGER_L2 + k + 1, s.trigger_l2.start)
        .update(OFFSET_TRIGGER_L2 + k + 2, s.trigger_l2.force)
        .update(OFFSET_LED_FLAGS + k, LED_BRIGHTNESS_ENABLE)
        .update(OFFSET_LIGHTBAR_SETUP + k, LIGHTBAR_ENABLE)
        .update(OFFSET_LED_BRIGHTNESS + k, s.player_led_brightness)
        .update(OFFSET_LED_MASK + k, s.player_led_mask | LED_APPLY_NOW)
        .update(OFFSET_RGB + k, scaled(s.rgb_r, s.rgb_brightness))
        .update(OFFSET_RGB + k + 1, scaled(s.rgb_g, s.rgb_brightness))
        .update(OFFSET_RGB + k + 2, scaled(s.rgb_b, s.rgb_brightness))
}

/// The output frame for `s`: 64 bytes over USB, 78 over Bluetooth, where
/// the last four are the checksum of the first 74.
pub open spec fn output_frame(is_bt: bool, s: OutputSettings, seq: u8) -> Seq<u8> {
    if is_bt {
        sealed(output_payload(is_bt, s, seq))
    } else {
        output_payload(is_bt, s, seq)
    }
}

pub(crate) fn zeroed(n: usize) -> (v: Vec<u8>)
    ensures
        v@ == zeros(n as nat),
{
    let mut v: Vec<u8> = Vec::new();
    let mut i: usize = 0;
    while i < n
        invariant
            i <= n,
            v@ == zeros(i as nat),
        decreases n - i,
    {
        v.push(0u8);
        i = i + 1;
        assert(v@ =~= zeros(i as nat));
    }
    v
}

pub(crate) fn tag(seq: u8) -> (r: u8)
    ensures
        r == sequence_tag(seq),
{
    (seq << 4) | TAG_OUTPUT
}

/// Scales a colour channel by the brightness: `channel * brightness / 255`,
/// rounded down.
pub fn scale_channel(channel: u8, brightness: u8) -> (r: u8)
    ensures
        r == scaled(channel, brightness),
        r <= channel,
        brightness == 255 ==> r == channel,
        brightness == 0 ==> r == 0,
{
    assert(0 <= channel * brightness <= channel * 255) by (nonlinear_arith)
        requires
            0 <= brightness <= 255,
            0 <= channel,
    ;
    let product: u32 = (channel as u32) * (brightness as u32);
    (product / 255) as u8
}

/// Appends the Bluetooth checksum of the payload to it.
pub(crate) fn seal(payload: Vec<u8>) -> (frame: Vec<u8>)
    ensures
        frame@ == sealed(payload@),
        frame.len() == payload.len() + 4,
{
    let checksum: u32 = crc32_bt(payload.as_slice());
    let b0: u32 = checksum & 0xFF;
    let b1: u32 = (checksum >> 8) & 0xFF;
    let b2: u32 = (checksum >> 16) & 0xFF;
    let b3: u32 = (checksum >> 24) & 0xFF;
    assert(b0 == checksum % 256 && b1 == (checksum / 256) % 256 && b2 == (checksum / 65536) % 256
        && b3 == checksum / 16777216) by (bit_vector)
        requires
            b0 == checksum & 0xFF,
            b1 == (checksum >> 8) & 0xFF,
            b2 == (checksum >> 16) & 0xFF,
            b3 == (checksum >> 24) & 0xFF,
    ;
    let mut frame = payload;
    let ghost before = frame@;
    frame.push(b0 as u8);
    frame.push(b1 as u8);
    frame.push(b2 as u8);
    frame.push(b3 as u8);
    assert(frame@ =~= before + le_bytes(checksum));
    frame
}

/// Builds the output frame that sets lightbar, player LEDs and adaptive
/// triggers. The colour goes out scaled by the brightness, the player LED
/// mask as it is. Over Bluetooth the frame ends in the checksum of its
/// first 74 bytes, lowest byte first.
pub fn encode_output(is_bt: bool, settings: &OutputSettings, seq: u8) -> (frame: Vec<u8>)
    ensures
        frame@ == output_frame(is_bt, *settings, seq),
        frame.len() == if is_bt { BT_FRAME_LEN } else { USB_FRAME_LEN },
        is_bt ==> frame@.subrange(BT_PAYLOAD_LEN as int, BT_FRAME_LEN as int) == le_bytes(
            spec_crc32_bt(frame@.subrange(0, BT_PAYLOAD_LEN as int)),
        ),
        frame[0] == if is_bt { REPORT_OUT_BT } else { REPORT_OUT_USB },
        ({
            let k: int = if is_bt { 1 } else { 0 };
            &&& frame[OFFSET_LED_MASK + k] == settings.player_led_mask | LED_APPLY_NOW
            &&& frame[OFFSET_LED_MASK + k] & LED_APPLY_NOW == LED_APPLY_NOW
            &&& frame[OFFSET_RGB + k] == scaled(settings.rgb_r, settings.rgb_brightness)
            &&& frame[OFFSET_RGB + k + 1] == scaled(settings.rgb_g, settings.rgb_brightness)
            &&& frame[OFFSET_RGB + k + 2] == scaled(settings.rgb_b, settings.rgb_brightness)
        }),
{
    let k: usize = if is_bt { 1 } else { 0 };
    let mut report = if is_bt { zeroed(BT_PAYLOAD_LEN) } else { zeroed(USB_FRAME_LEN) };
    if is_bt {
        report.set(0, REPORT_OUT_BT);
        report.set(1, tag(seq));
        report.set(2, FLAGS_ALL);
        report.set(3, FLAGS_LED);
    } else {
        report.set(0, REPORT_OUT_USB);
        report.set(1, FLAGS_TRIGGERS_AND_LED);
        report.set(2, FLAGS_LED);
    }
    assert(report@ == output_header(is_bt, seq));
    report.set(OFFSET_TRIGGER_R2 + k, settings.trigger_r2.mode);
    report.set(OFFSET_TRIGGER_R2 + k + 1, settings.trigger_r2.start);
    report.set(OFFSET_TRIGGER_R2 + k + 2, settings.trigger_r2.force);
    report.set(OFFSET_TRIGGER_L2 + k, settings.trigger_l2.mode);
    report.set(OFFSET_TRIGGER_L2 + k + 1, settings.trigger_l2.start);
    report.set(OFFSET_TRIGGER_L2 + k + 2, settings.trigger_l2.force);
    report.set(OFFSET_LED_FLAGS + k, LED_BRIGHTNESS_ENABLE);
    report.set(OFFSET_LIGHTBAR_SETUP + k, LIGHTBAR_ENABLE);
    report.set(OFFSET_LED_BRIGHTNESS + k, settings.player_led_brightness);
    let plain: u8 = settings.player_led_mask;
    let mask: u8 = plain | LED_APPLY_NOW;
    assert(mask & 0x20 == 0x20) by (bit_vector)
        requires
            mask == plain | 0x20,
    ;
    report.set(OFFSET_LED_MASK + k, mask);
    report.set(OFFSET_RGB + k, scale_channel(settings.rgb_r, settings.rgb_brightness));
    report.set(OFFSET_RGB + k + 1, scale_channel(settings.rgb_g, settings.rgb_brightness));
    report.set(OFFSET_RGB + k + 2, scale_channel(settings.rgb_b, settings.rgb_brightness));
    assert(report@ == output_payload(is_bt, *settings, seq));
    if is_bt {
        let ghost payload = report@;
        let frame = seal(report);
        assert(frame@.subrange(0, BT_PAYLOAD_LEN as int) =~= payload);
        assert(frame@.subrange(BT_PAYLOAD_LEN as int, BT_FRAME_LEN as int) =~= le_bytes(
            spec_crc32_bt(payload),
        ));
        frame
    } else {
        report
    }
}

impl Default for TriggerEffect {
    /// No resistance.
    fn default() -> (r: Self)
        ensures
            r == (TriggerEffect { mode: 0, start: 0, force: 0 }),
    {
        TriggerEffect { mode: 0, start: 0, force: 0 }
    }
}

/// The settings of a controller that nothing has been configured for: a
/// blue lightbar at full brightness, the centre player LED, free triggers.
pub open spec fn neutral_settings() -> OutputSettings {
    OutputSettings {
        rgb_r: 0,
        rgb_g: 0,
        rgb_b: 255,
        rgb_brightness: 255,
        player_led_mask: LED_CENTER_MASK,
        player_led_brightness: 0,
        trigger_l2: TriggerEffect { mode: 0, start: 0, force: 0 },
        trigger_r2: TriggerEffect { mode: 0, start: 0, force: 0 },
        show_battery_led: false,
    }
}

impl Default for OutputSettings {
    fn default() -> (r: Self)
        ensures
            r == neutral_settings(),
    {
        OutputSettings {
            rgb_r: 0,
            rgb_g: 0,
            rgb_b: 255,
            rgb_brightness: 255,
            player_led_mask: LED_CENTER_MASK,
            player_led_brightness: 0,
            trigger_l2: TriggerEffect { mode: 0, start: 0, force: 0 },
            trigger_r2: TriggerEffect { mode: 0, start: 0, force: 0 },
            show_battery_led: false,
        }
    }
}

/// The frame that tells a controller on Bluetooth to disconnect.
pub open spec fn power_off_payload(seq: u8) -> Seq<u8> {
    zeros(BT_PAYLOAD_LEN as nat).update(0, REPORT_OUT_BT).update(
        1,
        sequence_tag(seq) | TAG_DISCONNECT,
    ).update(2, FLAGS_TRIGGERS_AND_LED).update(3, FLAGS_LED)
}

/// The frame that jolts the LED controller awake over Bluetooth: all three
/// flag bytes at `0xFF`.
pub open spec fn wakeup_payload_bt(seq: u8) -> Seq<u8> {
    zeros(BT_PAYLOAD_LEN as nat).update(0, REPORT_OUT_BT).update(1, sequence_tag(seq)).update(
        2,
        FLAGS_ALL,
    ).update(3, FLAGS_ALL).update(4, FLAGS_ALL)
}

/// The plain LED frame over Bluetooth: player LEDs and colour as given.
pub open spec fn led_payload_bt(seq: u8, pled: u8, r: u8, g: u8, b: u8) -> Seq<u8> {
    zeros(BT_PAYLOAD_LEN as nat).update(0, REPORT_OUT_BT).update(1, sequence_tag(seq)).update(
        2,
        FLAGS_ALL,
    ).update(3, FLAGS_LED).update(OFFSET_LED_MASK + 1, pled).update(OFFSET_RGB + 1, r).update(
        OFFSET_RGB + 2,
        g,
    ).update(OFFSET_RGB + 3, b)
}

/// The wake-up frame over USB: both flag bytes at `0xFF`, a short rumble
/// pulse on both motors, player LEDs and colour as given.
pub open spec fn led_init_payload_usb(pled: u8, r: u8, g: u8, b: u8) -> Seq<u8> {
    zeros(USB_FRAME_LEN as nat).update(0, REPORT_OUT_USB).update(1, FLAGS_ALL).update(
        2,
        FLAGS_ALL,
    ).update(3, WAKE_RUMBLE).update(4, WAKE_RUMBLE).update(OFFSET_LED_MASK as int, pled).update(
        OFFSET_RGB as int,
        r,
    ).update(OFFSET_RGB + 1, g).update(OFFSET_RGB + 2, b)
}

/// Builds the frame that tells a controller on Bluetooth to disconnect.
pub fn power_off_frame(seq: u8) -> (frame: Vec<u8>)
    ensures
        frame@ == sealed(power_off_payload(seq)),
        frame.len() == BT_FRAME_LEN,
{
    let mut report = zeroed(BT_PAYLOAD_LEN);
    report.set(0, REPORT_OUT_BT);
    report.set(1, tag(seq) | TAG_DISCONNECT);
    report.set(2, FLAGS_TRIGGERS_AND_LED);
    report.set(3, FLAGS_LED);
    seal(report)
}

/// Builds the Bluetooth wake-up frame.
pub fn wakeup_frame_bt(seq: u8) -> (frame: Vec<u8>)
    ensures
        frame@ == sealed(wakeup_payload_bt(seq)),
        frame.len() == BT_FRAME_LEN,
{
    let mut report = zeroed(BT_PAYLOAD_LEN);
    report.set(0, REPORT_OUT_BT);
    report.set(1, tag(seq));
    report.set(2, FLAGS_ALL);
    report.set(3, FLAGS_ALL);
    report.set(4, FLAGS_ALL);
    seal(report)
}

/// Builds the plain Bluetooth LED frame.
pub fn led_frame_bt(seq: u8, pled: u8, r: u8, g: u8, b: u8) -> (frame: Vec<u8>)
    ensures
        frame@ == sealed(led_payload_bt(seq, pled, r, g, b)),
        frame.len() == BT_FRAME_LEN,
{
    let mut report = zeroed(BT_PAYLOAD_LEN);
    report.set(0, REPORT_OUT_BT);
    report.set(1, tag(seq));
    report.set(2, FLAGS_ALL);
    report.set(3, FLAGS_LED);
    report.set(OFFSET_LED_MASK + 1, pled);
    report.set(OFFSET_RGB + 1, r);
    report.set(OFFSET_RGB + 2, g);
    report.set(OFFSET_RGB + 3, b);
    seal(report)
}

/// Builds the two frames that initialise the LEDs over Bluetooth: the
/// wake-up frame with sequence number `seq`, and the LED frame with the
/// next one. The caller pauses 50 ms between them.
pub fn led_init_frames(seq: u8, pled: u8, r: u8, g: u8, b: u8) -> (frames: (Vec<u8>, Vec<u8>))
    ensures
        frames.0@ == sealed(wakeup_payload_bt(seq)),
        frames.1@ == sealed(
            led_payload_bt(if seq == 255 { 0u8 } else { (seq + 1) as u8 }, pled, r, g, b),
        ),
{
    let next: u8 = if seq == 255 { 0 } else { seq + 1 };
    (wakeup_frame_bt(seq), led_frame_bt(next, pled, r, g, b))
}

/// Builds the USB wake-up frame.
pub fn led_init_frame_usb(pled: u8, r: u8, g: u8, b: u8) -> (frame: Vec<u8>)
    ensures
        frame@ == led_init_payload_usb(pled, r, g, b),
        frame.len() == USB_FRAME_LEN,
{
    let mut report = zeroed(USB_FRAME_LEN);
    report.set(0, REPORT_OUT_USB);
    report.set(1, FLAGS_ALL);
    report.set(2, FLAGS_ALL);
    report.set(3, WAKE_RUMBLE);
    report.set(4, WAKE_RUMBLE);
    report.set(OFFSET_LED_MASK, pled);
    report.set(OFFSET_RGB, r);
    report.set(OFFSET_RGB + 1, g);
    report.set(OFFSET_RGB + 2, b);
    report
}

/// Length of the scratch buffer that a hand-made frame is laid out in.
pub const RAW_BUFFER_LEN: usize = 600;

/// Report id of the DualShock 4 output report over Bluetooth.
pub const REPORT_OUT_DS4_BT: u8 = 0x11;

/// The fields of a hand-made output frame, for probing the protocol: a
/// report id, and values with the offsets they are to be written at.
#[derive(Debug, Clone, Copy, PartialEq, Eq, Structural)]
pub struct ManualParams {
    pub report_id: u8,
    pub flag_off: usize,
    pub rgb_off: usize,
    pub player_led: u8,
    pub pled_bright: u8,
    pub pled_bright_off: usize,
    pub bt_flags: u8,
    pub bt_flags2: u8,
    pub bt_len: usize,
    pub as_feature: bool,
    pub r: u8,
    pub g: u8,
    pub b: u8,
}

/// The scratch buffer with the report id and, for the Bluetooth reports,
/// the sequence tag.
pub open spec fn raw_header(p: ManualParams, seq: u8) -> Seq<u8> {
    let buf = zeros(RAW_BUFFER_LEN as nat).update(0, p.report_id);
    if p.report_id == REPORT_OUT_BT || p.report_id == REPORT_OUT_DS4_BT {
        buf.update(1, sequence_tag(seq))
    } else {
        buf
    }
}

/// `buf` with the flag byte at its offset. At offset 2 of a Bluetooth
/// DualSense report the second flag byte follows, and the rumble byte
/// behind it is cleared.
pub open spec fn raw_with_flags(buf: Seq<u8>, p: ManualParams) -> Seq<u8> {
    if p.flag_off < 590 {
        let flagged = buf.update(p.flag_off as int, p.bt_flags);
        if p.report_id == REPORT_OUT_BT && p.flag_off == 2 {
            flagged.update(3, p.bt_flags2).update(4, 0)
        } else {
            flagged
        }
    } else {
        buf
    }
}

/// `buf` with the colour at its offset and the player LEDs in the byte
/// before it.
pub open spec fn raw_with_colour(buf: Seq<u8>, p: ManualParams) -> Seq<u8> {
    if p.rgb_off < 595 {
        let coloured = buf.update(p.rgb_off as int, p.r).update(p.rgb_off + 1, p.g).update(
            p.rgb_off + 2,
            p.b,
        );
        if p.rgb_off > 0 {
            coloured.update(p.rgb_off - 1, p.player_led | LED_APPLY_NOW)
        } else {
            coloured
        }
    } else {
        buf
    }
}

/// `buf` with the LED brightness at its offset, and the flag that enables
/// it set in the flags byte of the transport.
pub open spec fn raw_with_brightness(buf: Seq<u8>, p: ManualParams) -> Seq<u8> {
    if 0 < p.pled_bright_off < 599 {
        let k: int = if p.report_id == REPORT_OUT_BT { 1 } else { 0 };
        let lit = buf.update(p.pled_bright_off as int, p.pled_bright);
        lit.update(OFFSET_LED_FLAGS + k, lit[OFFSET_LED_FLAGS + k] | LED_BRIGHTNESS_ENABLE)
    } else {
        buf
    }
}

/// The hand-made frame: the scratch buffer after the writes, in their
/// order, cut to 64 bytes, or for a Bluetooth DualSense report to 74 bytes
/// with the checksum behind them.
pub open spec fn raw_frame(p: ManualParams, seq: u8) -> Seq<u8> {
    let buf = raw_with_brightness(raw_with_colour(raw_with_flags(raw_header(p, seq), p), p), p);
    if p.report_id == REPORT_OUT_BT {
        sealed(buf.subrange(0, BT_PAYLOAD_LEN as int))
    } else {
        buf.subrange(0, USB_FRAME_LEN as int)
    }
}

/// Builds a hand-made output frame. Offsets that would reach past the
/// scratch buffer are left out.
pub fn raw_output_frame(p: &ManualParams, seq: u8) -> (frame: Vec<u8>)
    ensures
        frame@ == raw_frame(*p, seq),
        frame.len() == if p.report_id == REPORT_OUT_BT { BT_FRAME_LEN } else { USB_FRAME_LEN },
{
    let mut report = zeroed(RAW_BUFFER_LEN);
    report.set(0, p.report_id);
    if p.report_id == REPORT_OUT_BT || p.report_id == REPORT_OUT_DS4_BT {
        report.set(1, tag(seq));
    }
    assert(report@ == raw_header(*p, seq));
    let ghost header = report@;
    if p.flag_off < 590 {
        report.set(p.flag_off, p.bt_flags);
        if p.report_id == REPORT_OUT_BT && p.flag_off == 2 {
            report.set(3, p.bt_flags2);
            report.set(4, 0);
        }
    }
    assert(report@ == raw_with_flags(header, *p));
    let ghost flagged = report@;
    if p.rgb_off < 595 {
        report.set(p.rgb_off, p.r);
        report.set(p.rgb_off + 1, p.g);
        report.set(p.rgb_off + 2, p.b);
        if p.rgb_off > 0 {
            report.set(p.rgb_off - 1, p.player_led | LED_APPLY_NOW);
        }
    }
    assert(report@ == raw_with_colour(flagged, *p));
    let ghost coloured = report@;
    if p.pled_bright_off > 0 && p.pled_bright_off < 599 {
        report.set(p.pled_bright_off, p.pled_bright);
        let flags_at: usize = if p.report_id == REPORT_OUT_BT {
            OFFSET_LED_FLAGS + 1
        } else {
            OFFSET_LED_FLAGS
        };
        let enabled: u8 = report[flags_at] | LED_BRIGHTNESS_ENABLE;
        report.set(flags_at, enabled);
    }
    assert(report@ == raw_with_brightness(coloured, *p));
    let ghost buf = report@;
    if p.report_id == REPORT_OUT_BT {
        report.truncate(BT_PAYLOAD_LEN);
        assert(report@ =~= buf.subrange(0, BT_PAYLOAD_LEN as int));
        seal(report)
    } else {
        report.truncate(USB_FRAME_LEN);
        assert(report@ =~= buf.subrange(0, USB_FRAME_LEN as int));
        report
    }
}

/// The upper-case hexadecimal digit of a value below 16.
pub open spec fn hex_digit(n: u8) -> char {
    if n < 10 {
        (48 + n) as char
    } else {
        (55 + n) as char
    }
}

/// The bytes in hexadecimal, two upper-case digits each, with a space
/// between one byte and the next.
pub open spec fn hex_dump_of(bytes: Seq<u8>) -> Seq<char>
    decreases bytes.len(),
{
    if bytes.len() == 0 {
        Seq::empty()
    } else {
        let head = hex_dump_of(bytes.drop_last());
        let spaced = if bytes.len() > 1 {
            head.push(' ')
        } else {
            head
        };
        spaced.push(hex_digit(bytes.last() / 16)).push(hex_digit(bytes.last() % 16))
    }
}

fn digit_str(n: u8) -> (r: &'static str)
    requires
        n < 16,
    ensures
        r@ == seq![hex_digit(n)],
{
    proof {
        reveal_strlit("0");
        reveal_strlit("1");
        reveal_strlit("2");
        reveal_strlit("3");
        reveal_strlit("4");
        reveal_strlit("5");
        reveal_strlit("6");
        reveal_strlit("7");
        reveal_strlit("8");
        reveal_strlit("9");
        reveal_strlit("A");
        reveal_strlit("B");
        reveal_strlit("C");
        reveal_strlit("D");
        reveal_strlit("E");
        reveal_strlit("F");
    }
    let r = match n {
        0 => "0",
        1 => "1",
        2 => "2",
        3 => "3",
        4 => "4",
        5 => "5",
        6 => "6",
        7 => "7",
        8 => "8",
        9 => "9",
        10 => "A",
        11 => "B",
        12 => "C",
        13 => "D",
        14 => "E",
        _ => "F",
    };
    assert(r@ =~= seq![hex_digit(n)]);
    r
}

/// Writes a frame out in hexadecimal for the diagnostics display.
pub fn hex_dump(bytes: &[u8]) -> (text: String)
    ensures
        text@ == hex_dump_of(bytes@),
{
    let mut text = String::new();
    let mut i: usize = 0;
    assert(bytes@.take(0) =~= Seq::<u8>::empty());
    while i < bytes.len()
        invariant
            i <= bytes.len(),
            text@ == hex_dump_of(bytes@.take(i as int)),
        decreases bytes.len() - i,
    {
        let ghost head = text@;
        proof {
            let next = bytes@.take(i + 1);
            assert(next.drop_last() =~= bytes@.take(i as int));
            assert(next.last() == bytes@[i as int]);
            reveal_strlit(" ");
        }
        let b: u8 = bytes[i];
        if i > 0 {
            text.append(" ");
            assert(text@ =~= head.push(' '));
        }
        let ghost spaced = text@;
        text.append(digit_str(b / 16));
        text.append(digit_str(b % 16));
        assert(text@ =~= spaced.push(hex_digit(b / 16)).push(hex_digit(b % 16)));
        i = i + 1;
    }
    assert(bytes@.take(bytes.len() as int) =~= bytes@);
    text
}

} // verus!
