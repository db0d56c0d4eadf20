//! Frames and schedules of the diagnostic probes that help to find out
//! where a firmware keeps its flags and colours: a single byte set by
//! hand, a sweep over offsets and flag values, and a walk through likely
//! layouts.

use vstd::prelude::*;
use crate::output::{
    seal, sealed, sequence_tag, tag, zeroed, zeros, ManualParams, BT_FRAME_LEN, BT_PAYLOAD_LEN,
    FLAGS_LED, FLAGS_TRIGGERS_AND_LED, LED_CENTER_MASK, REPORT_OUT_BT, REPORT_OUT_DS4_BT,
    REPORT_OUT_USB, USB_FRAME_LEN,
};

verus! {

/// The pinpoint buffer before the byte under test is set.
pub open spec fn pinpoint_header(is_bt: bool, seq: u8) -> Seq<u8> {
    if is_bt {
        zeros(BT_FRAME_LEN as nat).update(0, REPORT_OUT_BT).update(1, sequence_tag(seq)).update(
            2,
            FLAGS_TRIGGERS_AND_LED,
        ).update(3, FLAGS_LED)
    } else {
        zeros(BT_FRAME_LEN as nat).update(0, REPORT_OUT_USB).update(2, FLAGS_TRIGGERS_AND_LED)
    }
}

/// The pinpoint frame: the header with `value` at `offset`, where that
/// lies in the buffer; cut to 64 bytes over USB, and with the checksum in
/// the last four bytes over Bluetooth.
pub open spec fn pinpoint_frame_of(is_bt: bool, seq: u8, offset: usize, value: u8) -> Seq<u8> {
    let header = pinpoint_header(is_bt, seq);
    let buf = if offset < BT_FRAME_LEN {
        header.update(offset as int, value)
    } else {
        header
    };
    if is_bt {
        sealed(buf.subrange(0, BT_PAYLOAD_LEN as int))
    } else {
        buf.subrange(0, USB_FRAME_LEN as int)
    }
}

/// Builds a frame with one byte set by hand.
pub fn pinpoint_frame(is_bt: bool, seq: u8, offset: usize, value: u8) -> (frame: Vec<u8>)
    ensures
        frame@ == pinpoint_frame_of(is_bt, seq, offset, value),
        frame.len() == if is_bt { BT_FRAME_LEN } else { USB_FRAME_LEN },
{
    let mut report = zeroed(BT_FRAME_LEN);
    if is_bt {
        report.set(0, REPORT_OUT_BT);
        report.set(1, tag(seq));
        report.set(2, FLAGS_TRIGGERS_AND_LED);
        report.set(3, FLAGS_LED);
    } else {
        report.set(0, REPORT_OUT_USB);
        report.set(2, FLAGS_TRIGGERS_AND_LED);
    }
    if offset < BT_FRAME_LEN {
        report.set(offset, value);
    }
    let ghost buf = report@;
    if is_bt {
        report.truncate(BT_PAYLOAD_LEN);
        assert(report@ =~= buf.subrange(0, BT_PAYLOAD_LEN as int));
        seal(report)
    } else {
        report.truncate(USB_FRAME_LEN);
        assert(report@ =~= buf.subrange(0, USB_FRAME_LEN as int));
        report
    }
}

/// Steps of the sweep that walk a white pixel over the offsets.
pub const SWEEP_OFFSET_STEPS: usize = 80;

/// Last flag byte that the sweep tries values for.
pub const SWEEP_LAST_FLAG: usize = 5;

/// Step after which the sweep starts over in any case.
pub const SWEEP_MAX_STEP: usize = 2000;

/// What a step of the sweep does.
#[derive(Debug, Clone, Copy, PartialEq, Eq, Structural)]
pub enum SweepNote {
    /// Three bytes of 255 at this offset.
    Offset(usize),
    /// This value in this flag byte, with the colour bytes fixed at 255.
    Flag { index: usize, value: u8 },
    /// The sweep is through and starts over.
    Reset,
}

/// What step `step` of the sweep does: the first 80 steps move over the
/// offsets; then each of the flag bytes 1 to 5 runs through its 256 values.
pub open spec fn sweep_note_of(step: usize) -> SweepNote {
    if step < SWEEP_OFFSET_STEPS {
        SweepNote::Offset(step)
    } else if (step - SWEEP_OFFSET_STEPS) / 256 + 1 > SWEEP_LAST_FLAG {
        SweepNote::Reset
    } else {
        SweepNote::Flag {
            index: ((step - SWEEP_OFFSET_STEPS) / 256 + 1) as usize,
            value: ((step - SWEEP_OFFSET_STEPS) % 256) as u8,
        }
    }
}

/// The step that follows `step`.
pub open spec fn sweep_next_of(step: usize) -> usize {
    let base: int = if sweep_note_of(step) == SweepNote::Reset {
        0
    } else {
        step as int
    };
    if base + 1 > SWEEP_MAX_STEP {
        0
    } else {
        (base + 1) as usize
    }
}

/// The sweep buffer of a step, before the checksum.
pub open spec fn sweep_buffer(step: usize, seq: u8) -> Seq<u8> {
    let start = zeros(BT_FRAME_LEN as nat).update(0, REPORT_OUT_BT).update(1, sequence_tag(seq));
    match sweep_note_of(step) {
        SweepNote::Offset(at) => {
            let flagged = start.update(2, FLAGS_TRIGGERS_AND_LED).update(3, FLAGS_LED).update(4, 0);
            if at < 75 {
                flagged.update(at as int, 255).update(at + 1, 255).update(at + 2, 255)
            } else {
                flagged
            }
        },
        SweepNote::Flag { index, value } => start.update(2, FLAGS_LED).update(44, 255).update(
            45,
            255,
        ).update(46, 255).update(47, 255).update(48, 255).update(49, 255).update(
            index as int,
            value,
        ),
        SweepNote::Reset => start.update(2, FLAGS_LED),
    }
}

/// One step of the sweep.
#[derive(Debug)]
pub struct SweepStep {
    /// The frame to send.
    pub frame: Vec<u8>,
    /// What the frame tries, for the log.
    pub note: SweepNote,
    /// The step to take next.
    pub next_step: usize,
}

/// Builds the frame of one step of the sweep, and tells the next step.
pub fn sweep_step(step: usize, seq: u8) -> (r: SweepStep)
    ensures
        r.frame@ == sealed(sweep_buffer(step, seq).subrange(0, BT_PAYLOAD_LEN as int)),
        r.note == sweep_note_of(step),
        r.next_step == sweep_next_of(step),
{
    let mut report = zeroed(BT_FRAME_LEN);
    report.set(0, REPORT_OUT_BT);
    report.set(1, tag(seq));
    let note;
    let mut base: usize = step;
    if step < SWEEP_OFFSET_STEPS {
        report.set(2, FLAGS_TRIGGERS_AND_LED);
        report.set(3, FLAGS_LED);
        report.set(4, 0);
        if step < 75 {
            report.set(step, 255);
            report.set(step + 1, 255);
            report.set(step + 2, 255);
        }
        note = SweepNote::Offset(step);
    } else {
        let phase: usize = step - SWEEP_OFFSET_STEPS;
        let index: usize = phase / 256 + 1;
        let value: u8 = (phase % 256) as u8;
        report.set(2, FLAGS_LED);
        if index > SWEEP_LAST_FLAG {
            base = 0;
            note = SweepNote::Reset;
        } else {
            report.set(44, 255);
            report.set(45, 255);
            report.set(46, 255);
            report.set(47, 255);
            report.set(48, 255);
            report.set(49, 255);
            report.set(index, value);
            note = SweepNote::Flag { index, value };
        }
    }
    let next_step: usize = if base + 1 > SWEEP_MAX_STEP { 0 } else { base + 1 };
    assert(report@ == sweep_buffer(step, seq));
    let ghost buf = report@;
    report.truncate(BT_PAYLOAD_LEN);
    assert(report@ =~= buf.subrange(0, BT_PAYLOAD_LEN as int));
    SweepStep { frame: seal(report), note, next_step }
}

/// Frames that the fuzzing probe sends for each layout it tries.
pub const FUZZER_BURST: u8 = 3;

/// The layout that step `step` of the fuzzing probe tries, or `None` when
/// the walk is through: ten USB layouts with the flags at the step's
/// offset and the colour 44 bytes on; twenty Bluetooth layouts with the
/// flags at offsets 0 to 19 and the colour at 45; thirty with the flags at
/// 3 and the colour at offsets 35 to 64. The colour is red, the player
/// light the centre one.
pub open spec fn fuzzer_params_of(step: usize, bt_flags: u8, bt_len: usize, as_feature: bool)
    -> Option<ManualParams> {
    if step >= 60 {
        None
    } else {
        Some(
            ManualParams {
                report_id: if step < 10 {
                    REPORT_OUT_USB
                } else {
                    REPORT_OUT_BT
                },
                flag_off: if step < 10 {
                    step
                } else if step < 30 {
                    (step - 10) as usize
                } else {
                    3
                },
                rgb_off: if step < 10 {
                    (44 + step) as usize
                } else if step < 30 {
                    45
                } else {
                    (35 + (step - 30)) as usize
                },
                player_led: LED_CENTER_MASK,
                pled_bright: 0,
                pled_bright_off: 0,
                bt_flags: bt_flags,
                bt_flags2: FLAGS_LED,
                bt_len: bt_len,
                as_feature: as_feature,
                r: 255,
                g: 0,
                b: 0,
            },
        )
    }
}

/// Tells the layout that a step of the fuzzing probe tries. After a step
/// with a layout the next step follows; after the last the walk starts
/// over at step 0.
pub fn fuzzer_params(step: usize, bt_flags: u8, bt_len: usize, as_feature: bool) -> (r: Option<
    ManualParams,
>)
    ensures
        r == fuzzer_params_of(step, bt_flags, bt_len, as_feature),
{
    if step >= 60 {
        return None;
    }
    let report_id: u8 = if step < 10 { REPORT_OUT_USB } else { REPORT_OUT_BT };
    let flag_off: usize = if step < 10 {
        step
    } else if step < 30 {
        step - 10
    } else {
        3
    };
    let rgb_off: usize = if step < 10 {
        44 + step
    } else if step < 30 {
        45
    } else {
        35 + (step - 30)
    };
    Some(
        ManualParams {
            report_id,
            flag_off,
            rgb_off,
            player_led: LED_CENTER_MASK,
            pled_bright: 0,
            pled_bright_off: 0,
            bt_flags,
            bt_flags2: FLAGS_LED,
            bt_len,
            as_feature,
            r: 255,
            g: 0,
            b: 0,
        },
    )
}

/// First and last length that the protocol scan announces.
pub const SCAN_FIRST_LEN: usize = 60;
pub const SCAN_LAST_LEN: usize = 80;

/// Number of sends in a protocol scan: every length once as an output
/// report and once as a feature report, and one DualShock 4 report.
pub const SCAN_SENDS: usize = 43;

/// Send `i` of the protocol scan: a red Bluetooth DualSense frame for each
/// length from 60 to 80 as an output report, the same as feature reports,
/// and last a DualShock 4 frame.
pub open spec fn scan_params_of(i: int) -> ManualParams {
    ManualParams {
        report_id: if i < 42 {
            REPORT_OUT_BT
        } else {
            REPORT_OUT_DS4_BT
        },
        flag_off: 2,
        rgb_off: 45,
        player_led: 0,
        pled_bright: 0,
        pled_bright_off: 0,
        bt_flags: FLAGS_TRIGGERS_AND_LED,
        bt_flags2: FLAGS_LED,
        bt_len: if i < 21 {
            (SCAN_FIRST_LEN + i) as usize
        } else if i < 42 {
            (SCAN_FIRST_LEN + (i - 21)) as usize
        } else {
            BT_FRAME_LEN
        },
        as_feature: 21 <= i < 42,
        r: 255,
        g: 0,
        b: 0,
    }
}

/// Lists the sends of a protocol scan, in order.
pub fn protocol_scan_params() -> (list: Vec<ManualParams>)
    ensures
        list.len() == SCAN_SENDS,
        forall|i: int| 0 <= i < SCAN_SENDS ==> #[trigger] list[i] == scan_params_of(i),
{
    let mut list: Vec<ManualParams> = Vec::new();
    let mut i: usize = 0;
    while i < SCAN_SENDS
        invariant
            i <= SCAN_SENDS,
            list.len() == i,
            forall|k: int| 0 <= k < i ==> #[trigger] list[k] == scan_params_of(k),
        decreases SCAN_SENDS - i,
    {
        let report_id: u8 = if i < 42 { REPORT_OUT_BT } else { REPORT_OUT_DS4_BT };
        let bt_len: usize = if i < 21 {
            SCAN_FIRST_LEN + i
        } else if i < 42 {
            SCAN_FIRST_LEN + (i - 21)
        } else {
            BT_FRAME_LEN
        };
        list.push(
            ManualParams {
                report_id,
                flag_off: 2,
                rgb_off: 45,
                player_led: 0,
                pled_bright: 0,
                pled_bright_off: 0,
                bt_flags: FLAGS_TRIGGERS_AND_LED,
                bt_flags2: FLAGS_LED,
                bt_len,
                as_feature: i >= 21 && i < 42,
                r: 255,
                g: 0,
                b: 0,
            },
        );
        i = i + 1;
    }
    list
}

} // verus!
