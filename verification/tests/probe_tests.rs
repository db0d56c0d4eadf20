use dx3::crc::crc32_bt;
use dx3::output::ManualParams;
use dx3::probe::{
    fuzzer_params, pinpoint_frame, protocol_scan_params, sweep_step, SweepNote,
};

fn le(x: u32) -> [u8; 4] {
    [x as u8, (x >> 8) as u8, (x >> 16) as u8, (x >> 24) as u8]
}

fn sealed(mut payload: Vec<u8>) -> Vec<u8> {
    let crc = crc32_bt(&payload);
    payload.extend_from_slice(&le(crc));
    payload
}

#[test]
fn pinpoint_frame_over_bluetooth() {
    let mut want = vec![0u8; 74];
    want[0] = 0x31;
    want[1] = 0x32;
    want[2] = 0xF7;
    want[3] = 0x15;
    want[50] = 0xAB;
    assert_eq!(pinpoint_frame(true, 3, 50, 0xAB), sealed(want));
}

#[test]
fn pinpoint_frame_over_usb() {
    let mut want = vec![0u8; 64];
    want[0] = 0x02;
    want[2] = 0xF7;
    want[10] = 7;
    assert_eq!(pinpoint_frame(false, 3, 10, 7), want);
}

#[test]
fn pinpoint_byte_may_overwrite_the_header() {
    let frame = pinpoint_frame(false, 0, 2, 0x11);
    assert_eq!(frame[2], 0x11);
    let frame = pinpoint_frame(true, 0, 0, 0x99);
    assert_eq!(frame[0], 0x99);
}

#[test]
fn pinpoint_byte_outside_the_frame_is_dropped() {
    let mut usb = vec![0u8; 64];
    usb[0] = 0x02;
    usb[2] = 0xF7;
    assert_eq!(pinpoint_frame(false, 0, 64, 1), usb);
    assert_eq!(pinpoint_frame(false, 0, 77, 1), usb);
    assert_eq!(pinpoint_frame(false, 0, 78, 1), usb);
    assert_eq!(pinpoint_frame(false, 0, 100_000, 1), usb);
    let mut bt = vec![0u8; 74];
    bt[0] = 0x31;
    bt[1] = 0x02;
    bt[2] = 0xF7;
    bt[3] = 0x15;
    // Behind the payload the checksum takes the byte's place.
    assert_eq!(pinpoint_frame(true, 0, 75, 1), sealed(bt.clone()));
    assert_eq!(pinpoint_frame(true, 0, 78, 1), sealed(bt));
}

#[test]
fn sweep_walks_three_white_bytes_over_the_offsets() {
    let r = sweep_step(10, 1);
    let mut want = vec![0u8; 74];
    want[0] = 0x31;
    want[1] = 0x12;
    want[2] = 0xF7;
    want[3] = 0x15;
    want[10] = 255;
    want[11] = 255;
    want[12] = 255;
    assert_eq!(r.frame, sealed(want));
    assert_eq!(r.note, SweepNote::Offset(10));
    assert_eq!(r.next_step, 11);
}

#[test]
fn sweep_at_the_first_offsets_overwrites_the_header() {
    let r = sweep_step(0, 0);
    assert_eq!(&r.frame[0..5], &[255, 255, 255, 0x15, 0]);
    let r = sweep_step(73, 0);
    assert_eq!(r.frame[73], 255);
    assert_eq!(r.frame.len(), 78);
    let mut want = vec![0u8; 74];
    want[0] = 0x31;
    want[1] = 0x02;
    want[2] = 0xF7;
    want[3] = 0x15;
    want[73] = 255;
    assert_eq!(r.frame, sealed(want));
}

#[test]
fn sweep_offsets_75_to_79_send_the_bare_header() {
    let mut want = vec![0u8; 74];
    want[0] = 0x31;
    want[1] = 0x02;
    want[2] = 0xF7;
    want[3] = 0x15;
    for step in 75..80 {
        let r = sweep_step(step, 0);
        assert_eq!(r.frame, sealed(want.clone()));
        assert_eq!(r.note, SweepNote::Offset(step));
    }
}

#[test]
fn sweep_then_runs_the_flag_bytes_through_their_values() {
    let r = sweep_step(80, 0);
    assert_eq!(r.note, SweepNote::Flag { index: 1, value: 0 });
    assert_eq!(r.frame[1], 0);
    let r = sweep_step(80 + 256 + 0x15, 2);
    assert_eq!(r.note, SweepNote::Flag { index: 2, value: 0x15 });
    let mut want = vec![0u8; 74];
    want[0] = 0x31;
    want[1] = 0x22;
    want[2] = 0x15;
    for i in 44..50 {
        want[i] = 255;
    }
    assert_eq!(r.frame, sealed(want));
    let r = sweep_step(80 + 4 * 256 + 255, 0);
    assert_eq!(r.note, SweepNote::Flag { index: 5, value: 255 });
    assert_eq!(r.frame[5], 255);
    assert_eq!(r.frame[2], 0x15);
    assert_eq!(r.next_step, 80 + 5 * 256);
}

#[test]
fn sweep_starts_over_when_it_is_through() {
    let r = sweep_step(80 + 5 * 256, 0);
    assert_eq!(r.note, SweepNote::Reset);
    assert_eq!(r.next_step, 1);
    let mut want = vec![0u8; 74];
    want[0] = 0x31;
    want[1] = 0x02;
    want[2] = 0x15;
    assert_eq!(r.frame, sealed(want));
    assert_eq!(sweep_step(5000, 0).next_step, 1);
}

#[test]
fn fuzzer_walks_through_sixty_layouts() {
    let p = fuzzer_params(0, 0xF7, 78, false).unwrap();
    assert_eq!((p.report_id, p.flag_off, p.rgb_off), (0x02, 0, 44));
    let p = fuzzer_params(9, 0xF7, 78, false).unwrap();
    assert_eq!((p.report_id, p.flag_off, p.rgb_off), (0x02, 9, 53));
    let p = fuzzer_params(10, 0xF7, 78, false).unwrap();
    assert_eq!((p.report_id, p.flag_off, p.rgb_off), (0x31, 0, 45));
    let p = fuzzer_params(29, 0xF7, 78, false).unwrap();
    assert_eq!((p.report_id, p.flag_off, p.rgb_off), (0x31, 19, 45));
    let p = fuzzer_params(30, 0xF7, 78, false).unwrap();
    assert_eq!((p.report_id, p.flag_off, p.rgb_off), (0x31, 3, 35));
    let p = fuzzer_params(59, 0x01, 70, true).unwrap();
    assert_eq!(
        p,
        ManualParams {
            report_id: 0x31,
            flag_off: 3,
            rgb_off: 64,
            player_led: 0x04,
            pled_bright: 0,
            pled_bright_off: 0,
            bt_flags: 0x01,
            bt_flags2: 0x15,
            bt_len: 70,
            as_feature: true,
            r: 255,
            g: 0,
            b: 0,
        }
    );
    assert_eq!(fuzzer_params(60, 0xF7, 78, false), None);
    assert_eq!(fuzzer_params(usize::MAX, 0xF7, 78, false), None);
}

#[test]
fn protocol_scan_tries_every_length_both_ways_and_then_the_ds4_report() {
    let list = protocol_scan_params();
    assert_eq!(list.len(), 43);
    for (i, p) in list.iter().enumerate() {
        assert_eq!((p.flag_off, p.rgb_off, p.r, p.g, p.b), (2, 45, 255, 0, 0));
        assert_eq!((p.bt_flags, p.bt_flags2, p.player_led), (0xF7, 0x15, 0));
        if i < 21 {
            assert_eq!((p.report_id, p.bt_len, p.as_feature), (0x31, 60 + i, false));
        } else if i < 42 {
            assert_eq!((p.report_id, p.bt_len, p.as_feature), (0x31, 60 + i - 21, true));
        } else {
            assert_eq!((p.report_id, p.bt_len, p.as_feature), (0x11, 78, false));
        }
    }
}
