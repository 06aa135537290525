use smiley_core::matrix::{
    cycle_writes_vec, render_writes, scan_cycle, PortId, RegKind, RegWrite, SCAN_REPEATS,
};
use smiley_core::mood::Mood;

/// Replay a write sequence against modelled direction registers, checking the
/// charlieplexing invariant after every single write: at most two pins (one
/// LED's pin pair) configured as outputs across both ports. Returns the final
/// direction registers.
fn replay_checking_drive_bound(writes: &[RegWrite]) -> (u16, u16) {
    let mut dir0: u16 = 0;
    let mut dir2: u16 = 0;
    for w in writes {
        match (w.reg, w.port) {
            (RegKind::Direction, PortId::Port0) => dir0 = w.mask,
            (RegKind::Direction, PortId::Port2) => dir2 = w.mask,
            (RegKind::Output, _) => {}
        }
        assert!(dir0.count_ones() + dir2.count_ones() <= 2);
    }
    (dir0, dir2)
}

#[test]
fn scan_cycle_has_ten_frames_for_each_mood() {
    assert_eq!(scan_cycle(Mood::Happy).len(), 10);
    assert_eq!(scan_cycle(Mood::Sad).len(), 10);
}

#[test]
fn moods_share_all_but_the_mouth_frames() {
    let happy = scan_cycle(Mood::Happy);
    let sad = scan_cycle(Mood::Sad);
    for i in 0..10 {
        if i == 4 || i == 9 {
            assert_ne!(happy[i], sad[i]);
        } else {
            assert_eq!(happy[i], sad[i]);
        }
    }
}

#[test]
fn first_frame_writes_match_the_wiring() {
    let happy = scan_cycle(Mood::Happy);
    let expected = vec![
        RegWrite { port: PortId::Port0, reg: RegKind::Output, mask: 0x1000 },
        RegWrite { port: PortId::Port0, reg: RegKind::Direction, mask: 0x1008 },
        RegWrite { port: PortId::Port0, reg: RegKind::Output, mask: 0x0008 },
        RegWrite { port: PortId::Port0, reg: RegKind::Direction, mask: 0 },
    ];
    assert_eq!(happy[0].writes, expected);
}

#[test]
fn cycle_write_counts() {
    assert_eq!(cycle_writes_vec(Mood::Happy).len(), 49);
    assert_eq!(cycle_writes_vec(Mood::Sad).len(), 52);
}

#[test]
fn render_opens_with_the_output_clears() {
    let ws = render_writes(Mood::Sad, 0);
    let expected = vec![
        RegWrite { port: PortId::Port0, reg: RegKind::Output, mask: 0 },
        RegWrite { port: PortId::Port2, reg: RegKind::Output, mask: 0 },
    ];
    assert_eq!(ws, expected);
}

#[test]
fn render_length_is_clears_plus_repeated_cycles() {
    assert_eq!(render_writes(Mood::Happy, 3).len(), 2 + 3 * 49);
    assert_eq!(render_writes(Mood::Sad, 3).len(), 2 + 3 * 52);
}

#[test]
fn render_is_deterministic() {
    assert_eq!(render_writes(Mood::Happy, 4), render_writes(Mood::Happy, 4));
    assert_eq!(render_writes(Mood::Sad, 4), render_writes(Mood::Sad, 4));
}

#[test]
fn every_frame_starts_and_ends_with_no_pin_driving() {
    for mood in [Mood::Happy, Mood::Sad] {
        for frame in scan_cycle(mood) {
            let (dir0, dir2) = replay_checking_drive_bound(&frame.writes);
            assert_eq!((dir0, dir2), (0, 0));
        }
    }
}

#[test]
fn full_render_never_drives_more_than_one_pin_pair() {
    for mood in [Mood::Happy, Mood::Sad] {
        let ws = render_writes(mood, 5);
        let (dir0, dir2) = replay_checking_drive_bound(&ws);
        assert_eq!((dir0, dir2), (0, 0));
    }
}

#[test]
fn cycle_vec_is_the_flattened_scan_table() {
    for mood in [Mood::Happy, Mood::Sad] {
        let mut expected: Vec<RegWrite> = Vec::new();
        for frame in scan_cycle(mood) {
            expected.extend(frame.writes);
        }
        assert_eq!(cycle_writes_vec(mood), expected);
        let mut render = render_writes(mood, 1);
        let cycle = render.split_off(2);
        assert_eq!(cycle, expected);
    }
}

#[test]
fn writes_touch_only_the_wired_matrix_pins() {
    // Port 0 pins 3, 4, 11, 12, 13, 15 and port 2 pins 4, 5, 6, 12, 13.
    let port0_pins: u16 = 0xb818;
    let port2_pins: u16 = 0x3070;
    for mood in [Mood::Happy, Mood::Sad] {
        for w in render_writes(mood, 1) {
            match w.port {
                PortId::Port0 => assert_eq!(w.mask & !port0_pins, 0),
                PortId::Port2 => assert_eq!(w.mask & !port2_pins, 0),
            }
        }
    }
}

#[test]
fn scan_repeat_count_matches_the_board_timing() {
    assert_eq!(SCAN_REPEATS, 999);
}
