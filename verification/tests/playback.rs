use globe::playback::{
    reset_video, slider_timestamp, update_time_stamp, update_video_pause, PlaybackState,
    LAST_FRAME, SKIP_FRAMES,
};

#[test]
fn new_state_is_paused_at_first_frame() {
    let s = PlaybackState::new();
    assert!(s.pause);
    assert_eq!(s.timestamp, 0);
}

#[test]
fn update_video_pause_sets_flag_keeps_frame() {
    let mut s = PlaybackState { pause: true, timestamp: 42 };
    update_video_pause(&mut s, false);
    assert_eq!(s, PlaybackState { pause: false, timestamp: 42 });
    update_video_pause(&mut s, false);
    assert_eq!(s, PlaybackState { pause: false, timestamp: 42 });
    update_video_pause(&mut s, true);
    assert_eq!(s, PlaybackState { pause: true, timestamp: 42 });
}

#[test]
fn reset_video_changes_nothing() {
    let mut s = PlaybackState { pause: false, timestamp: 900 };
    reset_video(&mut s);
    assert_eq!(s, PlaybackState { pause: false, timestamp: 900 });
}

#[test]
fn update_time_stamp_advances_one_frame() {
    let mut s = PlaybackState { pause: false, timestamp: 7 };
    update_time_stamp(&mut s);
    assert_eq!(s, PlaybackState { pause: false, timestamp: 8 });
    // the render loop does not stop at the last frame
    let mut s = PlaybackState { pause: false, timestamp: LAST_FRAME };
    update_time_stamp(&mut s);
    assert_eq!(s.timestamp, 1704);
}

#[test]
fn toggle_pause_flips_and_twice_restores() {
    let mut s = PlaybackState { pause: true, timestamp: 3 };
    s.toggle_pause();
    assert_eq!(s, PlaybackState { pause: false, timestamp: 3 });
    s.toggle_pause();
    assert_eq!(s, PlaybackState { pause: true, timestamp: 3 });
}

#[test]
fn skip_right_moves_a_year_and_clamps() {
    let mut s = PlaybackState { pause: true, timestamp: 0 };
    s.skip_right();
    assert_eq!(s, PlaybackState { pause: true, timestamp: SKIP_FRAMES });
    let mut s = PlaybackState { pause: false, timestamp: 1691 };
    s.skip_right();
    assert_eq!(s.timestamp, 1703);
    let mut s = PlaybackState { pause: false, timestamp: 1692 };
    s.skip_right();
    assert_eq!(s.timestamp, 1703);
    // a frame beyond the data is pulled back to the last frame
    let mut s = PlaybackState { pause: false, timestamp: 2000 };
    s.skip_right();
    assert_eq!(s.timestamp, 1703);
    assert!(!s.pause);
}

#[test]
fn skip_left_moves_a_year_and_clamps() {
    let mut s = PlaybackState { pause: true, timestamp: 12 };
    s.skip_left();
    assert_eq!(s, PlaybackState { pause: true, timestamp: 0 });
    let mut s = PlaybackState { pause: false, timestamp: 11 };
    s.skip_left();
    assert_eq!(s.timestamp, 0);
    let mut s = PlaybackState { pause: false, timestamp: 1703 };
    s.skip_left();
    assert_eq!(s.timestamp, 1691);
    assert!(!s.pause);
}

#[test]
fn skips_undo_each_other_inside_the_data() {
    for t in 0..=1691usize {
        let mut s = PlaybackState { pause: true, timestamp: t };
        s.skip_right();
        s.skip_left();
        assert_eq!(s.timestamp, t);
    }
    for t in 12..=1703usize {
        let mut s = PlaybackState { pause: true, timestamp: t };
        s.skip_left();
        s.skip_right();
        assert_eq!(s.timestamp, t);
    }
    // clamped skips are not undone
    let mut s = PlaybackState { pause: true, timestamp: 1700 };
    s.skip_right();
    s.skip_left();
    assert_eq!(s.timestamp, 1691);
}

#[test]
fn skips_stay_inside_the_data() {
    for t in 0..=LAST_FRAME {
        let mut r = PlaybackState { pause: false, timestamp: t };
        r.skip_right();
        assert!(r.timestamp <= LAST_FRAME);
        let mut l = PlaybackState { pause: false, timestamp: t };
        l.skip_left();
        assert!(l.timestamp <= LAST_FRAME);
    }
}

#[test]
fn slider_timestamp_is_offset_less_ten() {
    assert_eq!(slider_timestamp(100, 20, 50), 70);
    assert_eq!(slider_timestamp(30, 20, 300), 0);
    assert_eq!(slider_timestamp(1800, 8, 1704), 1782);
}

#[test]
fn slider_timestamp_left_of_slider_wraps() {
    assert_eq!(slider_timestamp(5, 20, 50), usize::MAX - 24);
}

#[test]
fn advance_frame_moves_on_when_due_and_playing() {
    let mut s = PlaybackState { pause: false, timestamp: 10 };
    let last = s.advance_frame(1_000, 1_084);
    assert_eq!(last, 1_084);
    assert_eq!(s, PlaybackState { pause: false, timestamp: 11 });
}

#[test]
fn advance_frame_waits_for_a_twelfth_of_a_second() {
    let mut s = PlaybackState { pause: false, timestamp: 10 };
    let last = s.advance_frame(1_000, 1_083);
    assert_eq!(last, 1_000);
    assert_eq!(s.timestamp, 10);
    let last = s.advance_frame(1_000, 900);
    assert_eq!(last, 1_000);
    assert_eq!(s.timestamp, 10);
}

#[test]
fn advance_frame_holds_while_paused() {
    let mut s = PlaybackState { pause: true, timestamp: 10 };
    let last = s.advance_frame(0, 1_000_000);
    assert_eq!(last, 0);
    assert_eq!(s, PlaybackState { pause: true, timestamp: 10 });
}
