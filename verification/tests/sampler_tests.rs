use frame_sampler::sampler::should_emit;

// A timestamp of zero lands exactly on a whole second: emitted.
#[test]
fn pts_zero_is_emitted() {
    assert!(should_emit(Some(0), 1, 30));
}

// seconds = 1005 * 1 / 1000 = 1.005: fractional part 0.005 is below the
// tolerance of 0.01.
#[test]
fn just_after_whole_second_is_emitted() {
    assert!(should_emit(Some(1005), 1, 1000));
}

// seconds = 1500 * 1 / 1000 = 1.5: fractional part 0.5 is far outside the
// tolerance.
#[test]
fn half_second_is_not_emitted() {
    assert!(!should_emit(Some(1500), 1, 1000));
}

// At 30 frames per second with time base 1/30, exactly the frames whose
// timestamp is a multiple of 30 land on whole seconds.
#[test]
fn thirty_fps_emits_on_multiples_of_thirty() {
    assert!(should_emit(Some(30), 1, 30));
    assert!(should_emit(Some(60), 1, 30));
    assert!(!should_emit(Some(1), 1, 30));
    assert!(!should_emit(Some(29), 1, 30));
    assert!(!should_emit(Some(31), 1, 30));
}

// A frame without a presentation timestamp counts as timestamp zero and is
// always emitted.
#[test]
fn absent_pts_is_emitted() {
    assert!(should_emit(None, 1, 30));
    assert!(should_emit(None, 1001, 30000));
}

// A negative timestamp has a fractional part at or below zero, hence within
// the tolerance.
#[test]
fn negative_pts_is_emitted() {
    assert!(should_emit(Some(-7), 1, 30));
    assert!(should_emit(Some(-30), 1, 30));
}

// The boundary of the tolerance: fractional part exactly 0.01 is not below
// it; just under is.
#[test]
fn tolerance_boundary() {
    // 101 / 100 seconds: fractional part exactly 0.01.
    assert!(!should_emit(Some(101), 1, 100));
    // 1001 / 1000 seconds: fractional part 0.001.
    assert!(should_emit(Some(1001), 1, 1000));
}

// Typical broadcast time base 1001/30000 (29.97 fps): frame 0 lands on a
// whole second, the following frames do not.
#[test]
fn ntsc_time_base() {
    assert!(should_emit(Some(0), 1001, 30000));
    assert!(!should_emit(Some(1), 1001, 30000));
    assert!(!should_emit(Some(15), 1001, 30000));
}
