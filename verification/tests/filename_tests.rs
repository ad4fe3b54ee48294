use frame_sampler::filename::render_filename;

#[test]
fn first_filename_is_zero_padded() {
    assert_eq!(render_filename(0), "frame_0000.png");
}

#[test]
fn single_digit_is_padded_to_four() {
    assert_eq!(render_filename(7), "frame_0007.png");
}

#[test]
fn two_digits_are_padded_to_four() {
    assert_eq!(render_filename(42), "frame_0042.png");
}

#[test]
fn three_digits_are_padded_to_four() {
    assert_eq!(render_filename(950), "frame_0950.png");
}

#[test]
fn four_digits_take_no_padding() {
    assert_eq!(render_filename(9999), "frame_9999.png");
}

#[test]
fn counter_past_the_padding_width_keeps_all_digits() {
    assert_eq!(render_filename(10000), "frame_10000.png");
    assert_eq!(render_filename(123456), "frame_123456.png");
}

#[test]
fn largest_counter_value() {
    assert_eq!(render_filename(u32::MAX), "frame_4294967295.png");
}
