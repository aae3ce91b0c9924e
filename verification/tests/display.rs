use panel_lamp::display::next_suspension;
use panel_lamp::display::panel_setup;
use panel_lamp::display::scanline_area;
use panel_lamp::display::ticks_to_millis;
use panel_lamp::display::PanelSetup;
use panel_lamp::display::ScanlineArea;
use panel_lamp::display::Suspension;
use panel_lamp::display::FALLBACK_POLL_MS;
use panel_lamp::display::LCD_HEIGHT;
use panel_lamp::display::LCD_OFFSET_X;
use panel_lamp::display::LCD_OFFSET_Y;
use panel_lamp::display::LCD_WIDTH;
use panel_lamp::display::NANOS_PER_MILLI;

#[test]
fn panel_constants() {
    assert_eq!(LCD_WIDTH, 240);
    assert_eq!(LCD_HEIGHT, 280);
    assert_eq!(LCD_OFFSET_X, 0);
    assert_eq!(LCD_OFFSET_Y, 20);
    assert_eq!(FALLBACK_POLL_MS, 10);
}

#[test]
fn panel_setup_is_the_fixed_geometry() {
    assert_eq!(
        panel_setup(),
        PanelSetup { width: 240, height: 280, offset_x: 0, offset_y: 20, invert_colors: true }
    );
}

#[test]
fn idle_with_timer_due_sleeps_exactly_that_long() {
    let suspension = next_suspension(false, Some(37_000_000));
    assert_eq!(suspension, Suspension::UntilTimer(37_000_000));
    assert_eq!(suspension.nanos(), 37_000_000);
}

#[test]
fn part_of_a_millisecond_is_slept_too() {
    let due = core::time::Duration::new(0, 37_900_000);
    let suspension = next_suspension(false, Some(due.as_nanos()));
    assert_eq!(suspension.nanos(), 37_900_000);
    assert_eq!(next_suspension(false, Some(1)).nanos(), 1);
    assert_eq!(next_suspension(false, Some(999_999)).nanos(), 999_999);
}

#[test]
fn idle_without_timer_falls_back_to_ten_milliseconds() {
    let suspension = next_suspension(false, None);
    assert_eq!(suspension, Suspension::Fallback);
    assert_eq!(suspension.nanos(), 10_000_000);
    assert_eq!(suspension.nanos(), FALLBACK_POLL_MS * NANOS_PER_MILLI);
}

#[test]
fn active_animation_always_falls_back() {
    assert_eq!(next_suspension(true, Some(37_000_000)), Suspension::Fallback);
    assert_eq!(next_suspension(true, Some(0)), Suspension::Fallback);
    assert_eq!(next_suspension(true, None), Suspension::Fallback);
    assert_eq!(next_suspension(true, Some(37_000_000)).nanos(), 10_000_000);
}

#[test]
fn timer_due_now_sleeps_no_time() {
    assert_eq!(next_suspension(false, Some(0)), Suspension::UntilTimer(0));
    assert_eq!(next_suspension(false, Some(0)).nanos(), 0);
}

#[test]
fn wait_too_long_to_count_is_cut_to_the_longest_sleep() {
    let max = u128::from(u64::MAX);
    assert_eq!(next_suspension(false, Some(max)), Suspension::UntilTimer(u64::MAX));
    assert_eq!(next_suspension(false, Some(max + 1)), Suspension::UntilTimer(u64::MAX));
    assert_eq!(next_suspension(false, Some(max + 6)), Suspension::UntilTimer(u64::MAX));
    assert_eq!(next_suspension(false, Some(u128::MAX)), Suspension::UntilTimer(u64::MAX));
    let longest = core::time::Duration::MAX;
    assert_eq!(next_suspension(false, Some(longest.as_nanos())).nanos(), u64::MAX);
}

#[test]
fn scanline_area_is_one_row_of_the_given_columns() {
    assert_eq!(scanline_area(7, 3..200), ScanlineArea { x: 3, y: 7, width: 197, height: 1 });
    assert_eq!(scanline_area(0, 0..240), ScanlineArea { x: 0, y: 0, width: 240, height: 1 });
    assert_eq!(scanline_area(279, 239..240), ScanlineArea { x: 239, y: 279, width: 1, height: 1 });
    assert_eq!(scanline_area(12, 5..5), ScanlineArea { x: 5, y: 12, width: 0, height: 1 });
}

#[test]
fn scanline_of_a_reversed_range_has_no_columns() {
    assert_eq!(scanline_area(1, 10..4), ScanlineArea { x: 10, y: 1, width: 0, height: 1 });
}

#[test]
fn scanline_columns_beyond_32_bits_are_reduced() {
    let wide = (u32::MAX as usize) + 6;
    assert_eq!(scanline_area(0, 0..wide).width, 5);
    assert_eq!(scanline_area(0, (i32::MAX as usize) + 1..wide).x, i32::MIN);
}

#[test]
fn scanline_row_beyond_i32_is_reduced_to_32_bits() {
    let row = i32::MAX as usize;
    assert_eq!(scanline_area(row, 0..1).y, i32::MAX);
    assert_eq!(scanline_area(row + 1, 0..1).y, i32::MIN);
    assert_eq!(scanline_area(u32::MAX as usize, 0..1).y, -1);
}

#[test]
fn ticks_to_millis_divides_by_ticks_per_millisecond() {
    assert_eq!(ticks_to_millis(32_000_000, 16_000_000), 2000);
    assert_eq!(ticks_to_millis(15_999, 16_000_000), 0);
    assert_eq!(ticks_to_millis(16_000, 16_000_000), 1);
    assert_eq!(ticks_to_millis(0, 16_000_000), 0);
    assert_eq!(ticks_to_millis(u64::MAX, 16_000_000), u64::MAX / 16_000);
}

#[test]
fn ticks_to_millis_rounds_the_tick_rate_down_to_whole_ticks_per_millisecond() {
    assert_eq!(ticks_to_millis(5000, 1000), 5000);
    assert_eq!(ticks_to_millis(5000, 1999), 5000);
    assert_eq!(ticks_to_millis(5000, 2000), 2500);
    assert_eq!(ticks_to_millis(5000, 2500), 2500);
}
