use panel_lamp::clock_cell::ClockCell;

#[test]
fn new_cell_reports_absence() {
    let cell: ClockCell<u32> = ClockCell::new();
    assert!(!cell.is_ready());
    assert!(cell.get().is_none());
    assert!(matches!(cell, ClockCell::Uninitialized));
}

#[test]
fn read_after_write_returns_written_value() {
    let mut cell: ClockCell<u32> = ClockCell::new();
    cell.initialize(160_000_000);
    assert!(cell.is_ready());
    assert_eq!(cell.get(), Some(&160_000_000));
    assert_eq!(cell.with_clock(|hz| *hz / 1_000_000), 160);
}

#[test]
fn every_reader_sees_the_same_value() {
    let mut cell: ClockCell<(u32, u32)> = ClockCell::new();
    cell.initialize((80, 40));
    let for_display = cell.with_clock(|c| c.0);
    let for_lamp = cell.with_clock(|c| c.0);
    assert_eq!(for_display, 80);
    assert_eq!(for_lamp, 80);
    assert_eq!(cell.get(), Some(&(80, 40)));
}

#[test]
fn second_write_overwrites() {
    let mut cell: ClockCell<u8> = ClockCell::new();
    cell.initialize(1);
    cell.initialize(2);
    assert_eq!(cell.get(), Some(&2));
}

#[test]
fn with_clock_hands_back_what_the_closure_returns() {
    let mut cell: ClockCell<String> = ClockCell::new();
    cell.initialize(String::from("pll"));
    let length = cell.with_clock(|name| name.len());
    assert_eq!(length, 3);
    let copy = cell.with_clock(|name| name.clone());
    assert_eq!(copy, "pll");
}

#[test]
fn constant_variant_is_an_empty_cell() {
    let cell: ClockCell<u64> = ClockCell::Uninitialized;
    assert!(!cell.is_ready());
    let ready = ClockCell::Ready(7u64);
    assert!(ready.is_ready());
    assert_eq!(ready.get(), Some(&7));
}
