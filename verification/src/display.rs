//! The display task: the panel it drives, the area of one rendered
//! scanline, the clock of the UI engine, and how long the task sleeps
//! between two refreshes.

use core::ops::Range;
use vstd::prelude::*;

verus! {

/// Visible width of the panel in pixels; also the length of the line buffer.
pub const LCD_WIDTH: u16 = 240;

/// Visible height of the panel in pixels.
pub const LCD_HEIGHT: u16 = 280;

/// Horizontal offset of the visible area in the controller's memory.
pub const LCD_OFFSET_X: u16 = 0;

/// Vertical offset of the visible area in the controller's memory.
pub const LCD_OFFSET_Y: u16 = 20;

/// Milliseconds the task sleeps when no timer tells it when to wake.
pub const FALLBACK_POLL_MS: u64 = 10;

/// Nanoseconds in a millisecond.
pub const NANOS_PER_MILLI: u64 = 1_000_000;

/// How the panel is set up when the display task starts.
#[derive(Clone, Copy, Debug, PartialEq, Eq, Structural)]
pub struct PanelSetup {
    /// Visible width in pixels.
    pub width: u16,
    /// Visible height in pixels.
    pub height: u16,
    /// Columns of controller memory to the left of the visible area.
    pub offset_x: u16,
    /// Rows of controller memory above the visible area.
    pub offset_y: u16,
    /// Whether the panel shows colours inverted and has to be told so.
    pub invert_colors: bool,
}

/// The setup of the panel this firmware drives: 240 by 280 pixels, shifted
/// down by 20 rows, with inverted colours.
pub fn panel_setup() -> (setup: PanelSetup)
    ensures
        setup == (PanelSetup {
            width: LCD_WIDTH,
            height: LCD_HEIGHT,
            offset_x: LCD_OFFSET_X,
            offset_y: LCD_OFFSET_Y,
            invert_colors: true,
        }),
{
    PanelSetup {
        width: LCD_WIDTH,
        height: LCD_HEIGHT,
        offset_x: LCD_OFFSET_X,
        offset_y: LCD_OFFSET_Y,
        invert_colors: true,
    }
}

/// The rectangle of the panel that one rendered scanline covers.
#[derive(Clone, Copy, Debug, PartialEq, Eq, Structural)]
pub struct ScanlineArea {
    /// Leftmost column.
    pub x: i32,
    /// Row.
    pub y: i32,
    /// Number of columns.
    pub width: u32,
    /// Number of rows: always 1.
    pub height: u32,
}

/// Number of columns in `range`: none if it ends before it starts.
pub open spec fn columns_in(range: Range<usize>) -> int {
    if range.start <= range.end {
        range.end - range.start
    } else {
        0
    }
}

/// The area of the columns `range` of row `line`. Coordinates are signed
/// 32-bit numbers and sizes unsigned ones; a number that does not fit is
/// reduced to its low 32 bits.
pub open spec fn scanline_area_of(line: usize, range: Range<usize>) -> ScanlineArea {
    ScanlineArea {
        x: range.start as i32,
        y: line as i32,
        width: columns_in(range) as u32,
        height: 1,
    }
}

/// The area that the columns `range` of row `line` cover on the panel: one
/// row high, starting at the first column of the range and as wide as the
/// range is long.
pub fn scanline_area(line: usize, range: Range<usize>) -> (area: ScanlineArea)
    ensures
        area == scanline_area_of(line, range),
        area.height == 1,
        range.start <= i32::MAX ==> area.x == range.start,
        line <= i32::MAX ==> area.y == line,
        columns_in(range) <= u32::MAX ==> area.width == columns_in(range),
{
    let columns: usize = if range.start <= range.end {
        range.end - range.start
    } else {
        0
    };
    ScanlineArea {
        x: #[verifier::truncate]
        (range.start as i32),
        y: #[verifier::truncate]
        (line as i32),
        width: #[verifier::truncate]
        (columns as u32),
        height: 1,
    }
}

/// Milliseconds since start for a timer that has counted `ticks` ticks at
/// `ticks_per_second`: the ticks divided by the whole number of ticks in a
/// millisecond.
pub open spec fn millis_of_ticks(ticks: u64, ticks_per_second: u64) -> int {
    ticks as int / (ticks_per_second as int / 1000)
}

/// Milliseconds since start, from the tick count of the system timer.
///
/// The timer must tick at least once per millisecond.
pub fn ticks_to_millis(ticks: u64, ticks_per_second: u64) -> (millis: u64)
    requires
        ticks_per_second >= 1000,
    ensures
        millis == millis_of_ticks(ticks, ticks_per_second),
{
    ticks / (ticks_per_second / 1000)
}

/// How the display task suspends at the end of an iteration.
#[derive(Clone, Copy, Debug, PartialEq, Eq, Structural)]
pub enum Suspension {
    /// Sleep until the next UI timer is due, this many nanoseconds from
    /// now.
    UntilTimer(u64),
    /// Sleep for [`FALLBACK_POLL_MS`] and look again.
    Fallback,
}

impl Suspension {
    /// Nanoseconds to sleep.
    pub open spec fn nanos_of(self) -> u64 {
        match self {
            Suspension::UntilTimer(nanos) => nanos,
            Suspension::Fallback => (FALLBACK_POLL_MS * NANOS_PER_MILLI) as u64,
        }
    }

    /// Nanoseconds to sleep. The sleep itself must not end sooner: where the
    /// timer counts in coarser ticks, the number is rounded up to them.
    pub fn nanos(&self) -> (nanos: u64)
        ensures
            nanos == self.nanos_of(),
            *self == Suspension::Fallback ==> nanos == 10_000_000,
    {
        match self {
            Suspension::UntilTimer(nanos) => *nanos,
            Suspension::Fallback => FALLBACK_POLL_MS * NANOS_PER_MILLI,
        }
    }
}

/// The longest sleep that can be asked for, in nanoseconds.
pub open spec fn longest_sleep() -> u128 {
    u64::MAX as u128
}

/// The suspension for the state of the UI engine after a refresh.
///
/// The time until the next UI timer is due is given in nanoseconds, the
/// resolution at which the UI engine counts. With no animation running and
/// a timer due, the task sleeps exactly that long, not a nanosecond less;
/// in every other case it falls back to polling. A wait too long to count
/// in 64 bits, some 584 years, is cut to the longest sleep there is, after
/// which the task decides again.
pub open spec fn suspension_for(
    has_active_animation: bool,
    next_due_nanos: Option<u128>,
) -> Suspension {
    match next_due_nanos {
        Some(due) if !has_active_animation => Suspension::UntilTimer(
            if due <= longest_sleep() {
                due as u64
            } else {
                u64::MAX
            },
        ),
        _ => Suspension::Fallback,
    }
}

/// Decides how the display task suspends, from whether an animation is
/// running and from the time in nanoseconds until the next UI timer is due,
/// if one is scheduled.
pub fn next_suspension(
    has_active_animation: bool,
    next_due_nanos: Option<u128>,
) -> (suspension: Suspension)
    ensures
        suspension == suspension_for(has_active_animation, next_due_nanos),
        has_active_animation || next_due_nanos.is_none() ==> suspension == Suspension::Fallback,
        next_due_nanos matches Some(due) ==> (!has_active_animation ==> suspension.nanos_of()
            <= due && (due <= u64::MAX ==> suspension.nanos_of() == due)),
{
    if !has_active_animation {
        if let Some(due) = next_due_nanos {
            if due <= u64::MAX as u128 {
                return Suspension::UntilTimer(due as u64);
            }
            return Suspension::UntilTimer(u64::MAX);
        }
    }
    Suspension::Fallback
}

} // verus!
