//! The integer columns under which daily statistics are stored, and the
//! conversions between them and the library's counters.
use vstd::prelude::*;
use crate::stats::{DailyStats, TypingStats};

verus! {

/// The `u64` with the same 64 bits as `x`.
pub open spec fn i64_bits_as_u64(x: i64) -> u64 {
    if x >= 0 {
        x as u64
    } else {
        (x + 0x1_0000_0000_0000_0000) as u64
    }
}

/// The `i64` with the same 64 bits as `x`.
pub open spec fn u64_bits_as_i64(x: u64) -> i64 {
    if x <= i64::MAX {
        x as i64
    } else {
        (x - 0x1_0000_0000_0000_0000) as i64
    }
}

/// The `u32` with the same 32 bits as `x`.
pub open spec fn i32_bits_as_u32(x: i32) -> u32 {
    if x >= 0 {
        x as u32
    } else {
        (x + 0x1_0000_0000) as u32
    }
}

/// Reads a stored count back as an unsigned counter, keeping its bits.
pub fn count_from_column(x: i64) -> (r: u64)
    ensures
        r == i64_bits_as_u64(x),
{
    assert((x as u64) as int == if x >= 0 { x as int } else { x + 0x1_0000_0000_0000_0000 })
        by (bit_vector);
    x as u64
}

/// Stores an unsigned counter as a signed column value, keeping its bits.
pub fn count_to_column(x: u64) -> (r: i64)
    ensures
        r == u64_bits_as_i64(x),
{
    assert((x as i64) as int == if x <= 0x7fff_ffff_ffff_ffff { x as int } else { x - 0x1_0000_0000_0000_0000 })
        by (bit_vector);
    x as i64
}

/// Reads a stored session count back as an unsigned counter, keeping its bits.
pub fn sessions_from_column(x: i32) -> (r: u32)
    ensures
        r == i32_bits_as_u32(x),
{
    assert((x as u32) as int == if x >= 0 { x as int } else { x + 0x1_0000_0000 }) by (bit_vector);
    x as u32
}

/// The amounts a save adds to the stored row of a day.
#[derive(Clone, Copy, Debug, PartialEq, Eq, Structural)]
pub struct DailyIncrement {
    pub keystrokes: i64,
    pub chars: i64,
}

impl TypingStats {
    /// The session counts as the signed amounts a save adds to the day's row.
    pub fn daily_increment(&self) -> (inc: DailyIncrement)
        ensures
            inc.keystrokes == u64_bits_as_i64(self.total_keystrokes),
            inc.chars == u64_bits_as_i64(self.printable_chars),
    {
        DailyIncrement {
            keystrokes: count_to_column(self.total_keystrokes),
            chars: count_to_column(self.printable_chars),
        }
    }
}

impl DailyStats {
    /// Builds the statistics of a day from the columns of its stored row
    /// (date, keystrokes, printable characters, typing seconds, sessions).
    pub fn from_columns(
        date: String,
        total_keystrokes: i64,
        printable_chars: i64,
        typing_duration_seconds: i64,
        session_count: i32,
    ) -> (r: DailyStats)
        ensures
            r.date@ == date@,
            r.total_keystrokes == i64_bits_as_u64(total_keystrokes),
            r.printable_chars == i64_bits_as_u64(printable_chars),
            r.typing_duration_seconds == i64_bits_as_u64(typing_duration_seconds),
            r.session_count == i32_bits_as_u32(session_count),
    {
        DailyStats {
            date,
            total_keystrokes: count_from_column(total_keystrokes),
            printable_chars: count_from_column(printable_chars),
            typing_duration_seconds: count_from_column(typing_duration_seconds),
            session_count: sessions_from_column(session_count),
        }
    }
}

/// Saved counts read back unchanged: a counter stored as a signed column
/// value (as a save does) and read back as a counter (as loading a day does)
/// is the counter that was saved, and a column value read as a counter and
/// stored again is the same column value.
pub proof fn law_saved_counts_read_back(count: u64, column: i64)
    ensures
        i64_bits_as_u64(u64_bits_as_i64(count)) == count,
        u64_bits_as_i64(i64_bits_as_u64(column)) == column,
{
}

} // verus!
