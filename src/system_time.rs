use vstd::prelude::*;

verus! {

/// Seconds in a minute.
pub const SECONDS_PER_MINUTE: u64 = 60;

/// Seconds in an hour.
pub const SECONDS_PER_HOUR: u64 = 3600;

/// Seconds in a day.
pub const SECONDS_PER_DAY: u64 = 86400;

/// Seconds in a month, counted as thirty days.
pub const SECONDS_PER_MONTH: u64 = 2592000;

/// Value of a byte read as two binary-coded decimal digits.
pub open spec fn from_bcd(v: int) -> int {
    v % 16 + (v / 16) * 10
}

/// The clock counts in binary rather than in binary-coded decimal
/// (bit 2 of status register B).
pub open spec fn binary_mode(status_b: int) -> bool {
    (status_b / 4) % 2 == 1
}

/// The clock counts hours from 0 to 23 rather than from 1 to 12
/// (bit 1 of status register B).
pub open spec fn day_hours(status_b: int) -> bool {
    (status_b / 2) % 2 == 1
}

/// Hour register after decoding its digits; the afternoon flag (bit 7) stays.
pub open spec fn decoded_hour(hour: int, status_b: int) -> int {
    if binary_mode(status_b) {
        hour
    } else {
        hour % 16 + ((hour / 16) % 8) * 10 + (if hour >= 128 { 128int } else { 0 })
    }
}

/// Hour of the day from 0 to 23.
pub open spec fn hour_of_day(hour: int, status_b: int) -> int {
    let h = decoded_hour(hour, status_b);
    if !day_hours(status_b) && h >= 128 {
        (h % 128 + 12) % 24
    } else {
        h
    }
}

/// A field of the clock other than the hour, decoded.
pub open spec fn decoded_field(v: int, status_b: int) -> int {
    if binary_mode(status_b) {
        v
    } else {
        from_bcd(v)
    }
}

/// Seconds since the start of the year, counting every month as thirty
/// days, from raw clock registers.
pub open spec fn clock_seed(second: u8, minute: u8, hour: u8, day: u8, month: u8, status_b: u8) -> int {
    decoded_field(second as int, status_b as int) + decoded_field(minute as int, status_b as int)
        * SECONDS_PER_MINUTE + hour_of_day(hour as int, status_b as int) * SECONDS_PER_HOUR
        + decoded_field(day as int, status_b as int) * SECONDS_PER_DAY + decoded_field(
        month as int,
        status_b as int,
    ) * SECONDS_PER_MONTH
}

/// Decode a raw clock field unless the clock counts in binary.
fn decode_field(v: u8, binary: bool) -> (r: u64)
    ensures
        r == (if binary { v as int } else { from_bcd(v as int) }),
        r < 256,
{
    let v: u64 = v as u64;
    if binary {
        v
    } else {
        v % 16 + (v / 16) * 10
    }
}

/// A coarse seed for the random generator from the raw registers of the
/// real-time clock: seconds, minutes, hours, day of month, month, and status
/// register B, which says whether the fields are binary-coded decimal and
/// whether hours run to 12 or 24.
pub fn get_system_time_seed(second: u8, minute: u8, hour: u8, day: u8, month: u8, status_b: u8) -> (r:
    u64)
    ensures
        r == clock_seed(second, minute, hour, day, month, status_b),
{
    let binary: bool = (status_b / 4) % 2 == 1;
    let second: u64 = decode_field(second, binary);
    let minute: u64 = decode_field(minute, binary);
    let day: u64 = decode_field(day, binary);
    let month: u64 = decode_field(month, binary);
    let raw_hour: u64 = hour as u64;
    let mut hour: u64 = if binary {
        raw_hour
    } else {
        let pm: u64 = if raw_hour >= 128 { 128 } else { 0 };
        raw_hour % 16 + ((raw_hour / 16) % 8) * 10 + pm
    };
    if (status_b / 2) % 2 == 0 && hour >= 128 {
        hour = (hour % 128 + 12) % 24;
    }
    second + minute * SECONDS_PER_MINUTE + hour * SECONDS_PER_HOUR + day * SECONDS_PER_DAY + month
        * SECONDS_PER_MONTH
}

} // verus!
