//! Formatter: render an integer speed (bytes/second) as a human-readable
//! string. The magnitude is divided by a fixed binary scale factor of 1024
//! while it exceeds the threshold 1000 and a larger unit remains in the
//! ordered unit list [B/s, KB/s, MB/s]; the scaled magnitude is then written
//! in decimal digits followed by the unit suffix.

use vstd::prelude::*;

use crate::aggregate::{combine, combined_speed, AggregatePolicy};
use crate::outcome::ProbeOutcome;

verus! {

/// Magnitudes above this advance to the next unit.
pub const THRESHOLD: u64 = 1000;

/// Divisor applied per unit step (binary convention).
pub const SCALE: u64 = 1024;

/// Index of the last unit in the unit list.
pub const LAST_UNIT: u64 = 2;

/// Scale a magnitude already expressed in unit `unit`: divide by 1024 while
/// it exceeds 1000 and a larger unit remains, and return the final
/// magnitude/unit pair.
pub open spec fn scale_from(mag: nat, unit: nat) -> (nat, nat)
    decreases 2 - unit,
{
    if mag > 1000 && unit < 2 {
        scale_from(mag / 1024, unit + 1)
    } else {
        (mag, unit)
    }
}

/// The magnitude that is printed for a raw speed in bytes/second.
pub open spec fn scaled_magnitude(speed: nat) -> nat {
    scale_from(speed, 0).0
}

/// The unit index (0 = B/s, 1 = KB/s, 2 = MB/s) that is printed for a raw
/// speed in bytes/second.
pub open spec fn scaled_unit(speed: nat) -> nat {
    scale_from(speed, 0).1
}

/// The suffix of a unit index.
pub open spec fn unit_suffix(unit: nat) -> Seq<char> {
    if unit == 0 {
        "B/s"@
    } else if unit == 1 {
        "KB/s"@
    } else {
        "MB/s"@
    }
}

proof fn lemma_scale_from_bounded(mag: nat, unit: nat)
    requires
        unit <= 2,
    ensures
        scale_from(mag, unit).1 <= 2,
        unit <= scale_from(mag, unit).1,
        scale_from(mag, unit).1 < 2 ==> scale_from(mag, unit).0 <= 1000,
    decreases 2 - unit,
{
    if mag > 1000 && unit < 2 {
        lemma_scale_from_bounded(mag / 1024, unit + 1);
    }
}

/// Law: for the fixed 1024 scale, formatting never leaves a magnitude above
/// the threshold while a larger unit remains in the unit list, the unit
/// index never leaves the list, and the index only advances past a unit
/// whose magnitude exceeded the threshold.
pub proof fn lemma_formatter_monotone(speed: nat)
    ensures
        scaled_unit(speed) <= 2,
        scaled_unit(speed) < 2 ==> scaled_magnitude(speed) <= 1000,
        scaled_unit(speed) >= 1 ==> speed > 1000,
        scaled_unit(speed) >= 2 ==> speed / 1024 > 1000,
{
    lemma_scale_from_bounded(speed, 0);
    if speed > 1000 {
        assert(scale_from(speed, 0) == scale_from(speed / 1024, 1));
        lemma_scale_from_bounded(speed / 1024, 1);
        if speed / 1024 <= 1000 {
            assert(scale_from(speed / 1024, 1) == ((speed / 1024, 1nat)));
        }
    } else {
        assert(scale_from(speed, 0) == ((speed, 0nat)));
    }
}

/// The character of one decimal digit.
pub open spec fn digit_char(d: nat) -> char {
    if d == 0 {
        '0'
    } else if d == 1 {
        '1'
    } else if d == 2 {
        '2'
    } else if d == 3 {
        '3'
    } else if d == 4 {
        '4'
    } else if d == 5 {
        '5'
    } else if d == 6 {
        '6'
    } else if d == 7 {
        '7'
    } else if d == 8 {
        '8'
    } else {
        '9'
    }
}

/// The decimal digit string of a number, most significant digit first.
pub open spec fn dec_chars(n: nat) -> Seq<char>
    decreases n,
{
    if n < 10 {
        seq![digit_char(n)]
    } else {
        dec_chars(n / 10) + seq![digit_char(n % 10)]
    }
}

fn digit_str(d: u64) -> (s: &'static str)
    requires
        d < 10,
    ensures
        s@ == seq![digit_char(d as nat)],
{
    let s: &'static str = match d {
        0 => "0",
        1 => "1",
        2 => "2",
        3 => "3",
        4 => "4",
        5 => "5",
        6 => "6",
        7 => "7",
        8 => "8",
        _ => "9",
    };
    proof {
        reveal_strlit("0");
        reveal_strlit("1");
        reveal_strlit("2");
        reveal_strlit("3");
        reveal_strlit("4");
        reveal_strlit("5");
        reveal_strlit("6");
        reveal_strlit("7");
        reveal_strlit("8");
        reveal_strlit("9");
        assert(s@ =~= seq![digit_char(d as nat)]);
    }
    s
}

/// Write a number in decimal digits.
pub fn u64_to_dec(n: u64) -> (s: String)
    ensures
        s@ == dec_chars(n as nat),
    decreases n,
{
    if n < 10 {
        String::from_str(digit_str(n))
    } else {
        let mut s = u64_to_dec(n / 10);
        s.append(digit_str(n % 10));
        proof {
            assert(s@ =~= dec_chars(n as nat));
        }
        s
    }
}

/// Render a speed in bytes/second as scaled decimal digits followed by the
/// unit suffix, under the binary 1024 scale convention.
pub fn format_speed(speed: u64) -> (s: String)
    ensures
        s@ == dec_chars(scaled_magnitude(speed as nat)) + unit_suffix(scaled_unit(speed as nat)),
{
    let mut mag: u64 = speed;
    let mut unit: u64 = 0;
    while mag > THRESHOLD && unit < LAST_UNIT
        invariant
            unit <= 2,
            scale_from(speed as nat, 0) == scale_from(mag as nat, unit as nat),
        decreases 2 - unit,
    {
        mag = mag / SCALE;
        unit = unit + 1;
    }
    let mut s = u64_to_dec(mag);
    let suffix: &'static str = if unit == 0 {
        "B/s"
    } else if unit == 1 {
        "KB/s"
    } else {
        "MB/s"
    };
    s.append(suffix);
    s
}

/// Aggregate the outcomes under `policy` and render the result: the one
/// line a measurement run prints.
pub fn report_speed(outcomes: &Vec<ProbeOutcome>, policy: AggregatePolicy) -> (s: String)
    ensures
        s@ == dec_chars(scaled_magnitude(combined_speed(outcomes@, policy))) + unit_suffix(
            scaled_unit(combined_speed(outcomes@, policy)),
        ),
{
    format_speed(combine(outcomes, policy))
}

} // verus!
