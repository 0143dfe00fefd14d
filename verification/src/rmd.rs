//! Required Minimum Distributions.
//!
//! A fixed age-to-distribution-period table (ages 70 through 115 and over,
//! clamped at the tail).  The period is kept in tenths of a year, so the
//! distribution fraction `1 / period` is the exact rational `10 / period`.

use vstd::prelude::*;

verus! {

use crate::ratio::Ratio;

/// The distribution period for `age`, in tenths of a year (`274` means
/// 27.4 years), or `None` below age 70.  Ages past 115 use the final row.
pub open spec fn spec_distributon_period(age: int) -> Option<int> {
    if age < 70 {
        Option::None
    } else {
        Option::Some(period_row(if age > 115 { 45 } else { age - 70 }))
    }
}

/// Row `idx` of the distribution-period table (index 0 is age 70).
pub open spec fn period_row(idx: int) -> int {
    period_lookup(idx)
}

/// The distribution fraction for `age`: `1 / period`, or zero below age
/// 70.
pub open spec fn spec_rmd_fraction(age: int) -> Ratio {
    match spec_distributon_period(age) {
        Option::None => Ratio { num: 0, den: 1 },
        Option::Some(p) => Ratio { num: 10, den: p as i64 },
    }
}

#[verifier::inline]
pub open spec fn in_period_table(p: int) -> bool {
    19 <= p <= 274
}

fn period_lookup_exec(idx: i64) -> (p: i64)
    requires
        0 <= idx <= 45,
    ensures
        p == period_lookup(idx as int),
        in_period_table(p as int),
{
    match idx {
        0 => 274,
        1 => 265,
        2 => 256,
        3 => 247,
        4 => 238,
        5 => 229,
        6 => 220,
        7 => 212,
        8 => 203,
        9 => 195,
        10 => 187,
        11 => 179,
        12 => 171,
        13 => 163,
        14 => 155,
        15 => 148,
        16 => 141,
        17 => 134,
        18 => 127,
        19 => 120,
        20 => 114,
        21 => 108,
        22 => 102,
        23 => 96,
        24 => 91,
        25 => 86,
        26 => 81,
        27 => 76,
        28 => 71,
        29 => 67,
        30 => 63,
        31 => 59,
        32 => 55,
        33 => 52,
        34 => 49,
        35 => 45,
        36 => 42,
        37 => 39,
        38 => 37,
        39 => 34,
        40 => 31,
        41 => 29,
        42 => 26,
        43 => 24,
        44 => 21,
        _ => 19,
    }
}

pub open spec fn period_lookup(idx: int) -> int {
    if idx == 0 {
        274
    } else if idx == 1 {
        265
    } else if idx == 2 {
        256
    } else if idx == 3 {
        247
    } else if idx == 4 {
        238
    } else if idx == 5 {
        229
    } else if idx == 6 {
        220
    } else if idx == 7 {
        212
    } else if idx == 8 {
        203
    } else if idx == 9 {
        195
    } else if idx == 10 {
        187
    } else if idx == 11 {
        179
    } else if idx == 12 {
        171
    } else if idx == 13 {
        163
    } else if idx == 14 {
        155
    } else if idx == 15 {
        148
    } else if idx == 16 {
        141
    } else if idx == 17 {
        134
    } else if idx == 18 {
        127
    } else if idx == 19 {
        120
    } else if idx == 20 {
        114
    } else if idx == 21 {
        108
    } else if idx == 22 {
        102
    } else if idx == 23 {
        96
    } else if idx == 24 {
        91
    } else if idx == 25 {
        86
    } else if idx == 26 {
        81
    } else if idx == 27 {
        76
    } else if idx == 28 {
        71
    } else if idx == 29 {
        67
    } else if idx == 30 {
        63
    } else if idx == 31 {
        59
    } else if idx == 32 {
        55
    } else if idx == 33 {
        52
    } else if idx == 34 {
        49
    } else if idx == 35 {
        45
    } else if idx == 36 {
        42
    } else if idx == 37 {
        39
    } else if idx == 38 {
        37
    } else if idx == 39 {
        34
    } else if idx == 40 {
        31
    } else if idx == 41 {
        29
    } else if idx == 42 {
        26
    } else if idx == 43 {
        24
    } else if idx == 44 {
        21
    } else {
        19
    }
}

/// The distribution period for `age`, in tenths of a year, or `None`
/// below age 70.
pub fn distributon_period(age: i32) -> (p: Option<i64>)
    ensures
        match p {
            Option::None => spec_distributon_period(age as int) == Option::<int>::None,
            Option::Some(v) => spec_distributon_period(age as int) == Option::Some(v as int)
                && in_period_table(v as int),
        },
{
    if age < 70 {
        Option::None
    } else {
        let idx: i64 = if age > 115 {
            45
        } else {
            (age - 70) as i64
        };
        Option::Some(period_lookup_exec(idx))
    }
}

/// The required-minimum-distribution fraction for `age`: `1 / period`, or
/// zero below age 70.  Always a fraction no greater than one.
pub fn rmd_fraction(age: i32) -> (r: Ratio)
    ensures
        r == spec_rmd_fraction(age as int),
        r.is_fraction(),
{
    match distributon_period(age) {
        Option::None => Ratio::zero(),
        Option::Some(p) => Ratio::new(10, p),
    }
}

} // verus!
