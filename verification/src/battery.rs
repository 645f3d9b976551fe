//! Battery-widget computations: picking the battery among the candidate
//! supply slots, the level icon, and the health and remaining-time figures
//! derived from the kernel-reported charge counters.

use vstd::prelude::*;

use crate::text::str_eq;

verus! {

/// Pick the battery to report: the first candidate supply slot that is
/// present (the caller probes the slots in their fixed order and hands in
/// one presence flag per slot).
pub fn find_battery(present: &Vec<bool>) -> (r: Option<usize>)
    ensures
        match r {
            Some(i) => i < present@.len() && present@[i as int] && forall|j: int|
                0 <= j < i ==> !present@[j],
            None => forall|j: int| 0 <= j < present@.len() ==> !present@[j],
        },
{
    let mut i: usize = 0;
    while i < present.len()
        invariant
            i <= present@.len(),
            forall|j: int| 0 <= j < i ==> !present@[j],
        decreases present@.len() - i,
    {
        if present[i] {
            return Some(i);
        }
        i = i + 1;
    }
    None
}

/// The icon shown for a battery state.
pub open spec fn spec_battery_icon(status: Seq<char>, percent: u32) -> Seq<char> {
    if status == "Charging"@ {
        "\u{f0084}"@
    } else if status == "Full"@ {
        "\u{f0079}"@
    } else if percent >= 90 {
        "\u{f0079}"@
    } else if percent >= 70 {
        "\u{f0080}"@
    } else if percent >= 50 {
        "\u{f007e}"@
    } else if percent >= 30 {
        "\u{f007c}"@
    } else if percent >= 10 {
        "\u{f007a}"@
    } else {
        "\u{f008e}"@
    }
}

/// Battery level icon: a charging bolt while charging, the full glyph when
/// full, otherwise one of six fill levels by percentage.
pub fn get_battery_icon(status: &str, percent: u32) -> (r: &'static str)
    ensures
        r@ == spec_battery_icon(status@, percent),
{
    if str_eq(status, "Charging") {
        "\u{f0084}"
    } else if str_eq(status, "Full") {
        "\u{f0079}"
    } else if percent >= 90 {
        "\u{f0079}"
    } else if percent >= 70 {
        "\u{f0080}"
    } else if percent >= 50 {
        "\u{f007e}"
    } else if percent >= 30 {
        "\u{f007c}"
    } else if percent >= 10 {
        "\u{f007a}"
    } else {
        "\u{f008e}"
    }
}

/// Battery health in percent: the full-charge capacity against the design
/// capacity, zero when the design capacity is unknown, capped at the
/// integer ceiling.
pub fn battery_health(current_full: u64, design_full: u64) -> (r: u32)
    ensures
        design_full == 0 ==> r == 0,
        design_full > 0 ==> r as int == (if current_full * 100 / (design_full as int) <= u32::MAX {
            current_full * 100 / (design_full as int)
        } else {
            u32::MAX as int
        }),
{
    if design_full == 0 {
        return 0;
    }
    let wide: u128 = (current_full as u128) * 100 / (design_full as u128);
    proof {
        assert((current_full as u128) * 100 == (current_full as int) * 100) by (nonlinear_arith)
            requires
                current_full <= u64::MAX,
        ;
    }
    if wide > 0xFFFF_FFFF {
        u32::MAX
    } else {
        wide as u32
    }
}

/// Remaining (or to-full) time split into whole hours and leftover minutes:
/// the charge to move divided by the current drain rate.
pub fn battery_time_parts(charge: u64, rate: u64) -> (r: (u64, u64))
    requires
        rate > 0,
    ensures
        r.0 == charge / rate,
        r.1 == (charge % rate) * 60 / (rate as int),
{
    let hours = charge / rate;
    let rem = charge % rate;
    let minutes_wide: u128 = (rem as u128) * 60 / (rate as u128);
    proof {
        assert((rem as u128) * 60 == (rem as int) * 60) by (nonlinear_arith)
            requires
                rem <= u64::MAX,
        ;
        assert((rem as int) * 60 / (rate as int) < 0x1_0000_0000_0000_0000) by (nonlinear_arith)
            requires
                0 < rate <= u64::MAX && 0 <= rem < rate,
        ;
    }
    let minutes = minutes_wide as u64;
    (hours, minutes)
}

} // verus!
