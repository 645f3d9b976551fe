//! Conversion between the audio service's raw volume units and the percent
//! scale the daemon exposes. The service calls 65536 raw units "normal"
//! (100%); requested percentages are clamped to the 150% amplification
//! ceiling, and raw values read back from the service are rounded to the
//! nearest percent.

use vstd::prelude::*;

verus! {

/// Raw volume value that the audio service treats as 100%.
pub const VOLUME_NORMAL: u32 = 65536;

/// Highest percentage a volume request may ask for (service-level
/// amplification ceiling).
pub const VOLUME_MAX_PERCENT: u8 = 150;

/// Percentage clamped to the amplification ceiling.
pub open spec fn spec_clamp_percent(p: int) -> int {
    if p > 150 {
        150
    } else {
        p
    }
}

/// Raw units requested from the service for a percentage: floor of
/// `65536 * clamped / 100`.
pub open spec fn spec_raw_of_percent(p: int) -> int {
    65536 * spec_clamp_percent(p) / 100
}

/// Percent reported for a raw value: `raw / 65536 * 100`, rounded to the
/// nearest integer (halves up).
pub open spec fn spec_percent_of_raw(raw: int) -> int {
    (raw * 100 + 32768) / 65536
}

/// Raw service volume for a requested percentage, clamped to the ceiling.
pub fn raw_of_percent(percent: u8) -> (r: u32)
    ensures
        r == spec_raw_of_percent(percent as int),
{
    let p: u32 = if percent > VOLUME_MAX_PERCENT {
        150
    } else {
        percent as u32
    };
    (VOLUME_NORMAL * p) / 100
}

/// Percent shown for a raw service volume, saturated at 255 where a raw
/// value lies far beyond the ceiling.
pub fn percent_of_raw(raw: u32) -> (r: u8)
    ensures
        spec_percent_of_raw(raw as int) <= 255 ==> r == spec_percent_of_raw(raw as int),
        spec_percent_of_raw(raw as int) > 255 ==> r == 255,
{
    let wide: u64 = ((raw as u64) * 100 + 32768) / (VOLUME_NORMAL as u64);
    if wide > 255 {
        255
    } else {
        wide as u8
    }
}

/// Setting a volume to `p` percent and reading it straight back reports `p`
/// again: the floor in the request and the rounding in the report cancel for
/// every percentage the protocol admits.
pub proof fn lemma_volume_round_trip(p: int)
    requires
        0 <= p <= 150,
    ensures
        spec_percent_of_raw(spec_raw_of_percent(p)) == p,
{
    let q = 65536 * p;
    let raw = q / 100;
    vstd::arithmetic::div_mod::lemma_fundamental_div_mod(q, 100);
    vstd::arithmetic::div_mod::lemma_mod_bound(q, 100);
    assert(raw * 100 == q - q % 100);
    let d = 32768 - q % 100;
    assert(raw * 100 + 32768 == p * 65536 + d);
    vstd::arithmetic::div_mod::lemma_fundamental_div_mod_converse(raw * 100 + 32768, 65536, p, d);
}

} // verus!
