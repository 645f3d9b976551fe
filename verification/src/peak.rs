//! Peak loudness metering: decoding of raw interleaved 16-bit little-endian
//! samples, the integer core of the root-mean-square computation, and the
//! decayed running-maximum level that drives the visual meter.

use vstd::prelude::*;

verus! {

/// Amount subtracted from the level on every decay tick.
pub const DECAY_STEP: u8 = 3;

/// Value of a 16-bit little-endian sample: the two bytes read as an unsigned
/// word, then interpreted in two's complement.
pub open spec fn spec_sample_value(lo: u8, hi: u8) -> int {
    let unsigned = lo + 256 * hi;
    if unsigned >= 32768 {
        unsigned - 65536
    } else {
        unsigned as int
    }
}

/// Decode one 16-bit signed little-endian sample from its two bytes.
pub fn sample_from_le_bytes(lo: u8, hi: u8) -> (r: i16)
    ensures
        r as int == spec_sample_value(lo, hi),
{
    let word: u32 = (lo as u32) + 256 * (hi as u32);
    let sv: i32 = if word >= 32768 {
        word as i32 - 65536
    } else {
        word as i32
    };
    sv as i16
}

/// The samples held by a byte buffer: one per aligned pair of bytes, in
/// order; a trailing odd byte carries no sample.
pub open spec fn spec_samples_of_bytes(data: Seq<u8>) -> Seq<int> {
    Seq::new(data.len() / 2, |i: int| spec_sample_value(data[2 * i], data[2 * i + 1]))
}

/// Decode a buffer of interleaved 16-bit little-endian samples.
pub fn samples_of_bytes(data: &Vec<u8>) -> (r: Vec<i16>)
    ensures
        r@.len() == data@.len() / 2,
        forall|i: int| 0 <= i < r@.len() ==> r@[i] as int == spec_samples_of_bytes(data@)[i],
{
    let n = data.len() / 2;
    proof {
        vstd::arithmetic::div_mod::lemma_fundamental_div_mod(data@.len() as int, 2);
        vstd::arithmetic::div_mod::lemma_mod_bound(data@.len() as int, 2);
    }
    let mut out: Vec<i16> = Vec::new();
    let mut i: usize = 0;
    while i < n
        invariant
            n == data@.len() / 2,
            2 * (n as int) <= data@.len(),
            data@.len() <= usize::MAX,
            i <= n,
            out@.len() == i,
            forall|j: int| 0 <= j < i ==> out@[j] as int == spec_samples_of_bytes(data@)[j],
        decreases n - i,
    {
        let s = sample_from_le_bytes(data[2 * i], data[2 * i + 1]);
        out.push(s);
        i = i + 1;
    }
    out
}

/// Sum of the squares of the first `n` samples.
pub open spec fn spec_sum_squares(samples: Seq<int>, n: int) -> int
    decreases n,
{
    if n <= 0 {
        0
    } else {
        spec_sum_squares(samples, n - 1) + samples[n - 1] * samples[n - 1]
    }
}

/// Sum of the squares of the samples: the integer heart of the
/// root-mean-square loudness estimate. The square root, the normalization
/// against the reference level and the sub-linear compression act on this
/// sum and the sample count.
pub fn sum_of_squares(samples: &Vec<i16>) -> (r: u64)
    requires
        samples@.len() <= 0xFFFF_FFFF,
    ensures
        r == spec_sum_squares(samples@.map(|i: int, s: i16| s as int), samples@.len() as int),
{
    let ghost vals = samples@.map(|i: int, s: i16| s as int);
    let mut sum: u64 = 0;
    let mut i: usize = 0;
    while i < samples.len()
        invariant
            i <= samples@.len(),
            samples@.len() <= 0xFFFF_FFFF,
            vals == samples@.map(|i: int, s: i16| s as int),
            sum == spec_sum_squares(vals, i as int),
            sum <= i * 0x4000_0000,
        decreases samples@.len() - i,
    {
        let s = samples[i];
        let si: i64 = s as i64;
        proof {
            assert(si * si <= 0x4000_0000 && 0 <= si * si) by (nonlinear_arith)
                requires
                    -32768 <= si <= 32767,
            ;
        }
        let sq: u64 = (si * si) as u64;
        proof {
            assert(sq == vals[i as int] * vals[i as int]);
        }
        sum = sum + sq;
        i = i + 1;
    }
    sum
}

/// Name of the monitor source attached to an output device: the device name
/// with the `.monitor` suffix.
pub fn monitor_source_name(device_name: &str) -> (r: String)
    ensures
        r@ == device_name@ + ".monitor"@,
{
    let mut out = device_name.to_owned();
    out.append(".monitor");
    out
}

/// A decayed running maximum of observed loudness, 0 to 100: new peaks raise
/// it at once, and a fixed-period decay tick lets it fall smoothly between
/// peaks instead of stepping to zero.
pub struct PeakLevelMonitor {
    /// Current level shown by the meter.
    pub level: u8,
}

impl PeakLevelMonitor {
    /// The level never leaves the meter's 0 to 100 scale.
    pub open spec fn wf(&self) -> bool {
        self.level <= 100
    }

    /// A fresh monitor is silent.
    pub fn new() -> (r: PeakLevelMonitor)
        ensures
            r.wf(),
            r.level == 0,
    {
        PeakLevelMonitor { level: 0 }
    }

    /// Raise the level to a newly observed peak where it exceeds the current
    /// one; values beyond the scale are clamped to 100.
    pub fn observe(&mut self, peak: u8)
        requires
            old(self).wf(),
        ensures
            final(self).wf(),
            final(self).level == (if (if peak > 100 {
                100u8
            } else {
                peak
            }) > old(self).level {
                (if peak > 100 {
                    100u8
                } else {
                    peak
                })
            } else {
                old(self).level
            }),
    {
        let clamped: u8 = if peak > 100 {
            100
        } else {
            peak
        };
        if clamped > self.level {
            self.level = clamped;
        }
    }

    /// One decay tick: while the level is above zero it falls by exactly
    /// `DECAY_STEP` (stopping at zero), and once at zero it stays there —
    /// whether or not any audio arrived.
    pub fn decay_tick(&mut self)
        requires
            old(self).wf(),
        ensures
            final(self).wf(),
            old(self).level == 0 ==> final(self).level == 0,
            old(self).level > 0 ==> final(self).level == (if old(self).level >= DECAY_STEP {
                old(self).level - DECAY_STEP
            } else {
                0
            }),
            final(self).level <= old(self).level,
            old(self).level > 0 ==> final(self).level < old(self).level,
    {
        if self.level > 0 {
            self.level = self.level.saturating_sub(DECAY_STEP);
        }
    }

    /// Force the level to zero (no default device, or the monitor stream was
    /// torn down).
    pub fn reset(&mut self)
        ensures
            final(self).wf(),
            final(self).level == 0,
    {
        self.level = 0;
    }
}

/// Level after `k` decay ticks with no new audio.
pub open spec fn spec_decayed(level: int, k: nat) -> int
    decreases k,
{
    if k == 0 {
        level
    } else {
        let prev = spec_decayed(level, (k - 1) as nat);
        if prev == 0 {
            0
        } else if prev >= DECAY_STEP {
            prev - DECAY_STEP
        } else {
            0
        }
    }
}

/// With no new audio, repeated decay ticks take the level down by exactly
/// `DECAY_STEP` per tick until it reaches zero, and it then stays at zero:
/// after `k` ticks the level is `level - 3 k`, floored at zero.
pub proof fn lemma_decay_reaches_zero(level: int, k: nat)
    requires
        0 <= level <= 100,
    ensures
        spec_decayed(level, k) == (if level - k * 3 >= 0 {
            level - k * 3
        } else {
            0
        }),
    decreases k,
{
    if k > 0 {
        lemma_decay_reaches_zero(level, (k - 1) as nat);
    }
}

} // verus!
