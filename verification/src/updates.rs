//! Pending-update counting for the updates widget: each package manager
//! reports one pending update per output line, so the count is the number
//! of newlines in the captured output.

use vstd::prelude::*;

verus! {

/// Number of newline bytes among the first `n`.
pub open spec fn spec_count_newlines(b: Seq<u8>, n: int) -> int
    decreases n,
{
    if n <= 0 {
        0
    } else {
        spec_count_newlines(b, n - 1) + if b[n - 1] == 10 {
            1int
        } else {
            0int
        }
    }
}

/// Count the output lines of an update check: one pending update is
/// reported per newline-terminated line.
pub fn count_newlines(out: &Vec<u8>) -> (r: u32)
    requires
        out@.len() <= 0xFFFF_FFFF,
    ensures
        r == spec_count_newlines(out@, out@.len() as int),
{
    let mut count: u32 = 0;
    let mut i: usize = 0;
    while i < out.len()
        invariant
            i <= out@.len(),
            out@.len() <= 0xFFFF_FFFF,
            count == spec_count_newlines(out@, i as int),
            count <= i,
        decreases out@.len() - i,
    {
        if out[i] == 10 {
            count = count + 1;
        }
        i = i + 1;
    }
    count
}

/// What the updates widget renders.
pub struct Updates {
    /// Updates pending from the official repositories.
    pub official: u32,
    /// Updates pending from the user repositories.
    pub aur: u32,
    /// Both together.
    pub total: u32,
    /// Widget icon.
    pub icon: String,
}

/// Combine the two update counts into the widget record.
pub fn get_updates(official: u32, aur: u32) -> (r: Updates)
    requires
        official + aur <= u32::MAX,
    ensures
        r.official == official,
        r.aur == aur,
        r.total == official + aur,
        r.icon@ == "\u{ef}\u{192}\u{ad}"@,
{
    Updates { official, aur, total: official + aur, icon: "\u{ef}\u{192}\u{ad}".to_owned() }
}

} // verus!
