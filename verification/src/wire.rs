//! Framing of the socket protocol: exactly one newline terminates each
//! value; there is no length prefix. Outgoing payloads are checked to hold
//! no interior newline and get one appended; incoming bytes are split at
//! the first newline.

use vstd::prelude::*;

use crate::command::MixerError;

verus! {

/// Newline byte that terminates every framed value.
pub const NEWLINE: u8 = 10;

/// The bytes hold a newline somewhere.
pub open spec fn spec_has_newline(b: Seq<u8>) -> bool {
    exists|i: int| 0 <= i < b.len() && b[i] == 10
}

/// `i` is the position of the first newline.
pub open spec fn spec_is_first_newline(b: Seq<u8>, i: int) -> bool {
    &&& 0 <= i < b.len()
    &&& b[i] == 10
    &&& forall|j: int| 0 <= j < i ==> b[j] != 10
}

/// Frame one payload for the wire: a payload with an interior newline is
/// refused as a protocol error; otherwise exactly one newline is appended.
pub fn frame_line(payload: &Vec<u8>) -> (r: Result<Vec<u8>, MixerError>)
    ensures
        match r {
            Ok(framed) => !spec_has_newline(payload@) && framed@ == payload@.push(10u8),
            Err(e) => spec_has_newline(payload@) && e == MixerError::Protocol,
        },
{
    let mut out: Vec<u8> = Vec::new();
    let mut i: usize = 0;
    while i < payload.len()
        invariant
            i <= payload@.len(),
            out@ == payload@.take(i as int),
            forall|j: int| 0 <= j < i ==> payload@[j] != 10,
        decreases payload@.len() - i,
    {
        let b = payload[i];
        if b == NEWLINE {
            proof {
                assert(payload@[i as int] == 10);
            }
            return Err(MixerError::Protocol);
        }
        out.push(b);
        i = i + 1;
    }
    out.push(NEWLINE);
    proof {
        assert(payload@.take(payload@.len() as int) =~= payload@);
    }
    Ok(out)
}

/// Split the read buffer at its first newline: the complete line before it
/// and the remainder after it. With no newline yet, nothing is taken.
pub fn take_line(buf: &Vec<u8>) -> (r: Option<(Vec<u8>, Vec<u8>)>)
    ensures
        match r {
            Some(parts) => exists|i: int|
                {
                    &&& #[trigger] spec_is_first_newline(buf@, i)
                    &&& parts.0@ == buf@.take(i)
                    &&& parts.1@ == buf@.skip(i + 1)
                },
            None => !spec_has_newline(buf@),
        },
{
    let mut i: usize = 0;
    while i < buf.len()
        invariant
            i <= buf@.len(),
            forall|j: int| 0 <= j < i ==> buf@[j] != 10,
        decreases buf@.len() - i,
    {
        if buf[i] == NEWLINE {
            let mut line: Vec<u8> = Vec::new();
            let mut k: usize = 0;
            while k < i
                invariant
                    k <= i,
                    i < buf@.len(),
                    line@ == buf@.take(k as int),
                decreases i - k,
            {
                line.push(buf[k]);
                k = k + 1;
            }
            let mut rest: Vec<u8> = Vec::new();
            let mut m: usize = i + 1;
            while m < buf.len()
                invariant
                    i < buf@.len(),
                    i + 1 <= m <= buf@.len(),
                    rest@ == buf@.subrange(i + 1, m as int),
                decreases buf@.len() - m,
            {
                rest.push(buf[m]);
                proof {
                    assert(buf@.subrange(i + 1, m as int).push(buf@[m as int]) =~= buf@.subrange(
                        i + 1,
                        m + 1,
                    ));
                }
                m = m + 1;
            }
            proof {
                assert(spec_is_first_newline(buf@, i as int));
                assert(rest@ =~= buf@.skip(i + 1));
            }
            return Some((line, rest));
        }
        i = i + 1;
    }
    None
}

} // verus!
