//! Music-widget helper: where a track's album art is cached. Remote art is
//! stored under a name derived from the URL's digest; local `file://` art
//! is used in place.

use vstd::prelude::*;
use vstd::string::{StrSliceExecFns, StringExecFns};

use crate::text::{spec_starts_with, strip_prefix_str};

verus! {

/// What the lowercase-hex MD5 digest of a character sequence's UTF-8 bytes
/// reads as.
pub uninterp spec fn md5_hex_of(s: Seq<char>) -> Seq<char>;

/// Relies on md5::compute and the digest's lowercase-hex rendering: a pure
/// function of the input bytes, written as two hex digits per digest byte,
/// 32 characters in all.
#[verifier::external_body]
fn md5_hex(s: &str) -> (r: String)
    ensures
        r@ == md5_hex_of(s@),
        r@.len() == 32,
{
    format!("{:x}", md5::compute(s.as_bytes()))
}

/// Cache file name (or local path) for a track's album art: nothing for an
/// empty URL, the bare path for local `file://` art, and the URL digest
/// with a `.jpg` suffix for anything else.
pub fn album_art_filename(url: &str) -> (r: Option<String>)
    ensures
        match r {
            None => url@.len() == 0,
            Some(name) => url@.len() > 0 && {
                if spec_starts_with(url@, "file://"@) {
                    name@ == url@.skip("file://"@.len() as int)
                } else {
                    name@ == md5_hex_of(url@) + ".jpg"@
                }
            },
        },
{
    if url.unicode_len() == 0 {
        return None;
    }
    match strip_prefix_str(url, "file://") {
        Some(path) => Some(path.to_owned()),
        None => {
            let mut name = md5_hex(url);
            name.append(".jpg");
            Some(name)
        },
    }
}

} // verus!
