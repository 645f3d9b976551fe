//! Keyboard-layout widget helpers: reducing a layout's display name to a
//! two-letter country code, and rendering that code as a regional-indicator
//! flag.

use vstd::prelude::*;
use vstd::string::{StrSliceExecFns, StringExecFns};

use crate::text::{
    contains_str, is_ascii_alpha, lower_of, spec_contains, spec_is_ascii_alpha, str_eq, to_lower,
    char_to_string,
};

verus! {

/// The country code chosen for a lowercased layout name: its first two
/// letters where they are ASCII, else the first language name recognized in
/// it, else `us`.
pub open spec fn spec_layout_code(lower: Seq<char>) -> Seq<char> {
    if lower.len() >= 2 && spec_is_ascii_alpha(lower[0]) && spec_is_ascii_alpha(lower[1]) {
        seq![lower[0], lower[1]]
    } else if spec_contains(lower, "english"@) || spec_contains(lower, "us"@) {
        "us"@
    } else if spec_contains(lower, "ukrain"@) {
        "uk"@
    } else if spec_contains(lower, "russian"@) {
        "ru"@
    } else if spec_contains(lower, "german"@) {
        "de"@
    } else if spec_contains(lower, "french"@) {
        "fr"@
    } else if spec_contains(lower, "spanish"@) {
        "es"@
    } else if spec_contains(lower, "italian"@) {
        "it"@
    } else if spec_contains(lower, "polish"@) {
        "pl"@
    } else if spec_contains(lower, "portuguese"@) {
        "pt"@
    } else if spec_contains(lower, "dutch"@) {
        "nl"@
    } else if spec_contains(lower, "swedish"@) {
        "se"@
    } else if spec_contains(lower, "norwegian"@) {
        "no"@
    } else if spec_contains(lower, "danish"@) {
        "dk"@
    } else if spec_contains(lower, "finnish"@) {
        "fi"@
    } else if spec_contains(lower, "turkish"@) {
        "tr"@
    } else if spec_contains(lower, "arabic"@) {
        "sa"@
    } else if spec_contains(lower, "hebrew"@) {
        "il"@
    } else if spec_contains(lower, "greek"@) {
        "gr"@
    } else if spec_contains(lower, "japanese"@) {
        "jp"@
    } else if spec_contains(lower, "korean"@) {
        "kr"@
    } else if spec_contains(lower, "chinese"@) {
        "cn"@
    } else if spec_contains(lower, "belarusian"@) || spec_contains(lower, "belarus"@) {
        "by"@
    } else {
        "us"@
    }
}

/// Country code for an already lowercased layout name.
pub fn layout_code_of_lower(lower: &str) -> (r: String)
    ensures
        r@ == spec_layout_code(lower@),
{
    let n = lower.unicode_len();
    if n >= 2 {
        let c0 = lower.get_char(0);
        let c1 = lower.get_char(1);
        if is_ascii_alpha(c0) && is_ascii_alpha(c1) {
            let mut out = char_to_string(c0);
            let second = char_to_string(c1);
            out.append(second.as_str());
            proof {
                assert(out@ =~= seq![lower@[0], lower@[1]]);
            }
            return out;
        }
    }
    let r: &'static str = if contains_str(lower, "english") || contains_str(lower, "us") {
        "us"
    } else if contains_str(lower, "ukrain") {
        "uk"
    } else if contains_str(lower, "russian") {
        "ru"
    } else if contains_str(lower, "german") {
        "de"
    } else if contains_str(lower, "french") {
        "fr"
    } else if contains_str(lower, "spanish") {
        "es"
    } else if contains_str(lower, "italian") {
        "it"
    } else if contains_str(lower, "polish") {
        "pl"
    } else if contains_str(lower, "portuguese") {
        "pt"
    } else if contains_str(lower, "dutch") {
        "nl"
    } else if contains_str(lower, "swedish") {
        "se"
    } else if contains_str(lower, "norwegian") {
        "no"
    } else if contains_str(lower, "danish") {
        "dk"
    } else if contains_str(lower, "finnish") {
        "fi"
    } else if contains_str(lower, "turkish") {
        "tr"
    } else if contains_str(lower, "arabic") {
        "sa"
    } else if contains_str(lower, "hebrew") {
        "il"
    } else if contains_str(lower, "greek") {
        "gr"
    } else if contains_str(lower, "japanese") {
        "jp"
    } else if contains_str(lower, "korean") {
        "kr"
    } else if contains_str(lower, "chinese") {
        "cn"
    } else if contains_str(lower, "belarusian") || contains_str(lower, "belarus") {
        "by"
    } else {
        "us"
    };
    r.to_owned()
}

/// Country code extracted from a layout's display name, after Unicode
/// lowercasing.
pub fn get_layout_code(layout_name: &str) -> (r: String)
    ensures
        r@ == spec_layout_code(lower_of(layout_name@)),
{
    let lower = to_lower(layout_name);
    layout_code_of_lower(lower.as_str())
}

/// Language codes that differ from their country's flag code are remapped
/// first.
pub open spec fn spec_remap_code(code: Seq<char>) -> Seq<char> {
    if code == "uk"@ {
        "ua"@
    } else if code == "en"@ {
        "us"@
    } else if code == "ar"@ {
        "sa"@
    } else if code == "eng"@ {
        "us"@
    } else if code == "rus"@ {
        "ru"@
    } else if code == "he"@ {
        "il"@
    } else if code == "el"@ {
        "gr"@
    } else if code == "sv"@ {
        "se"@
    } else if code == "da"@ {
        "dk"@
    } else if code == "cs"@ {
        "cz"@
    } else if code == "et"@ {
        "ee"@
    } else if code == "sl"@ {
        "si"@
    } else if code == "sr"@ {
        "rs"@
    } else if code == "bs"@ {
        "ba"@
    } else if code == "sq"@ {
        "al"@
    } else if code == "vi"@ {
        "vn"@
    } else if code == "hi"@ {
        "in"@
    } else if code == "bn"@ {
        "bd"@
    } else if code == "ta"@ {
        "lk"@
    } else if code == "fa"@ {
        "ir"@
    } else if code == "ur"@ {
        "pk"@
    } else if code == "kk"@ {
        "kz"@
    } else if code == "ky"@ {
        "kg"@
    } else if code == "ka"@ {
        "ge"@
    } else if code == "hy"@ {
        "am"@
    } else if code == "be"@ {
        "by"@
    } else if code == "af"@ {
        "za"@
    } else if code == "my"@ {
        "mm"@
    } else if code == "km"@ {
        "kh"@
    } else if code == "lo"@ {
        "la"@
    } else if code == "ne"@ {
        "np"@
    } else {
        code
    }
}

/// Regional-indicator letter for a country-code letter, either case; `?`
/// for anything but an ASCII letter.
pub open spec fn spec_flag_char(c: char) -> char {
    if c == 'a' || c == 'A' {
        '\u{1f1e6}'
    } else if c == 'b' || c == 'B' {
        '\u{1f1e7}'
    } else if c == 'c' || c == 'C' {
        '\u{1f1e8}'
    } else if c == 'd' || c == 'D' {
        '\u{1f1e9}'
    } else if c == 'e' || c == 'E' {
        '\u{1f1ea}'
    } else if c == 'f' || c == 'F' {
        '\u{1f1eb}'
    } else if c == 'g' || c == 'G' {
        '\u{1f1ec}'
    } else if c == 'h' || c == 'H' {
        '\u{1f1ed}'
    } else if c == 'i' || c == 'I' {
        '\u{1f1ee}'
    } else if c == 'j' || c == 'J' {
        '\u{1f1ef}'
    } else if c == 'k' || c == 'K' {
        '\u{1f1f0}'
    } else if c == 'l' || c == 'L' {
        '\u{1f1f1}'
    } else if c == 'm' || c == 'M' {
        '\u{1f1f2}'
    } else if c == 'n' || c == 'N' {
        '\u{1f1f3}'
    } else if c == 'o' || c == 'O' {
        '\u{1f1f4}'
    } else if c == 'p' || c == 'P' {
        '\u{1f1f5}'
    } else if c == 'q' || c == 'Q' {
        '\u{1f1f6}'
    } else if c == 'r' || c == 'R' {
        '\u{1f1f7}'
    } else if c == 's' || c == 'S' {
        '\u{1f1f8}'
    } else if c == 't' || c == 'T' {
        '\u{1f1f9}'
    } else if c == 'u' || c == 'U' {
        '\u{1f1fa}'
    } else if c == 'v' || c == 'V' {
        '\u{1f1fb}'
    } else if c == 'w' || c == 'W' {
        '\u{1f1fc}'
    } else if c == 'x' || c == 'X' {
        '\u{1f1fd}'
    } else if c == 'y' || c == 'Y' {
        '\u{1f1fe}'
    } else if c == 'z' || c == 'Z' {
        '\u{1f1ff}'
    } else {
        '?'
    }
}

/// Regional-indicator letter for one country-code letter.
pub fn flag_char(c: char) -> (r: char)
    ensures
        r == spec_flag_char(c),
{
    match c {
        'a' | 'A' => '\u{1f1e6}',
        'b' | 'B' => '\u{1f1e7}',
        'c' | 'C' => '\u{1f1e8}',
        'd' | 'D' => '\u{1f1e9}',
        'e' | 'E' => '\u{1f1ea}',
        'f' | 'F' => '\u{1f1eb}',
        'g' | 'G' => '\u{1f1ec}',
        'h' | 'H' => '\u{1f1ed}',
        'i' | 'I' => '\u{1f1ee}',
        'j' | 'J' => '\u{1f1ef}',
        'k' | 'K' => '\u{1f1f0}',
        'l' | 'L' => '\u{1f1f1}',
        'm' | 'M' => '\u{1f1f2}',
        'n' | 'N' => '\u{1f1f3}',
        'o' | 'O' => '\u{1f1f4}',
        'p' | 'P' => '\u{1f1f5}',
        'q' | 'Q' => '\u{1f1f6}',
        'r' | 'R' => '\u{1f1f7}',
        's' | 'S' => '\u{1f1f8}',
        't' | 'T' => '\u{1f1f9}',
        'u' | 'U' => '\u{1f1fa}',
        'v' | 'V' => '\u{1f1fb}',
        'w' | 'W' => '\u{1f1fc}',
        'x' | 'X' => '\u{1f1fd}',
        'y' | 'Y' => '\u{1f1fe}',
        'z' | 'Z' => '\u{1f1ff}',
        _ => '?',
    }
}

/// A character an ASCII byte can hold.
pub open spec fn spec_is_ascii_char(c: char) -> bool {
    c <= '\u{007f}'
}

/// The flag (or keyboard fallback) rendered for a layout code: codes whose
/// language differs from the flag's country are remapped, a two-letter
/// ASCII code becomes its two regional-indicator letters, and anything
/// else is shown after a keyboard glyph.
pub open spec fn spec_code_to_flag(code: Seq<char>) -> Seq<char> {
    let m = spec_remap_code(code);
    if m.len() == 2 && spec_is_ascii_char(m[0]) && spec_is_ascii_char(m[1]) {
        seq![spec_flag_char(m[0]), spec_flag_char(m[1])]
    } else {
        "\u{2328}\u{fe0f} "@ + m
    }
}

/// Render a layout code as a flag, or after a keyboard glyph where no
/// two-letter ASCII code is left after remapping.
pub fn code_to_flag(code: String) -> (r: String)
    ensures
        r@ == spec_code_to_flag(code@),
{
    let remapped: String = if str_eq(code.as_str(), "uk") {
        "ua".to_owned()
    } else if str_eq(code.as_str(), "en") {
        "us".to_owned()
    } else if str_eq(code.as_str(), "ar") {
        "sa".to_owned()
    } else if str_eq(code.as_str(), "eng") {
        "us".to_owned()
    } else if str_eq(code.as_str(), "rus") {
        "ru".to_owned()
    } else if str_eq(code.as_str(), "he") {
        "il".to_owned()
    } else if str_eq(code.as_str(), "el") {
        "gr".to_owned()
    } else if str_eq(code.as_str(), "sv") {
        "se".to_owned()
    } else if str_eq(code.as_str(), "da") {
        "dk".to_owned()
    } else if str_eq(code.as_str(), "cs") {
        "cz".to_owned()
    } else if str_eq(code.as_str(), "et") {
        "ee".to_owned()
    } else if str_eq(code.as_str(), "sl") {
        "si".to_owned()
    } else if str_eq(code.as_str(), "sr") {
        "rs".to_owned()
    } else if str_eq(code.as_str(), "bs") {
        "ba".to_owned()
    } else if str_eq(code.as_str(), "sq") {
        "al".to_owned()
    } else if str_eq(code.as_str(), "vi") {
        "vn".to_owned()
    } else if str_eq(code.as_str(), "hi") {
        "in".to_owned()
    } else if str_eq(code.as_str(), "bn") {
        "bd".to_owned()
    } else if str_eq(code.as_str(), "ta") {
        "lk".to_owned()
    } else if str_eq(code.as_str(), "fa") {
        "ir".to_owned()
    } else if str_eq(code.as_str(), "ur") {
        "pk".to_owned()
    } else if str_eq(code.as_str(), "kk") {
        "kz".to_owned()
    } else if str_eq(code.as_str(), "ky") {
        "kg".to_owned()
    } else if str_eq(code.as_str(), "ka") {
        "ge".to_owned()
    } else if str_eq(code.as_str(), "hy") {
        "am".to_owned()
    } else if str_eq(code.as_str(), "be") {
        "by".to_owned()
    } else if str_eq(code.as_str(), "af") {
        "za".to_owned()
    } else if str_eq(code.as_str(), "my") {
        "mm".to_owned()
    } else if str_eq(code.as_str(), "km") {
        "kh".to_owned()
    } else if str_eq(code.as_str(), "lo") {
        "la".to_owned()
    } else if str_eq(code.as_str(), "ne") {
        "np".to_owned()
    } else {
        code
    };
    let n = remapped.as_str().unicode_len();
    if n == 2 {
        let c0 = remapped.as_str().get_char(0);
        let c1 = remapped.as_str().get_char(1);
        if c0 <= '\u{007f}' && c1 <= '\u{007f}' {
            let mut out = char_to_string(flag_char(c0));
            let second = char_to_string(flag_char(c1));
            out.append(second.as_str());
            proof {
                assert(out@ =~= spec_code_to_flag(code@));
            }
            return out;
        }
    }
    let mut out = "\u{2328}\u{fe0f} ".to_owned();
    out.append(remapped.as_str());
    out
}

} // verus!
