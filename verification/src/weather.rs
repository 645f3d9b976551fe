//! Weather-widget helpers: choosing the glyph for a reported condition and
//! splitting the `temperature|condition|icon` report line.

use vstd::prelude::*;
use vstd::string::StrSliceExecFns;

use crate::text::{contains_str, lower_of, spec_contains, to_lower};

verus! {

/// The glyph for a lowercased condition text and raw icon: the first
/// matching weather family, else the overcast glyph.
pub open spec fn spec_weather_icon(cond: Seq<char>, icon: Seq<char>) -> Seq<char> {
    if spec_contains(cond, "sunny"@) || spec_contains(cond, "clear"@) || spec_contains(
        icon,
        "\u{2600}"@,
    ) {
        "\u{f0599}"@
    } else if spec_contains(cond, "partly"@) || spec_contains(cond, "cloudy"@) || spec_contains(
        icon,
        "\u{26c5}"@,
    ) {
        "\u{f0595}"@
    } else if spec_contains(cond, "overcast"@) || spec_contains(icon, "\u{2601}"@) {
        "\u{f0590}"@
    } else if spec_contains(cond, "rain"@) || spec_contains(cond, "drizzle"@) || spec_contains(
        icon,
        "\u{1f327}"@,
    ) {
        "\u{f0597}"@
    } else if spec_contains(cond, "thunder"@) || spec_contains(cond, "storm"@) || spec_contains(
        icon,
        "\u{26c8}"@,
    ) {
        "\u{f067e}"@
    } else if spec_contains(cond, "snow"@) || spec_contains(icon, "\u{1f328}"@) {
        "\u{f0598}"@
    } else if spec_contains(cond, "fog"@) || spec_contains(cond, "mist"@) || spec_contains(
        icon,
        "\u{1f32b}"@,
    ) {
        "\u{f0591}"@
    } else {
        "\u{f0590}"@
    }
}

/// Widget glyph for an already lowercased condition text and icon.
pub fn weather_icon_of_lower(cond: &str, icon: &str) -> (r: String)
    ensures
        r@ == spec_weather_icon(cond@, icon@),
{
    let glyph: &'static str = if contains_str(cond, "sunny") || contains_str(cond, "clear")
        || contains_str(icon, "\u{2600}") {
        "\u{f0599}"
    } else if contains_str(cond, "partly") || contains_str(cond, "cloudy") || contains_str(
        icon,
        "\u{26c5}",
    ) {
        "\u{f0595}"
    } else if contains_str(cond, "overcast") || contains_str(icon, "\u{2601}") {
        "\u{f0590}"
    } else if contains_str(cond, "rain") || contains_str(cond, "drizzle") || contains_str(
        icon,
        "\u{1f327}",
    ) {
        "\u{f0597}"
    } else if contains_str(cond, "thunder") || contains_str(cond, "storm") || contains_str(
        icon,
        "\u{26c8}",
    ) {
        "\u{f067e}"
    } else if contains_str(cond, "snow") || contains_str(icon, "\u{1f328}") {
        "\u{f0598}"
    } else if contains_str(cond, "fog") || contains_str(cond, "mist") || contains_str(
        icon,
        "\u{1f32b}",
    ) {
        "\u{f0591}"
    } else {
        "\u{f0590}"
    };
    glyph.to_owned()
}

/// Widget glyph for a reported condition and raw icon, compared after
/// Unicode lowercasing.
pub fn get_icon_from_condition(condition: &str, icon_raw: &str) -> (r: String)
    ensures
        r@ == spec_weather_icon(lower_of(condition@), lower_of(icon_raw@)),
{
    let cond = to_lower(condition);
    let icon = to_lower(icon_raw);
    weather_icon_of_lower(cond.as_str(), icon.as_str())
}

/// Positions of the separators in a report line.
pub open spec fn spec_is_separator_split(s: Seq<char>, i: int, j: int) -> bool {
    &&& 0 <= i < j < s.len()
    &&& s[i] == '|'
    &&& s[j] == '|'
    &&& forall|k: int| 0 <= k < j && k != i ==> s[k] != '|'
}

/// Split a `temperature|condition|icon` report line at its first two `|`
/// separators. Nothing is returned unless at least two separators exist;
/// with exactly two, the three fields are the text between them.
pub fn split_weather_line(line: &str) -> (r: Option<(String, String, String)>)
    ensures
        match r {
            Some(parts) => exists|i: int, j: int|
                {
                    &&& #[trigger] spec_is_separator_split(line@, i, j)
                    &&& parts.0@ == line@.subrange(0, i)
                    &&& parts.1@ == line@.subrange(i + 1, j)
                    &&& parts.2@ == line@.skip(j + 1)
                },
            None => !(exists|i: int, j: int|
                0 <= i < j < line@.len() && line@[i] == '|' && line@[j] == '|'),
        },
{
    let n = line.unicode_len();
    let mut first: usize = 0;
    let mut found_first = false;
    let mut second: usize = 0;
    let mut found_second = false;
    let mut k: usize = 0;
    while k < n
        invariant
            n == line@.len(),
            k <= n,
            found_second ==> found_first,
            found_first ==> first < k && line@[first as int] == '|' && forall|t: int|
                0 <= t < first ==> line@[t] != '|',
            !found_first ==> forall|t: int| 0 <= t < k ==> line@[t] != '|',
            found_second ==> first < second < k && line@[second as int] == '|',
            found_first && !found_second ==> forall|t: int|
                first < t < k ==> line@[t] != '|',
            found_second ==> forall|t: int|
                first < t < second ==> line@[t] != '|',
        decreases n - k,
    {
        if !found_second && line.get_char(k) == '|' {
            if !found_first {
                first = k;
                found_first = true;
            } else {
                second = k;
                found_second = true;
            }
        }
        k = k + 1;
    }
    if !found_second {
        proof {
            if !found_first {
                assert(forall|t: int| 0 <= t < line@.len() ==> line@[t] != '|');
            }
        }
        return None;
    }
    let temp = line.substring_char(0, first).to_owned();
    let cond = line.substring_char(first + 1, second).to_owned();
    let icon = line.substring_char(second + 1, n).to_owned();
    proof {
        assert(spec_is_separator_split(line@, first as int, second as int));
        assert(icon@ =~= line@.skip(second + 1));
    }
    Some((temp, cond, icon))
}

} // verus!
