//! The user's locale as the engine is told it: the OS locale name (such as
//! `en-US`) split into a lower-case language code and an upper-case country
//! code.
use vstd::prelude::*;
use vstd::string::StringExecFns;
use vstd::string::StrSliceExecFns;

verus! {

/// An ASCII letter in lower case; other characters unchanged.
pub open spec fn ascii_lower(c: char) -> char {
    if 'A' <= c && c <= 'Z' { ((c as u32) + 32) as char } else { c }
}

/// An ASCII letter in upper case; other characters unchanged.
pub open spec fn ascii_upper(c: char) -> char {
    if 'a' <= c && c <= 'z' { ((c as u32) - 32) as char } else { c }
}

/// `str::to_ascii_lowercase`: documented to map 'A'..='Z' to 'a'..='z' and to
/// leave every other character as it is.
#[verifier::external_body]
fn to_ascii_lowercase(s: &str) -> (r: String)
    ensures
        r@ == s@.map_values(|c: char| ascii_lower(c)),
{
    s.to_ascii_lowercase()
}

/// `str::to_ascii_uppercase`: documented to map 'a'..='z' to 'A'..='Z' and to
/// leave every other character as it is.
#[verifier::external_body]
fn to_ascii_uppercase(s: &str) -> (r: String)
    ensures
        r@ == s@.map_values(|c: char| ascii_upper(c)),
{
    s.to_ascii_uppercase()
}

/// The index of the first '-' of `s` at or after `from`, or the length of `s`.
pub open spec fn dash_at_or_after(s: Seq<char>, from: int) -> int
    decreases s.len() - from,
{
    if from >= s.len() {
        s.len() as int
    } else if s[from] == '-' {
        from
    } else {
        dash_at_or_after(s, from + 1)
    }
}

proof fn lemma_dash_bounds(s: Seq<char>, from: int)
    requires
        0 <= from <= s.len(),
    ensures
        from <= dash_at_or_after(s, from) <= s.len(),
    decreases s.len() - from,
{
    if from < s.len() && s[from] != '-' {
        lemma_dash_bounds(s, from + 1);
    }
}

/// The language part of a locale name: up to the first '-'.
pub open spec fn locale_language(s: Seq<char>) -> Seq<char> {
    s.subrange(0, dash_at_or_after(s, 0))
}

/// The country part of a locale name: between the first and the second '-',
/// empty when there is no '-'.
pub open spec fn locale_country(s: Seq<char>) -> Seq<char> {
    let d = dash_at_or_after(s, 0);
    if d >= s.len() {
        Seq::empty()
    } else {
        s.subrange(d + 1, dash_at_or_after(s, d + 1))
    }
}

fn find_dash(s: &str, from: usize) -> (i: usize)
    requires
        from <= s@.len(),
    ensures
        i == dash_at_or_after(s@, from as int),
{
    let len = s.unicode_len();
    let mut i = from;
    while i < len
        invariant
            len == s@.len(),
            from <= i <= len,
            dash_at_or_after(s@, i as int) == dash_at_or_after(s@, from as int),
        decreases len - i,
    {
        if s.get_char(i) == '-' {
            return i;
        }
        i = i + 1;
    }
    i
}

/// Splits a locale name into its language code in lower case and its country
/// code in upper case; the country is empty when the name has none. An empty
/// name gives nothing.
pub fn split_locale(name: &str) -> (r: Option<(String, String)>)
    ensures
        name@.len() == 0 ==> r.is_none(),
        name@.len() > 0 ==> (r matches Some((language, country))
            && language@ == locale_language(name@).map_values(|c: char| ascii_lower(c))
            && country@ == locale_country(name@).map_values(|c: char| ascii_upper(c))),
{
    let len = name.unicode_len();
    if len == 0 {
        return None;
    }
    let d = find_dash(name, 0);
    proof {
        lemma_dash_bounds(name@, 0);
    }
    let language = to_ascii_lowercase(name.substring_char(0, d));
    let country = if d >= len {
        String::new()
    } else {
        let e = find_dash(name, d + 1);
        proof {
            lemma_dash_bounds(name@, d + 1);
        }
        to_ascii_uppercase(name.substring_char(d + 1, e))
    };
    proof {
        if d >= len {
            assert(country@ =~= locale_country(name@).map_values(|c: char| ascii_upper(c)));
        }
    }
    Some((language, country))
}

} // verus!
