//! Plaintext decoding: structure is recovered when a cheap check suggests it,
//! otherwise the text is taken as a plain string.
use vstd::prelude::*;
use crate::codec::{
    ini_from_text, ini_of_text, json_from_text, json_of_text, lossy_text, string_value,
    text_value, utf8_lossy, yaml_from_text, yaml_of_text,
};
use crate::text::{
    any_nonspace, begins_with, contains, ends_with, finishes_with, first_occ, has_nonspace,
    lines, spec_lines, starts_with, strings_view, trim_start, trimmed_start,
};

verus! {

/// Index of the first `c` in `s` at or after `i`, or `s.len()`.
pub open spec fn first_index_of(s: Seq<char>, c: char, i: int) -> int
    decreases s.len() - i,
{
    if i < 0 || i >= s.len() {
        s.len() as int
    } else if s[i] == c {
        i
    } else {
        first_index_of(s, c, i + 1)
    }
}

/// Whether a line reads as `key=value` with something on both sides of its first `=`.
pub open spec fn is_assignment(l: Seq<char>) -> bool {
    let k = first_index_of(l, '=', 0);
    0 <= k < l.len() && has_nonspace(l.subrange(0, k)) && has_nonspace(l.subrange(k + 1, l.len() as int))
}

/// Whether one line looks like a YAML/TOML mapping entry or list item.
pub open spec fn line_looks_structured(line: Seq<char>) -> bool {
    let l = trimmed_start(line);
    begins_with(l, "- "@) || begins_with(l, "["@) || first_occ(l, ": "@) is Some
        || finishes_with(l, ":"@) || is_assignment(l)
}

/// The cheap check: the text starts like a JSON or YAML document, or one of its
/// lines looks like a mapping entry or list item.
pub open spec fn looks_structured(s: Seq<char>) -> bool {
    let t = trimmed_start(s);
    begins_with(t, "{"@) || begins_with(t, "["@) || begins_with(t, "---"@) || exists|i: int|
        0 <= i < spec_lines(t).len() && line_looks_structured(#[trigger] spec_lines(t)[i])
}

/// The first structured decoder (JSON, then YAML, then INI) that accepts the text.
pub open spec fn structured_value(s: Seq<char>) -> Option<serde_json::Value> {
    if json_of_text(s) is Some {
        json_of_text(s)
    } else if yaml_of_text(s) is Some {
        yaml_of_text(s)
    } else {
        ini_of_text(s)
    }
}

/// What a plaintext record decodes to: the structured reading when the check
/// fires and some decoder accepts the text, the text as a string otherwise.
pub open spec fn plaintext_value(s: Seq<char>) -> serde_json::Value {
    if looks_structured(s) && structured_value(s) is Some {
        structured_value(s).unwrap()
    } else {
        text_value(s)
    }
}

/// Whether the line reads as `key=value`.
fn assignment(l: &str) -> (r: bool)
    ensures
        r == is_assignment(l@),
{
    let n = l.unicode_len();
    let mut k: usize = 0;
    while k < n && l.get_char(k) != '='
        invariant
            n == l@.len(),
            k <= n,
            first_index_of(l@, '=', 0) == first_index_of(l@, '=', k as int),
        decreases n - k,
    {
        k = k + 1;
    }
    if k == n {
        return false;
    }
    any_nonspace(l.substring_char(0, k)) && any_nonspace(l.substring_char(k + 1, n))
}

/// Whether one line looks like a mapping entry or list item.
fn line_structured(line: &str) -> (r: bool)
    ensures
        r == line_looks_structured(line@),
{
    let l = trim_start(line);
    starts_with(l, "- ") || starts_with(l, "[") || contains(l, ": ") || ends_with(l, ":")
        || assignment(l)
}

/// The cheap check for structure in a text.
pub fn looks_like_structured(s: &str) -> (r: bool)
    ensures
        r == looks_structured(s@),
{
    let t = trim_start(s);
    if starts_with(t, "{") || starts_with(t, "[") || starts_with(t, "---") {
        return true;
    }
    let ls = lines(t);
    let mut i: usize = 0;
    while i < ls.len()
        invariant
            strings_view(ls@) == spec_lines(t@),
            t@ == trimmed_start(s@),
            !(begins_with(t@, "{"@) || begins_with(t@, "["@) || begins_with(t@, "---"@)),
            forall|j: int| 0 <= j < i ==> !line_looks_structured(#[trigger] spec_lines(t@)[j]),
        decreases ls.len() - i,
    {
        assert(strings_view(ls@)[i as int] == ls@[i as int]@);
        if line_structured(ls[i].as_str()) {
            return true;
        }
        i = i + 1;
    }
    false
}

/// The structured reading of a text: `None` when the cheap check does not
/// fire, else the first structured decoder's result that accepts it.
pub open spec fn spec_try_structured(s: Seq<char>) -> Option<serde_json::Value> {
    if looks_structured(s) {
        structured_value(s)
    } else {
        None
    }
}

/// Tries the structured decoders (JSON, then YAML, then INI) on a text that
/// passes the cheap check.
pub fn try_decode_structured(s: &str) -> (r: Option<serde_json::Value>)
    ensures
        r == spec_try_structured(s@),
{
    if !looks_like_structured(s) {
        return None;
    }
    if let Ok(v) = json_from_text(s) {
        return Some(v);
    }
    if let Ok(v) = yaml_from_text(s) {
        return Some(v);
    }
    match ini_from_text(s) {
        Ok(v) => Some(v),
        Err(_) => None,
    }
}

/// Decodes one plaintext record.
pub fn decode_plaintext_text(s: &str) -> (r: serde_json::Value)
    ensures
        r == plaintext_value(s@),
{
    match try_decode_structured(s) {
        Some(v) => v,
        None => string_value(String::from_str(s)),
    }
}

/// Decodes a whole plaintext buffer as one record.
pub fn decode_plaintext(b: &[u8]) -> (r: serde_json::Value)
    ensures
        r == plaintext_value(lossy_text(b@)),
{
    let s = utf8_lossy(b);
    decode_plaintext_text(s.as_str())
}

/// The records of a plaintext buffer: one per line, each decoded on its own.
pub open spec fn plaintext_records(b: Seq<u8>) -> Seq<serde_json::Value> {
    spec_lines(lossy_text(b)).map_values(|l: Seq<char>| plaintext_value(l))
}

/// Decodes a plaintext buffer line by line.
pub fn decode_plaintext_lines(b: &[u8]) -> (r: Vec<serde_json::Value>)
    ensures
        r@ == plaintext_records(b@),
{
    let s = utf8_lossy(b);
    let ls = lines(s.as_str());
    let mut out: Vec<serde_json::Value> = Vec::new();
    let mut i: usize = 0;
    while i < ls.len()
        invariant
            strings_view(ls@) == spec_lines(s@),
            s@ == lossy_text(b@),
            i <= ls@.len(),
            out@ == plaintext_records(b@).subrange(0, i as int),
        decreases ls.len() - i,
    {
        assert(strings_view(ls@)[i as int] == ls@[i as int]@);
        out.push(decode_plaintext_text(ls[i].as_str()));
        assert(out@ =~= plaintext_records(b@).subrange(0, i + 1));
        i = i + 1;
    }
    assert(out@ =~= plaintext_records(b@));
    out
}

} // verus!
