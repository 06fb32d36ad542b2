//! Markdown documents carry their data in a fenced code block.
use vstd::prelude::*;
use crate::codec::{
    decoded_as, json_from_text, json_of_text, json_pretty, json_pretty_of, lossy_text,
    string_value, text_value, utf8_lossy, yaml_from_text, yaml_of_text,
};
use crate::error::FormatError;
use crate::text::{find, first_occ, trim_end, trimmed_end};

verus! {

/// The body of the first code block fenced as "```" followed by `lang`: it
/// starts after the fence (and one line feed right after it), ends before the
/// next "```", and loses its trailing white space.
pub open spec fn code_block(c: Seq<char>, lang: Seq<char>) -> Option<Seq<char>> {
    let fence = "```"@ + lang;
    match first_occ(c, fence) {
        None => None,
        Some(st) => {
            let cs0 = st + fence.len();
            let cs = if cs0 < c.len() && c[cs0] == '\n' {
                cs0 + 1
            } else {
                cs0
            };
            let rem = c.subrange(cs, c.len() as int);
            match first_occ(rem, "```"@) {
                None => None,
                Some(e) => Some(trimmed_end(rem.subrange(0, e))),
            }
        },
    }
}

/// The body of the first code block fenced for `lang`, if the document has one.
pub fn extract_code_block(content: &str, lang: &str) -> (r: Option<String>)
    ensures
        match r {
            Some(b) => code_block(content@, lang@) == Some(b@),
            None => code_block(content@, lang@) is None,
        },
{
    let fence = String::from_str("```").concat(lang);
    let start = match find(content, fence.as_str()) {
        Some(i) => i,
        None => return None,
    };
    let n = content.unicode_len();
    let f = fence.as_str().unicode_len();
    proof {
        crate::text::lemma_first_occ_found(content@, fence@, 0);
    }
    let mut cs = start + f;
    if cs < n && content.get_char(cs) == '\n' {
        cs = cs + 1;
    }
    let rem = content.substring_char(cs, n);
    match find(rem, "```") {
        None => None,
        Some(e) => {
            proof {
                crate::text::lemma_first_occ_found(rem@, "```"@, 0);
            }
            Some(String::from_str(trim_end(rem.substring_char(0, e))))
        },
    }
}

/// What a markdown document decodes to: its JSON block, else its YAML block,
/// else the whole text as a string.
pub open spec fn markdown_value(s: Seq<char>) -> Option<serde_json::Value> {
    match code_block(s, "json"@) {
        Some(c) => json_of_text(c),
        None => match code_block(s, "yaml"@) {
            Some(c) => yaml_of_text(c),
            None => Some(text_value(s)),
        },
    }
}

/// Decodes a markdown document.
pub fn decode_markdown(b: &[u8]) -> (r: Result<serde_json::Value, FormatError>)
    ensures
        decoded_as(r, markdown_value(lossy_text(b@))),
{
    let s = utf8_lossy(b);
    if let Some(block) = extract_code_block(s.as_str(), "json") {
        return json_from_text(block.as_str());
    }
    if let Some(block) = extract_code_block(s.as_str(), "yaml") {
        return yaml_from_text(block.as_str());
    }
    Ok(string_value(s))
}

/// The bytes of "```json" and a line feed.
pub open spec fn json_fence_open() -> Seq<u8> {
    seq![96u8, 96u8, 96u8, 106u8, 115u8, 111u8, 110u8, 10u8]
}

/// The bytes of a line feed and "```".
pub open spec fn fence_close() -> Seq<u8> {
    seq![10u8, 96u8, 96u8, 96u8]
}

/// What encoding a value as markdown gives: its indented JSON in a JSON code block.
pub open spec fn markdown_bytes_of(v: serde_json::Value) -> Option<Seq<u8>> {
    match json_pretty_of(v) {
        Some(j) => Some(json_fence_open() + j + fence_close()),
        None => None,
    }
}

/// Encodes a value as markdown: its indented JSON inside a JSON code block.
pub fn encode_markdown(v: &serde_json::Value) -> (r: Result<Vec<u8>, FormatError>)
    ensures
        crate::codec::encoded_as(r, markdown_bytes_of(*v)),
{
    let json = json_pretty(v)?;
    let mut out: Vec<u8> = vec![96u8, 96u8, 96u8, 106u8, 115u8, 111u8, 110u8, 10u8];
    let mut i: usize = 0;
    while i < json.len()
        invariant
            out@ == json_fence_open() + json@.subrange(0, i as int),
            i <= json@.len(),
        decreases json.len() - i,
    {
        out.push(json[i]);
        assert(out@ =~= json_fence_open() + json@.subrange(0, i + 1));
        i = i + 1;
    }
    out.push(10u8);
    out.push(96u8);
    out.push(96u8);
    out.push(96u8);
    assert(out@ =~= json_fence_open() + json@ + fence_close());
    Ok(out)
}

} // verus!
