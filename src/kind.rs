//! The vocabulary of formats: a closed set of built-in kinds plus named custom kinds.
use vstd::prelude::*;
use crate::text::{begins_with, starts_with, text_eq};

verus! {

/// Identity of a codec: one of the built-in formats, or a custom format known by name.
#[derive(Debug, Clone)]
pub enum FormatKind {
    Json,
    Yaml,
    Toml,
    Csv,
    Xml,
    Ini,
    Markdown,
    Custom(String),
    Plaintext,
}

/// Mathematical model of a [`FormatKind`]: a custom kind is its name as characters.
pub enum KindModel {
    Json,
    Yaml,
    Toml,
    Csv,
    Xml,
    Ini,
    Markdown,
    Custom(Seq<char>),
    Plaintext,
}

impl View for FormatKind {
    type V = KindModel;

    open spec fn view(&self) -> KindModel {
        match self {
            FormatKind::Json => KindModel::Json,
            FormatKind::Yaml => KindModel::Yaml,
            FormatKind::Toml => KindModel::Toml,
            FormatKind::Csv => KindModel::Csv,
            FormatKind::Xml => KindModel::Xml,
            FormatKind::Ini => KindModel::Ini,
            FormatKind::Markdown => KindModel::Markdown,
            FormatKind::Custom(name) => KindModel::Custom(name@),
            FormatKind::Plaintext => KindModel::Plaintext,
        }
    }
}

impl PartialEq for FormatKind {
    fn eq(&self, other: &FormatKind) -> bool {
        match (self, other) {
            (FormatKind::Json, FormatKind::Json) => true,
            (FormatKind::Yaml, FormatKind::Yaml) => true,
            (FormatKind::Toml, FormatKind::Toml) => true,
            (FormatKind::Csv, FormatKind::Csv) => true,
            (FormatKind::Xml, FormatKind::Xml) => true,
            (FormatKind::Ini, FormatKind::Ini) => true,
            (FormatKind::Markdown, FormatKind::Markdown) => true,
            (FormatKind::Plaintext, FormatKind::Plaintext) => true,
            (FormatKind::Custom(a), FormatKind::Custom(b)) => a.eq(b),
            _ => false,
        }
    }
}

impl vstd::std_specs::cmp::PartialEqSpecImpl for FormatKind {
    open spec fn obeys_eq_spec() -> bool {
        true
    }

    open spec fn eq_spec(&self, other: &FormatKind) -> bool {
        self@ == other@
    }
}

impl Eq for FormatKind {

}

/// File extensions recognised for a kind; custom kinds keep theirs in the registry.
pub open spec fn spec_extensions(k: KindModel) -> Seq<Seq<char>> {
    match k {
        KindModel::Json => seq!["json"@],
        KindModel::Yaml => seq!["yaml"@, "yml"@],
        KindModel::Toml => seq!["toml"@],
        KindModel::Ini => seq!["ini"@],
        KindModel::Csv => seq!["csv"@],
        KindModel::Xml => seq!["xml"@],
        KindModel::Markdown => seq!["md"@, "markdown"@],
        KindModel::Plaintext => seq!["txt"@, "text"@],
        KindModel::Custom(_) => seq![],
    }
}

/// Whether a kind's codec is part of this build: every built-in but TOML, and every custom kind.
pub open spec fn spec_available(k: KindModel) -> bool {
    !(k is Toml)
}

/// Canonical display name of a kind; a custom kind shows its own name.
pub open spec fn spec_name(k: KindModel) -> Seq<char> {
    match k {
        KindModel::Json => "json"@,
        KindModel::Yaml => "yaml"@,
        KindModel::Toml => "toml"@,
        KindModel::Ini => "ini"@,
        KindModel::Csv => "csv"@,
        KindModel::Xml => "xml"@,
        KindModel::Markdown => "markdown"@,
        KindModel::Plaintext => "plaintext"@,
        KindModel::Custom(n) => n,
    }
}

/// The built-in kind that a lower-case alias names.
pub open spec fn alias_kind(l: Seq<char>) -> Option<KindModel> {
    if l == "json"@ {
        Some(KindModel::Json)
    } else if l == "yaml"@ || l == "yml"@ {
        Some(KindModel::Yaml)
    } else if l == "toml"@ {
        Some(KindModel::Toml)
    } else if l == "ini"@ {
        Some(KindModel::Ini)
    } else if l == "csv"@ {
        Some(KindModel::Csv)
    } else if l == "xml"@ {
        Some(KindModel::Xml)
    } else if l == "markdown"@ || l == "md"@ {
        Some(KindModel::Markdown)
    } else if l == "plaintext"@ || l == "text"@ || l == "txt"@ {
        Some(KindModel::Plaintext)
    } else {
        None
    }
}

/// What parsing a free-form format name gives: case-insensitive; `custom:<name>`
/// always names a custom kind (its name lower-cased), anything else must be an alias.
pub open spec fn spec_parse(s: Seq<char>) -> Option<KindModel> {
    let l = lower(s);
    if begins_with(l, "custom:"@) {
        Some(KindModel::Custom(l.subrange(7, l.len() as int)))
    } else {
        alias_kind(l)
    }
}

/// Model of an optional kind.
pub open spec fn opt_kind(k: Option<FormatKind>) -> Option<KindModel> {
    match k {
        Some(x) => Some(x@),
        None => None,
    }
}

/// The built-in kinds in default priority order.
pub open spec fn spec_default_order() -> Seq<KindModel> {
    seq![
        KindModel::Json,
        KindModel::Yaml,
        KindModel::Toml,
        KindModel::Ini,
        KindModel::Csv,
        KindModel::Xml,
        KindModel::Markdown,
        KindModel::Plaintext,
    ]
}

/// The structured text kinds, tried in this order when sniffing plaintext.
pub open spec fn spec_structured_formats() -> Seq<KindModel> {
    seq![KindModel::Json, KindModel::Yaml, KindModel::Toml, KindModel::Ini]
}

/// Models of a sequence of kinds.
pub open spec fn kinds_view(v: Seq<FormatKind>) -> Seq<KindModel> {
    v.map_values(|k: FormatKind| k@)
}

impl FormatKind {
    /// A custom kind with the given name.
    pub fn custom(name: &str) -> (r: FormatKind)
        ensures
            r@ == KindModel::Custom(name@),
    {
        FormatKind::Custom(String::from_str(name))
    }

    /// A copy of this kind.
    pub fn duplicate(&self) -> (r: FormatKind)
        ensures
            r@ == self@,
    {
        match self {
            FormatKind::Json => FormatKind::Json,
            FormatKind::Yaml => FormatKind::Yaml,
            FormatKind::Toml => FormatKind::Toml,
            FormatKind::Csv => FormatKind::Csv,
            FormatKind::Xml => FormatKind::Xml,
            FormatKind::Ini => FormatKind::Ini,
            FormatKind::Markdown => FormatKind::Markdown,
            FormatKind::Custom(n) => FormatKind::Custom(n.clone()),
            FormatKind::Plaintext => FormatKind::Plaintext,
        }
    }

    /// Whether two kinds denote the same codec.
    pub fn same_as(&self, other: &FormatKind) -> (r: bool)
        ensures
            r == (self@ == other@),
    {
        match (self, other) {
            (FormatKind::Json, FormatKind::Json) => true,
            (FormatKind::Yaml, FormatKind::Yaml) => true,
            (FormatKind::Toml, FormatKind::Toml) => true,
            (FormatKind::Csv, FormatKind::Csv) => true,
            (FormatKind::Xml, FormatKind::Xml) => true,
            (FormatKind::Ini, FormatKind::Ini) => true,
            (FormatKind::Markdown, FormatKind::Markdown) => true,
            (FormatKind::Plaintext, FormatKind::Plaintext) => true,
            (FormatKind::Custom(a), FormatKind::Custom(b)) => a.eq(b),
            _ => false,
        }
    }

    /// File extensions of a built-in kind; empty for a custom kind.
    pub fn extensions(&self) -> (r: Vec<&'static str>)
        ensures
            r@.map_values(|e: &str| e@) == spec_extensions(self@),
    {
        let r = match self {
            FormatKind::Json => vec!["json"],
            FormatKind::Yaml => vec!["yaml", "yml"],
            FormatKind::Toml => vec!["toml"],
            FormatKind::Ini => vec!["ini"],
            FormatKind::Csv => vec!["csv"],
            FormatKind::Xml => vec!["xml"],
            FormatKind::Markdown => vec!["md", "markdown"],
            FormatKind::Plaintext => vec!["txt", "text"],
            FormatKind::Custom(_) => vec![],
        };
        assert(r@.map_values(|e: &str| e@) =~= spec_extensions(self@));
        r
    }

    /// Whether this kind's codec is part of this build.
    pub fn is_available(&self) -> (r: bool)
        ensures
            r == spec_available(self@),
    {
        match self {
            FormatKind::Toml => false,
            _ => true,
        }
    }

    /// Canonical display name.
    pub fn name(&self) -> (r: String)
        ensures
            r@ == spec_name(self@),
    {
        match self {
            FormatKind::Json => String::from_str("json"),
            FormatKind::Yaml => String::from_str("yaml"),
            FormatKind::Toml => String::from_str("toml"),
            FormatKind::Ini => String::from_str("ini"),
            FormatKind::Csv => String::from_str("csv"),
            FormatKind::Xml => String::from_str("xml"),
            FormatKind::Markdown => String::from_str("markdown"),
            FormatKind::Plaintext => String::from_str("plaintext"),
            FormatKind::Custom(n) => n.clone(),
        }
    }
}

/// The built-in kind named by a lower-case alias.
fn alias_of(l: &str) -> (r: Option<FormatKind>)
    ensures
        opt_kind(r) == alias_kind(l@),
{
    if text_eq(l, "json") {
        Some(FormatKind::Json)
    } else if text_eq(l, "yaml") || text_eq(l, "yml") {
        Some(FormatKind::Yaml)
    } else if text_eq(l, "toml") {
        Some(FormatKind::Toml)
    } else if text_eq(l, "ini") {
        Some(FormatKind::Ini)
    } else if text_eq(l, "csv") {
        Some(FormatKind::Csv)
    } else if text_eq(l, "xml") {
        Some(FormatKind::Xml)
    } else if text_eq(l, "markdown") || text_eq(l, "md") {
        Some(FormatKind::Markdown)
    } else if text_eq(l, "plaintext") || text_eq(l, "text") || text_eq(l, "txt") {
        Some(FormatKind::Plaintext)
    } else {
        None
    }
}

/// Parses a format name: case-insensitive, `custom:<name>` or a built-in alias.
pub fn parse_format(s: &str) -> (r: Option<FormatKind>)
    ensures
        opt_kind(r) == spec_parse(s@),
{
    let l = ascii_lowercase(s);
    let ls = l.as_str();
    if starts_with(ls, "custom:") {
        let n = ls.unicode_len();
        let k = "custom:".unicode_len();
        assert("custom:"@.len() == 7) by {
            reveal_strlit("custom:");
        }
        let rest = ls.substring_char(k, n);
        return Some(FormatKind::Custom(String::from_str(rest)));
    }
    alias_of(ls)
}

/// The built-in kinds in default priority order.
pub fn default_format_order() -> (r: Vec<FormatKind>)
    ensures
        kinds_view(r@) == spec_default_order(),
{
    let r = vec![
        FormatKind::Json,
        FormatKind::Yaml,
        FormatKind::Toml,
        FormatKind::Ini,
        FormatKind::Csv,
        FormatKind::Xml,
        FormatKind::Markdown,
        FormatKind::Plaintext,
    ];
    assert(kinds_view(r@) =~= spec_default_order());
    r
}

/// The structured text kinds, in the order in which plaintext sniffing tries them.
pub fn structured_text_formats() -> (r: Vec<FormatKind>)
    ensures
        kinds_view(r@) == spec_structured_formats(),
{
    let r = vec![FormatKind::Json, FormatKind::Yaml, FormatKind::Toml, FormatKind::Ini];
    assert(kinds_view(r@) =~= spec_structured_formats());
    r
}

/// ASCII lower-casing of one character.
pub open spec fn lower_char(c: char) -> char {
    if 'A' <= c && c <= 'Z' {
        ((c as u8) + 32u8) as char
    } else {
        c
    }
}

/// ASCII lower-casing of a text.
pub open spec fn lower(s: Seq<char>) -> Seq<char> {
    s.map_values(|c: char| lower_char(c))
}

/// Lower-cases the ASCII letters of `s`, leaving every other character as it is.
pub fn ascii_lowercase(s: &str) -> (r: String)
    ensures
        r@ == lower(s@),
{
    let n = s.unicode_len();
    let mut out = String::new();
    let mut i: usize = 0;
    while i < n
        invariant
            n == s@.len(),
            i <= n,
            out@ == lower(s@.subrange(0, i as int)),
        decreases n - i,
    {
        let c = s.get_char(i);
        let l = if 'A' <= c && c <= 'Z' {
            ((c as u8) + 32u8) as char
        } else {
            c
        };
        out.push(l);
        proof {
            assert(s@.subrange(0, i + 1) == s@.subrange(0, i as int).push(c));
        }
        i = i + 1;
    }
    proof {
        assert(s@.subrange(0, n as int) == s@);
    }
    out
}

/// Relies on `String::push`, documented to append the given character to the end.
pub assume_specification[ String::push ](s: &mut String, ch: char)
    ensures
        final(s)@ == old(s)@.push(ch),
;

} // verus!
