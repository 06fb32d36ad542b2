//! Command-line token handling: splitting repeatable values, normalising
//! input and output tokens, and format names and paths.
//!
//! Tokens: `-` or `stdin` is standard input, `=<content>` is inline content,
//! `@<path>` forces a path; for outputs `-` or `stdout`, `stderr`, `@<path>`.
use vstd::prelude::*;
pub use crate::kind::parse_format;
use crate::kind::{FormatKind, ascii_lowercase, lower, opt_kind, spec_parse};
use crate::text::{begins_with, starts_with, strings_view, text_eq, trim_end, trim_start, trimmed_end, trimmed_start};

verus! {

/// The scanner's state while splitting: finished tokens, the token being
/// built, the open quote if any, and the nesting depths of `{}`, `[]`, `()`.
pub struct SplitState {
    pub tokens: Seq<Seq<char>>,
    pub buf: Seq<char>,
    pub quote: Option<char>,
    pub brace: nat,
    pub bracket: nat,
    pub paren: nat,
}

/// `s` without white space at either end.
pub open spec fn trimmed(s: Seq<char>) -> Seq<char> {
    trimmed_end(trimmed_start(s))
}

/// The tokens with the buffer's trimmed text added, unless it is empty.
pub open spec fn flush(tokens: Seq<Seq<char>>, buf: Seq<char>) -> Seq<Seq<char>> {
    if trimmed(buf).len() > 0 {
        tokens.push(trimmed(buf))
    } else {
        tokens
    }
}

/// One less, but not below zero.
pub open spec fn dec(n: nat) -> nat {
    if n > 0 {
        (n - 1) as nat
    } else {
        0
    }
}

/// How many characters the scanner consumes at `i`: two for an escape that
/// takes the next character with it, otherwise one.
pub open spec fn step_len(s: Seq<char>, st: SplitState, i: int) -> int {
    if st.quote is Some {
        if s[i] == '\\' && i + 1 < s.len() {
            2
        } else {
            1
        }
    } else if s[i] == '\\' && i + 1 < s.len() && s[i + 1] == ',' {
        2
    } else {
        1
    }
}

/// The scanner's state after the character(s) at `i`.
pub open spec fn step(s: Seq<char>, st: SplitState, i: int) -> SplitState {
    let c = s[i];
    match st.quote {
        Some(q) => if c == '\\' {
            if i + 1 < s.len() {
                SplitState { buf: st.buf.push(c).push(s[i + 1]), ..st }
            } else {
                SplitState { buf: st.buf.push(c), ..st }
            }
        } else {
            SplitState { buf: st.buf.push(c), quote: if c == q { None } else { Some(q) }, ..st }
        },
        None => if c == '"' || c == '\'' {
            SplitState { quote: Some(c), buf: st.buf.push(c), ..st }
        } else if c == '\\' {
            if i + 1 < s.len() && s[i + 1] == ',' {
                SplitState { buf: st.buf.push(','), ..st }
            } else {
                SplitState { buf: st.buf.push('\\'), ..st }
            }
        } else if c == '{' {
            SplitState { brace: st.brace + 1, buf: st.buf.push(c), ..st }
        } else if c == '}' {
            SplitState { brace: dec(st.brace), buf: st.buf.push(c), ..st }
        } else if c == '[' {
            SplitState { bracket: st.bracket + 1, buf: st.buf.push(c), ..st }
        } else if c == ']' {
            SplitState { bracket: dec(st.bracket), buf: st.buf.push(c), ..st }
        } else if c == '(' {
            SplitState { paren: st.paren + 1, buf: st.buf.push(c), ..st }
        } else if c == ')' {
            SplitState { paren: dec(st.paren), buf: st.buf.push(c), ..st }
        } else if c == ',' && st.brace == 0 && st.bracket == 0 && st.paren == 0 {
            SplitState { tokens: flush(st.tokens, st.buf), buf: seq![], ..st }
        } else {
            SplitState { buf: st.buf.push(c), ..st }
        },
    }
}

/// The scanner's state after everything from `i` on.
pub open spec fn run(s: Seq<char>, st: SplitState, i: int) -> SplitState
    decreases s.len() - i,
{
    if i < 0 || i >= s.len() {
        st
    } else {
        run(s, step(s, st, i), i + step_len(s, st, i))
    }
}

/// The scanner's initial state.
pub open spec fn start_state() -> SplitState {
    SplitState { tokens: seq![], buf: seq![], quote: None, brace: 0, bracket: 0, paren: 0 }
}

/// The tokens of a repeatable value: split at commas outside quotes and
/// brackets, `\,` standing for a comma, each token trimmed, empty ones dropped.
pub open spec fn spec_split(s: Seq<char>) -> Seq<Seq<char>> {
    let st = run(s, start_state(), 0);
    flush(st.tokens, st.buf)
}

/// A text without white space at either end.
fn trim(s: &str) -> (r: &str)
    ensures
        r@ == trimmed(s@),
{
    trim_end(trim_start(s))
}

/// Adds the buffer's trimmed text to the tokens, unless it is empty.
fn flush_exec(tokens: &mut Vec<String>, buf: &String)
    ensures
        strings_view(final(tokens)@) == flush(strings_view(old(tokens)@), buf@),
{
    let t = trim(buf.as_str());
    if t.unicode_len() > 0 {
        tokens.push(String::from_str(t));
        assert(strings_view(tokens@) =~= strings_view(old(tokens)@).push(t@));
    }
}

/// Splits a repeatable value into its tokens.
pub fn split_repeatable_values(val: &str) -> (r: Vec<String>)
    ensures
        strings_view(r@) == spec_split(val@),
{
    let n = val.unicode_len();
    let mut tokens: Vec<String> = Vec::new();
    let mut buf = String::new();
    let mut quote: Option<char> = None;
    let mut brace: usize = 0;
    let mut bracket: usize = 0;
    let mut paren: usize = 0;
    let mut i: usize = 0;
    let ghost s = val@;
    assert(strings_view(tokens@) =~= Seq::<Seq<char>>::empty());
    while i < n
        invariant
            n == s.len(),
            s == val@,
            i <= n,
            brace <= i,
            bracket <= i,
            paren <= i,
            run(s, start_state(), 0) == run(
                s,
                SplitState {
                    tokens: strings_view(tokens@),
                    buf: buf@,
                    quote,
                    brace: brace as nat,
                    bracket: bracket as nat,
                    paren: paren as nat,
                },
                i as int,
            ),
        decreases n - i,
    {
        let ghost st = SplitState {
            tokens: strings_view(tokens@),
            buf: buf@,
            quote,
            brace: brace as nat,
            bracket: bracket as nat,
            paren: paren as nat,
        };
        let c = val.get_char(i);
        let mut adv: usize = 1;
        match quote {
            Some(q) => {
                if c == '\\' {
                    buf.push(c);
                    if i + 1 < n {
                        buf.push(val.get_char(i + 1));
                        adv = 2;
                    }
                } else {
                    buf.push(c);
                    if c == q {
                        quote = None;
                    }
                }
            },
            None => {
                if c == '"' || c == '\'' {
                    quote = Some(c);
                    buf.push(c);
                } else if c == '\\' {
                    if i + 1 < n && val.get_char(i + 1) == ',' {
                        buf.push(',');
                        adv = 2;
                    } else {
                        buf.push('\\');
                    }
                } else if c == '{' {
                    brace = brace + 1;
                    buf.push(c);
                } else if c == '}' {
                    brace = if brace > 0 { brace - 1 } else { 0 };
                    buf.push(c);
                } else if c == '[' {
                    bracket = bracket + 1;
                    buf.push(c);
                } else if c == ']' {
                    bracket = if bracket > 0 { bracket - 1 } else { 0 };
                    buf.push(c);
                } else if c == '(' {
                    paren = paren + 1;
                    buf.push(c);
                } else if c == ')' {
                    paren = if paren > 0 { paren - 1 } else { 0 };
                    buf.push(c);
                } else if c == ',' && brace == 0 && bracket == 0 && paren == 0 {
                    flush_exec(&mut tokens, &buf);
                    buf = String::new();
                } else {
                    buf.push(c);
                }
            },
        }
        proof {
            assert(step_len(s, st, i as int) == adv as int);
            assert(step(s, st, i as int) =~= SplitState {
                tokens: strings_view(tokens@),
                buf: buf@,
                quote,
                brace: brace as nat,
                bracket: bracket as nat,
                paren: paren as nat,
            });
        }
        i = i + adv;
    }
    flush_exec(&mut tokens, &buf);
    tokens
}

/// The normal form of an input token: prefixed tokens stay, standard input is
/// "-", an existing path stays, anything else becomes inline content.
pub open spec fn spec_normal_input(t: Seq<char>, exists_path: bool) -> Seq<char> {
    if begins_with(t, "@"@) || begins_with(t, "="@) {
        t
    } else if t == "-"@ || lower(t) == "stdin"@ {
        "-"@
    } else if exists_path {
        t
    } else {
        "="@ + t
    }
}

/// The normal form of an output token: prefixed tokens stay, standard output
/// is "-", standard error is "stderr", anything else stays.
pub open spec fn spec_normal_output(t: Seq<char>) -> Seq<char> {
    if begins_with(t, "@"@) {
        t
    } else if t == "-"@ || lower(t) == "stdout"@ {
        "-"@
    } else if lower(t) == "stderr"@ {
        "stderr"@
    } else {
        t
    }
}

/// Whether `t` equals `lit` ignoring ASCII case (`lit` being lower case).
fn is_word(t: &str, lit: &str) -> (r: bool)
    ensures
        r == (lower(t@) == lit@),
{
    let l = ascii_lowercase(t);
    text_eq(l.as_str(), lit)
}

/// Normalises one input token; `exists_path` tells whether it names an existing path.
pub fn normalize_input(token: &str, exists_path: bool) -> (r: String)
    ensures
        r@ == spec_normal_input(token@, exists_path),
{
    if starts_with(token, "@") || starts_with(token, "=") {
        String::from_str(token)
    } else if text_eq(token, "-") || is_word(token, "stdin") {
        String::from_str("-")
    } else if exists_path {
        String::from_str(token)
    } else {
        String::from_str("=").concat(token)
    }
}

/// Normalises one output token.
pub fn normalize_output(token: &str) -> (r: String)
    ensures
        r@ == spec_normal_output(token@),
{
    if starts_with(token, "@") {
        String::from_str(token)
    } else if text_eq(token, "-") || is_word(token, "stdout") {
        String::from_str("-")
    } else if is_word(token, "stderr") {
        String::from_str("stderr")
    } else {
        String::from_str(token)
    }
}

/// Whether one of `paths` is `t`.
pub open spec fn listed(paths: Seq<Seq<char>>, t: Seq<char>) -> bool {
    paths.contains(t)
}

fn is_listed(paths: &Vec<String>, t: &str) -> (r: bool)
    ensures
        r == listed(strings_view(paths@), t@),
{
    let mut i: usize = 0;
    while i < paths.len()
        invariant
            forall|j: int| 0 <= j < i ==> (#[trigger] paths@[j])@ != t@,
        decreases paths.len() - i,
    {
        if text_eq(paths[i].as_str(), t) {
            assert(strings_view(paths@)[i as int] == t@);
            return true;
        }
        i = i + 1;
    }
    assert(!strings_view(paths@).contains(t@)) by {
        if strings_view(paths@).contains(t@) {
            let j = choose|j: int| 0 <= j < strings_view(paths@).len() && strings_view(paths@)[j] == t@;
            assert(paths@[j]@ == t@);
        }
    }
    false
}

/// Input arguments: the normalised input tokens.
#[derive(Debug, Clone)]
pub struct InputArgs(pub Vec<String>);

/// Output arguments: the normalised output tokens.
#[derive(Debug, Clone)]
pub struct OutputArgs(pub Vec<String>);

/// The input tokens of a repeatable value: standard input when absent, else
/// each split token normalised, `paths` telling which tokens are existing paths.
pub open spec fn spec_input_tokens(val: Option<Seq<char>>, paths: Seq<Seq<char>>) -> Seq<Seq<char>> {
    match val {
        None => seq!["-"@],
        Some(v) => spec_split(v).map_values(|t: Seq<char>| spec_normal_input(trimmed(t), listed(paths, trimmed(t)))),
    }
}

/// The output tokens of a repeatable value: standard output when absent, else
/// each split token normalised.
pub open spec fn spec_output_tokens(val: Option<Seq<char>>) -> Seq<Seq<char>> {
    match val {
        None => seq!["-"@],
        Some(v) => spec_split(v).map_values(|t: Seq<char>| spec_normal_output(trimmed(t))),
    }
}

/// Whether one of the tokens is standard input.
pub open spec fn has_stdin(ts: Seq<Seq<char>>) -> bool {
    exists|i: int| 0 <= i < ts.len() && (ts[i] == "-"@ || lower(#[trigger] ts[i]) == "stdin"@)
}

impl InputArgs {
    /// No inputs.
    pub fn new() -> (r: InputArgs)
        ensures
            r.0@.len() == 0,
    {
        InputArgs(Vec::new())
    }

    /// These inputs and one more.
    pub fn with_input(self, path: &str) -> (r: InputArgs)
        ensures
            strings_view(r.0@) == strings_view(self.0@).push(path@),
    {
        let mut v = self.0;
        let ghost before = strings_view(v@);
        v.push(String::from_str(path));
        assert(strings_view(v@) =~= before.push(path@));
        InputArgs(v)
    }

    /// Whether standard input is among the inputs.
    pub fn is_stdin(&self) -> (r: bool)
        ensures
            r == has_stdin(strings_view(self.0@)),
    {
        let mut i: usize = 0;
        while i < self.0.len()
            invariant
                forall|j: int| 0 <= j < i ==> !((#[trigger] strings_view(self.0@)[j]) == "-"@ || lower(strings_view(self.0@)[j]) == "stdin"@),
            decreases self.0.len() - i,
        {
            if text_eq(self.0[i].as_str(), "-") || is_word(self.0[i].as_str(), "stdin") {
                assert(strings_view(self.0@)[i as int] == self.0@[i as int]@);
                return true;
            }
            assert(strings_view(self.0@)[i as int] == self.0@[i as int]@);
            i = i + 1;
        }
        false
    }

    /// The tokens.
    pub fn as_slice(&self) -> (r: &[String])
        ensures
            r@ == self.0@,
    {
        self.0.as_slice()
    }

    /// Parses a repeatable value; `paths` lists the tokens that name existing paths.
    pub fn from_value(val: Option<&str>, paths: &Vec<String>) -> (r: InputArgs)
        ensures
            strings_view(r.0@) == spec_input_tokens(
                match val {
                    Some(v) => Some(v@),
                    None => None,
                },
                strings_view(paths@),
            ),
    {
        let mut out: Vec<String> = Vec::new();
        match val {
            None => {
                out.push(String::from_str("-"));
                assert(strings_view(out@) =~= seq!["-"@]);
            },
            Some(v) => {
                let toks = split_repeatable_values(v);
                let ghost want = spec_split(v@).map_values(|t: Seq<char>| spec_normal_input(trimmed(t), listed(strings_view(paths@), trimmed(t))));
                let mut i: usize = 0;
                while i < toks.len()
                    invariant
                        strings_view(toks@) == spec_split(v@),
                        want == spec_split(v@).map_values(|t: Seq<char>| spec_normal_input(trimmed(t), listed(strings_view(paths@), trimmed(t)))),
                        i <= toks@.len(),
                        out@.len() == i,
                        forall|j: int| 0 <= j < i ==> (#[trigger] out@[j])@ == want[j],
                    decreases toks.len() - i,
                {
                    assert(strings_view(toks@)[i as int] == toks@[i as int]@);
                    let t = trim(toks[i].as_str());
                    let e = is_listed(paths, t);
                    out.push(normalize_input(t, e));
                    i = i + 1;
                }
                assert(strings_view(out@) =~= want);
            },
        }
        InputArgs(out)
    }
}

impl OutputArgs {
    /// No outputs.
    pub fn new() -> (r: OutputArgs)
        ensures
            r.0@.len() == 0,
    {
        OutputArgs(Vec::new())
    }

    /// These outputs and one more.
    pub fn with_output(self, path: &str) -> (r: OutputArgs)
        ensures
            strings_view(r.0@) == strings_view(self.0@).push(path@),
    {
        let mut v = self.0;
        let ghost before = strings_view(v@);
        v.push(String::from_str(path));
        assert(strings_view(v@) =~= before.push(path@));
        OutputArgs(v)
    }

    /// Whether standard output is among the outputs.
    pub fn is_stdout(&self) -> (r: bool)
        ensures
            r == exists|i: int| 0 <= i < self.0@.len() && ((#[trigger] self.0@[i])@ == "-"@ || lower(self.0@[i]@) == "stdout"@),
    {
        let mut i: usize = 0;
        while i < self.0.len()
            invariant
                forall|j: int| 0 <= j < i ==> !((#[trigger] self.0@[j])@ == "-"@ || lower(self.0@[j]@) == "stdout"@),
            decreases self.0.len() - i,
        {
            if text_eq(self.0[i].as_str(), "-") || is_word(self.0[i].as_str(), "stdout") {
                return true;
            }
            i = i + 1;
        }
        false
    }

    /// Whether standard error is among the outputs.
    pub fn is_stderr(&self) -> (r: bool)
        ensures
            r == exists|i: int| 0 <= i < self.0@.len() && lower((#[trigger] self.0@[i])@) == "stderr"@,
    {
        let mut i: usize = 0;
        while i < self.0.len()
            invariant
                forall|j: int| 0 <= j < i ==> lower((#[trigger] self.0@[j])@) != "stderr"@,
            decreases self.0.len() - i,
        {
            if is_word(self.0[i].as_str(), "stderr") {
                return true;
            }
            i = i + 1;
        }
        false
    }

    /// The tokens.
    pub fn as_slice(&self) -> (r: &[String])
        ensures
            r@ == self.0@,
    {
        self.0.as_slice()
    }

    /// Parses a repeatable value.
    pub fn from_value(val: Option<&str>) -> (r: OutputArgs)
        ensures
            strings_view(r.0@) == spec_output_tokens(
                match val {
                    Some(v) => Some(v@),
                    None => None,
                },
            ),
    {
        let mut out: Vec<String> = Vec::new();
        match val {
            None => {
                out.push(String::from_str("-"));
                assert(strings_view(out@) =~= seq!["-"@]);
            },
            Some(v) => {
                let toks = split_repeatable_values(v);
                let ghost want = spec_split(v@).map_values(|t: Seq<char>| spec_normal_output(trimmed(t)));
                let mut i: usize = 0;
                while i < toks.len()
                    invariant
                        strings_view(toks@) == spec_split(v@),
                        want == spec_split(v@).map_values(|t: Seq<char>| spec_normal_output(trimmed(t))),
                        i <= toks@.len(),
                        out@.len() == i,
                        forall|j: int| 0 <= j < i ==> (#[trigger] out@[j])@ == want[j],
                    decreases toks.len() - i,
                {
                    assert(strings_view(toks@)[i as int] == toks@[i as int]@);
                    let t = trim(toks[i].as_str());
                    out.push(normalize_output(t));
                    i = i + 1;
                }
                assert(strings_view(out@) =~= want);
            },
        }
        OutputArgs(out)
    }
}

/// The extension that `std::path::Path::extension` finds in a path, as text.
pub uninterp spec fn path_extension_of(p: Seq<char>) -> Option<Seq<char>>;

/// Relies on `std::path::Path::extension`: the part of the file name after its
/// last dot, if the name has one that does not start it.
#[verifier::external_body]
pub(crate) fn path_extension(p: &str) -> (r: Option<String>)
    ensures
        match r {
            Some(e) => path_extension_of(p@) == Some(e@),
            None => path_extension_of(p@) is None,
        },
{
    std::path::Path::new(p).extension().and_then(|e| e.to_str()).map(|e| e.to_string())
}

/// The format a path's extension names, if any.
pub fn infer_format_from_path(path: &str) -> (r: Option<FormatKind>)
    ensures
        opt_kind(r) == match path_extension_of(path@) {
            Some(e) => spec_parse(e),
            None => None,
        },
{
    match path_extension(path) {
        Some(e) => parse_format(e.as_str()),
        None => None,
    }
}

} // verus!
