//! Building an engine from command-line tokens, prepared specifications or a
//! pipeline configuration.
use vstd::prelude::*;
use crate::cli::{InputArgs, OutputArgs, path_extension, path_extension_of};
use crate::config::{
    FileExistsPolicy, InputConfig, InputSource, InputSpec, OutputConfig, OutputDest, OutputSpec,
    PipelineConfig,
};
use crate::engine::IoEngine;
use crate::error::{AggregateError, ErrorPolicy, FormatError, FormatErrorModel, IoErrorModel, SingleIoError, Stage};
use crate::io::{FileInput, FileOutput, InMemorySource, StderrOutput, StdinInput, StdoutOutput};
use crate::kind::{FormatKind, KindModel, ascii_lowercase, default_format_order, kinds_view, lower, opt_kind, parse_format, spec_default_order, spec_parse};
use crate::pass::{Pass, errs_of};
use crate::registry::{CustomFormat, FormatRegistry, RegistryModel, spec_kind_for_extension};
use crate::text::{begins_with, starts_with, strings_view, text_eq};

verus! {

/// The hash that a `DefaultHasher` computes for the text.
pub uninterp spec fn content_hash_of(content: Seq<char>) -> u64;

/// Relies on `std::collections::hash_map::DefaultHasher::new`, whose instances
/// all hash alike, with `Hash::hash` on the text and `Hasher::finish`.
#[verifier::external_body]
fn content_hash(content: &str) -> (r: u64)
    ensures
        r == content_hash_of(content@),
{
    let mut hasher = std::collections::hash_map::DefaultHasher::new();
    std::hash::Hash::hash(content, &mut hasher);
    std::hash::Hasher::finish(&hasher)
}

/// Lower-case hexadecimal digit of `d` (below 16).
pub open spec fn hex_char(d: nat) -> char {
    if d < 10 {
        (('0' as u8) + (d as u8)) as char
    } else {
        (('a' as u8) + ((d - 10) as u8)) as char
    }
}

/// The last `count` hexadecimal digits of `n`, most significant first.
pub open spec fn hex_digits(n: nat, count: nat) -> Seq<char>
    decreases count,
{
    if count == 0 {
        seq![]
    } else {
        hex_digits(n / 16, (count - 1) as nat).push(hex_char(n % 16))
    }
}

/// The identity of inline content: "inline:" and its hash as 16 lower-case
/// hexadecimal digits.
pub open spec fn inline_id_of(content: Seq<char>) -> Seq<char> {
    "inline:"@ + hex_digits(content_hash_of(content) as nat, 16)
}

/// The last `count` hexadecimal digits of `n`, most significant first.
fn hex_text(n: u64, count: usize) -> (r: String)
    ensures
        r@ == hex_digits(n as nat, count as nat),
    decreases count,
{
    if count == 0 {
        return String::new();
    }
    let mut s = hex_text(n / 16, count - 1);
    let d = (n % 16) as u8;
    let c = if d < 10 {
        ('0' as u8 + d) as char
    } else {
        ('a' as u8 + (d - 10)) as char
    };
    s.push(c);
    s
}

/// The identity of inline content.
fn inline_id(content: &str) -> (r: String)
    ensures
        r@ == inline_id_of(content@),
{
    String::from_str("inline:").concat(hex_text(content_hash(content), 16).as_str())
}

/// `s` without white space at either end.
fn trim(s: &str) -> (r: &str)
    ensures
        r@ == crate::cli::trimmed(s@),
{
    crate::text::trim_end(crate::text::trim_start(s))
}

/// Copies of a sequence of kinds.
fn copy_kinds(ks: &Vec<FormatKind>) -> (r: Vec<FormatKind>)
    ensures
        kinds_view(r@) == kinds_view(ks@),
{
    let mut out: Vec<FormatKind> = Vec::new();
    let mut i: usize = 0;
    while i < ks.len()
        invariant
            i <= ks@.len(),
            out@.len() == i,
            forall|j: int| 0 <= j < i ==> (#[trigger] out@[j])@ == ks@[j]@,
        decreases ks.len() - i,
    {
        out.push(ks[i].duplicate());
        i = i + 1;
    }
    assert(kinds_view(out@) =~= kinds_view(ks@));
    out
}

/// The kind the registry gives a path's extension, if it has one.
pub open spec fn spec_infer(reg: RegistryModel, path: Seq<char>) -> Option<KindModel> {
    match path_extension_of(path) {
        Some(e) => spec_kind_for_extension(reg, lower(e)),
        None => None,
    }
}

/// A text that begins with `p` begins with `p`'s first character.
proof fn lemma_first_char(s: Seq<char>, p: Seq<char>)
    requires
        begins_with(s, p),
        p.len() >= 1,
    ensures
        s.len() >= 1,
        s[0] == p[0],
        lower(s)[0] == crate::kind::lower_char(p[0]),
{
    assert(s.subrange(0, p.len() as int)[0] == s[0]);
}

/// The error for a `@` without a path.
pub open spec fn missing_path_error(stage: Stage, raw: Seq<char>) -> IoErrorModel {
    IoErrorModel { stage, target: raw, error: FormatErrorModel::Io("expected a path after '@'"@) }
}

/// Builds a synchronous engine.
pub struct MultiioBuilder {
    pub input_args: Vec<String>,
    pub output_args: Vec<String>,
    pub input_specs: Vec<InputSpec>,
    pub output_specs: Vec<OutputSpec>,
    pub registry: FormatRegistry,
    pub error_policy: ErrorPolicy,
    pub default_input_formats: Vec<FormatKind>,
    pub default_output_formats: Vec<FormatKind>,
    pub file_exists_policy: FileExistsPolicy,
}

impl MultiioBuilder {
    /// A builder with no endpoints, accumulating errors, trying the formats in
    /// default order and overwriting outputs.
    pub fn new(registry: FormatRegistry) -> (r: MultiioBuilder)
        ensures
            r.registry@ == registry@,
            r.error_policy == ErrorPolicy::Accumulate,
            kinds_view(r.default_input_formats@) == spec_default_order(),
            kinds_view(r.default_output_formats@) == spec_default_order(),
            r.file_exists_policy == FileExistsPolicy::Overwrite,
            r.input_args@.len() == 0 && r.output_args@.len() == 0,
            r.input_specs@.len() == 0 && r.output_specs@.len() == 0,
    {
        MultiioBuilder {
            input_args: Vec::new(),
            output_args: Vec::new(),
            input_specs: Vec::new(),
            output_specs: Vec::new(),
            registry,
            error_policy: ErrorPolicy::Accumulate,
            default_input_formats: default_format_order(),
            default_output_formats: default_format_order(),
            file_exists_policy: FileExistsPolicy::Overwrite,
        }
    }

    /// Registers a custom format in the builder's registry.
    pub fn with_custom_format(self, format: CustomFormat) -> (r: MultiioBuilder)
        ensures
            r.registry@.customs == crate::registry::with_custom(self.registry@.customs, format@),
    {
        let mut b = self;
        b.registry.register_custom(format);
        b
    }

    /// Replaces the input tokens.
    pub fn inputs_from_args(self, args: &[String]) -> (r: MultiioBuilder)
        ensures
            strings_view(r.input_args@) == strings_view(args@),
    {
        let mut v: Vec<String> = Vec::new();
        let mut i: usize = 0;
        while i < args.len()
            invariant
                i <= args@.len(),
                v@.len() == i,
                forall|j: int| 0 <= j < i ==> (#[trigger] v@[j])@ == args@[j]@,
            decreases args.len() - i,
        {
            v.push(args[i].clone());
            i = i + 1;
        }
        assert(strings_view(v@) =~= strings_view(args@));
        MultiioBuilder { input_args: v, ..self }
    }

    /// Replaces the input tokens with parsed input arguments.
    pub fn with_input_args(self, args: &InputArgs) -> (r: MultiioBuilder)
        ensures
            strings_view(r.input_args@) == strings_view(args.0@),
    {
        self.inputs_from_args(args.as_slice())
    }

    /// Replaces the output tokens.
    pub fn outputs_from_args(self, args: &[String]) -> (r: MultiioBuilder)
        ensures
            strings_view(r.output_args@) == strings_view(args@),
    {
        let mut v: Vec<String> = Vec::new();
        let mut i: usize = 0;
        while i < args.len()
            invariant
                i <= args@.len(),
                v@.len() == i,
                forall|j: int| 0 <= j < i ==> (#[trigger] v@[j])@ == args@[j]@,
            decreases args.len() - i,
        {
            v.push(args[i].clone());
            i = i + 1;
        }
        assert(strings_view(v@) =~= strings_view(args@));
        MultiioBuilder { output_args: v, ..self }
    }

    /// Replaces the output tokens with parsed output arguments.
    pub fn with_output_args(self, args: &OutputArgs) -> (r: MultiioBuilder)
        ensures
            strings_view(r.output_args@) == strings_view(args.0@),
    {
        self.outputs_from_args(args.as_slice())
    }

    /// Adds an input token.
    pub fn add_input(self, arg: &str) -> (r: MultiioBuilder)
        ensures
            strings_view(r.input_args@) == strings_view(self.input_args@).push(arg@),
    {
        let mut b = self;
        let ghost before = strings_view(b.input_args@);
        b.input_args.push(String::from_str(arg));
        assert(strings_view(b.input_args@) =~= before.push(arg@));
        b
    }

    /// Adds an output token.
    pub fn add_output(self, arg: &str) -> (r: MultiioBuilder)
        ensures
            strings_view(r.output_args@) == strings_view(self.output_args@).push(arg@),
    {
        let mut b = self;
        let ghost before = strings_view(b.output_args@);
        b.output_args.push(String::from_str(arg));
        assert(strings_view(b.output_args@) =~= before.push(arg@));
        b
    }

    /// Adds a prepared input specification.
    pub fn add_input_spec(self, spec: InputSpec) -> (r: MultiioBuilder)
        ensures
            r.input_specs@ == self.input_specs@.push(spec),
    {
        let mut b = self;
        b.input_specs.push(spec);
        b
    }

    /// Adds a prepared output specification.
    pub fn add_output_spec(self, spec: OutputSpec) -> (r: MultiioBuilder)
        ensures
            r.output_specs@ == self.output_specs@.push(spec),
    {
        let mut b = self;
        b.output_specs.push(spec);
        b
    }

    /// Sets the candidate order of inputs and outputs.
    pub fn with_order(self, order: &Vec<FormatKind>) -> (r: MultiioBuilder)
        ensures
            kinds_view(r.default_input_formats@) == kinds_view(order@),
            kinds_view(r.default_output_formats@) == kinds_view(order@),
            r.registry == self.registry && r.error_policy == self.error_policy,
            r.input_specs == self.input_specs && r.output_specs == self.output_specs,
            r.input_args == self.input_args && r.output_args == self.output_args,
            r.file_exists_policy == self.file_exists_policy,
    {
        MultiioBuilder { default_input_formats: copy_kinds(order), default_output_formats: copy_kinds(order), ..self }
    }

    /// Sets the candidate order of inputs.
    pub fn with_input_order(self, order: &Vec<FormatKind>) -> (r: MultiioBuilder)
        ensures
            kinds_view(r.default_input_formats@) == kinds_view(order@),
    {
        MultiioBuilder { default_input_formats: copy_kinds(order), ..self }
    }

    /// Sets the candidate order of outputs.
    pub fn with_output_order(self, order: &Vec<FormatKind>) -> (r: MultiioBuilder)
        ensures
            kinds_view(r.default_output_formats@) == kinds_view(order@),
    {
        MultiioBuilder { default_output_formats: copy_kinds(order), ..self }
    }

    /// Sets the error policy.
    pub fn with_mode(self, policy: ErrorPolicy) -> (r: MultiioBuilder)
        ensures
            r == (MultiioBuilder { error_policy: policy, ..self }),
    {
        MultiioBuilder { error_policy: policy, ..self }
    }

    /// Sets the policy for outputs that already hold content.
    pub fn with_file_exists_policy(self, policy: FileExistsPolicy) -> (r: MultiioBuilder)
        ensures
            r == (MultiioBuilder { file_exists_policy: policy, ..self }),
    {
        MultiioBuilder { file_exists_policy: policy, ..self }
    }

    /// The kind that the registry gives the path's extension.
    pub fn infer_format_from_path(&self, path: &str) -> (r: Option<FormatKind>)
        ensures
            opt_kind(r) == spec_infer(self.registry@, path@),
    {
        match path_extension(path) {
            Some(e) => {
                let l = ascii_lowercase(e.as_str());
                self.registry.kind_for_extension(l.as_str())
            },
            None => None,
        }
    }

    /// The specification of one input token: `@path` a file, `-` or `stdin`
    /// standard input, `=content` inline content, anything else a file.
    pub fn resolve_single_input(&self, raw: &str) -> (r: Result<InputSpec, SingleIoError>)
        ensures
            begins_with(crate::cli::trimmed(raw@), "@"@) && crate::cli::trimmed(raw@).len() == 1 ==> (r matches Err(e)
                && e@ == missing_path_error(Stage::ResolveInput, crate::cli::trimmed(raw@))),
            r matches Ok(s) ==> kinds_view(s.format_candidates@) == kinds_view(self.default_input_formats@),
            (crate::cli::trimmed(raw@) == "-"@ || lower(crate::cli::trimmed(raw@)) == "stdin"@) ==> (r matches Ok(s)
                && s.raw@ == "-"@ && s.explicit_format is None && s.provider is Stdin),
            ({
                let t = crate::cli::trimmed(raw@);
                let p = t.subrange(1, t.len() as int);
                begins_with(t, "@"@) && t.len() > 1 ==> (r matches Ok(s) && s.raw@ == p
                    && (s.provider matches InputSource::File(f) && f.path@ == p)
                    && opt_kind(s.explicit_format) == spec_infer(self.registry@, p))
            }),
            ({
                let t = crate::cli::trimmed(raw@);
                let c = t.subrange(1, t.len() as int);
                begins_with(t, "="@) ==> (r matches Ok(s) && s.raw@ == inline_id_of(c)
                    && s.provider is Memory && s.explicit_format is None)
            }),
            ({
                let t = crate::cli::trimmed(raw@);
                !begins_with(t, "@"@) && !begins_with(t, "="@) && t != "-"@ && lower(t) != "stdin"@ ==> (
                r matches Ok(s) && s.raw@ == t && (s.provider matches InputSource::File(f) && f.path@ == t)
                    && opt_kind(s.explicit_format) == spec_infer(self.registry@, t))
            }),
    {
        let raw = trim(raw);
        let n = raw.unicode_len();
        proof {
            reveal_strlit("@");
            reveal_strlit("=");
            reveal_strlit("-");
            reveal_strlit("stdin");
        }
        if starts_with(raw, "@") {
            proof {
                lemma_first_char(raw@, "@"@);
            }
            let path = raw.substring_char(1, n);
            if n == 1 {
                return Err(SingleIoError::new(Stage::ResolveInput, raw, FormatError::Io(String::from_str("expected a path after '@'"))));
            }
            return Ok(InputSpec {
                raw: String::from_str(path),
                provider: InputSource::File(FileInput::new(path)),
                explicit_format: self.infer_format_from_path(path),
                format_candidates: copy_kinds(&self.default_input_formats),
            });
        }
        if text_eq(raw, "-") || text_eq(ascii_lowercase(raw).as_str(), "stdin") {
            proof {
                if begins_with(raw@, "="@) {
                    lemma_first_char(raw@, "="@);
                    assert("stdin"@[0] == 's');
                }
            }
            return Ok(InputSpec {
                raw: String::from_str("-"),
                provider: InputSource::Stdin(StdinInput::new()),
                explicit_format: None,
                format_candidates: copy_kinds(&self.default_input_formats),
            });
        }
        if starts_with(raw, "=") {
            proof {
                lemma_first_char(raw@, "="@);
            }
            let content = raw.substring_char(1, n);
            let id = inline_id(content);
            return Ok(InputSpec {
                raw: id.clone(),
                provider: InputSource::Memory(InMemorySource::from_string(id.as_str(), content)),
                explicit_format: None,
                format_candidates: copy_kinds(&self.default_input_formats),
            });
        }
        Ok(InputSpec {
            raw: String::from_str(raw),
            provider: InputSource::File(FileInput::new(raw)),
            explicit_format: self.infer_format_from_path(raw),
            format_candidates: copy_kinds(&self.default_input_formats),
        })
    }

    /// The specification of one output token: `@path` a file, `-` or `stdout`
    /// standard output, `stderr` standard error, anything else a file.
    pub fn resolve_single_output(&self, raw: &str) -> (r: Result<OutputSpec, SingleIoError>)
        ensures
            begins_with(crate::cli::trimmed(raw@), "@"@) && crate::cli::trimmed(raw@).len() == 1 ==> (r matches Err(e)
                && e@ == missing_path_error(Stage::ResolveOutput, crate::cli::trimmed(raw@))),
            r matches Ok(s) ==> kinds_view(s.format_candidates@) == kinds_view(self.default_output_formats@)
                && s.file_exists_policy == self.file_exists_policy,
            (crate::cli::trimmed(raw@) == "-"@ || lower(crate::cli::trimmed(raw@)) == "stdout"@) ==> (r matches Ok(s)
                && s.raw@ == "-"@ && s.explicit_format is None && s.target is Stdout),
            lower(crate::cli::trimmed(raw@)) == "stderr"@ ==> (r matches Ok(s) && s.raw@ == "stderr"@
                && s.explicit_format is None && s.target is Stderr),
            ({
                let t = crate::cli::trimmed(raw@);
                let p = t.subrange(1, t.len() as int);
                begins_with(t, "@"@) && t.len() > 1 ==> (r matches Ok(s) && s.raw@ == p
                    && (s.target matches OutputDest::File(f) && f.path@ == p)
                    && opt_kind(s.explicit_format) == spec_infer(self.registry@, p))
            }),
            ({
                let t = crate::cli::trimmed(raw@);
                !begins_with(t, "@"@) && t != "-"@ && lower(t) != "stdout"@ && lower(t) != "stderr"@ ==> (
                r matches Ok(s) && s.raw@ == t && (s.target matches OutputDest::File(f) && f.path@ == t)
                    && opt_kind(s.explicit_format) == spec_infer(self.registry@, t))
            }),
    {
        let raw = trim(raw);
        let n = raw.unicode_len();
        proof {
            reveal_strlit("@");
            reveal_strlit("-");
            reveal_strlit("stdout");
            reveal_strlit("stderr");
        }
        if starts_with(raw, "@") {
            proof {
                lemma_first_char(raw@, "@"@);
            }
            let path = raw.substring_char(1, n);
            if n == 1 {
                return Err(SingleIoError::new(Stage::ResolveOutput, raw, FormatError::Io(String::from_str("expected a path after '@'"))));
            }
            return Ok(OutputSpec {
                raw: String::from_str(path),
                target: OutputDest::File(FileOutput::new(path)),
                explicit_format: self.infer_format_from_path(path),
                format_candidates: copy_kinds(&self.default_output_formats),
                file_exists_policy: self.file_exists_policy,
            });
        }
        if text_eq(raw, "-") || text_eq(ascii_lowercase(raw).as_str(), "stdout") {
            proof {
                assert("stdout"@[5] != "stderr"@[5]);
                assert(lower("-"@).len() == 1);
            }
            return Ok(OutputSpec {
                raw: String::from_str("-"),
                target: OutputDest::Stdout(StdoutOutput::new()),
                explicit_format: None,
                format_candidates: copy_kinds(&self.default_output_formats),
                file_exists_policy: self.file_exists_policy,
            });
        }
        if text_eq(ascii_lowercase(raw).as_str(), "stderr") {
            return Ok(OutputSpec {
                raw: String::from_str("stderr"),
                target: OutputDest::Stderr(StderrOutput::new()),
                explicit_format: None,
                format_candidates: copy_kinds(&self.default_output_formats),
                file_exists_policy: self.file_exists_policy,
            });
        }
        Ok(OutputSpec {
            raw: String::from_str(raw),
            target: OutputDest::File(FileOutput::new(raw)),
            explicit_format: self.infer_format_from_path(raw),
            format_candidates: copy_kinds(&self.default_output_formats),
            file_exists_policy: self.file_exists_policy,
        })
    }

    /// The specifications of every input token, under the error policy.
    fn resolve_inputs(&self) -> (r: Result<Vec<InputSpec>, AggregateError>)
        ensures
            self.error_policy == ErrorPolicy::FastFail ==> (r matches Err(a) ==> a.errors@.len() == 1),
            r matches Err(a) ==> a.errors@.len() >= 1,
            r matches Ok(v) ==> v@.len() == self.input_args@.len(),
    {
        let mut pass: Pass<InputSpec> = Pass::new(self.error_policy, self.input_args.len());
        loop
            invariant
                pass.wf(),
                pass@.policy == self.error_policy,
                pass@.total == self.input_args@.len(),
            ensures
                pass.wf(),
                pass@.policy == self.error_policy,
                pass@.total == self.input_args@.len(),
                crate::pass::pending(pass@) is None,
            decreases pass@.total - pass@.outcomes.len(),
        {
            proof {
                pass.lemma_pass_facts();
            }
            match pass.next_index() {
                None => break,
                Some(i) => {
                    let r = self.resolve_single_input(self.input_args[i].as_str());
                    pass.record(r);
                },
            }
        }
        proof {
            pass.lemma_pass_facts();
            crate::pass::lemma_counts(pass@.outcomes);
            if pass@.policy == ErrorPolicy::Accumulate && errs_of(pass@.outcomes).len() == 0 {
                crate::pass::lemma_all_ok(pass@.outcomes);
            }
        }
        pass.finish()
    }

    /// The specifications of every output token, under the error policy.
    fn resolve_outputs(&self) -> (r: Result<Vec<OutputSpec>, AggregateError>)
        ensures
            self.error_policy == ErrorPolicy::FastFail ==> (r matches Err(a) ==> a.errors@.len() == 1),
            r matches Err(a) ==> a.errors@.len() >= 1,
    {
        let mut pass: Pass<OutputSpec> = Pass::new(self.error_policy, self.output_args.len());
        loop
            invariant
                pass.wf(),
                pass@.policy == self.error_policy,
                pass@.total == self.output_args@.len(),
            ensures
                pass.wf(),
                pass@.policy == self.error_policy,
            decreases pass@.total - pass@.outcomes.len(),
        {
            proof {
                pass.lemma_pass_facts();
            }
            match pass.next_index() {
                None => break,
                Some(i) => {
                    let r = self.resolve_single_output(self.output_args[i].as_str());
                    pass.record(r);
                },
            }
        }
        proof {
            pass.lemma_pass_facts();
        }
        pass.finish()
    }

    /// The engine: the tokens' specifications first, then the prepared ones.
    pub fn build(self) -> (r: Result<IoEngine, AggregateError>)
        ensures
            self.error_policy == ErrorPolicy::FastFail ==> (r matches Err(a) ==> a.errors@.len() == 1),
            r matches Err(a) ==> a.errors@.len() >= 1,
            r matches Ok(e) ==> e@.policy == self.error_policy && e@.registry == self.registry@
                && e@.inputs.len() == self.input_args@.len() + self.input_specs@.len(),
    {
        let mut inputs = match self.resolve_inputs() {
            Ok(v) => v,
            Err(a) => return Err(a),
        };
        let mut outputs = match self.resolve_outputs() {
            Ok(v) => v,
            Err(a) => return Err(a),
        };
        let MultiioBuilder { input_specs, output_specs, registry, error_policy, .. } = self;
        let mut input_specs = input_specs;
        let mut output_specs = output_specs;
        inputs.append(&mut input_specs);
        outputs.append(&mut output_specs);
        Ok(IoEngine::new(registry, error_policy, inputs, outputs))
    }

    /// The specification of a configured input.
    pub fn input_from_config(&self, cfg: &InputConfig) -> (r: Result<InputSpec, SingleIoError>)
        ensures
            r matches Ok(s) ==> s.raw@ == cfg.id@ && opt_kind(s.explicit_format) == match cfg.format {
                Some(f) => spec_parse(f@),
                None => None,
            },
            r matches Err(e) ==> e.stage == Stage::ResolveInput && e.target@ == cfg.id@,
    {
        let kind = cfg.kind.as_str();
        let provider = if text_eq(kind, "stdin") || text_eq(kind, "-") {
            InputSource::Stdin(StdinInput::new())
        } else if text_eq(kind, "file") {
            match &cfg.path {
                Some(p) => InputSource::File(FileInput::new(p.as_str())),
                None => return Err(SingleIoError::new(Stage::ResolveInput, cfg.id.as_str(), FormatError::Io(String::from_str("file input requires 'path' field")))),
            }
        } else {
            return Err(SingleIoError::new(Stage::ResolveInput, cfg.id.as_str(), FormatError::Io(String::from_str("unknown input kind: ").concat(kind))));
        };
        let explicit_format = match &cfg.format {
            Some(f) => parse_format(f.as_str()),
            None => None,
        };
        Ok(InputSpec { raw: cfg.id.clone(), provider, explicit_format, format_candidates: copy_kinds(&self.default_input_formats) })
    }

    /// The specification of a configured output.
    pub fn output_from_config(&self, cfg: &OutputConfig) -> (r: Result<OutputSpec, SingleIoError>)
        ensures
            r matches Ok(s) ==> s.raw@ == cfg.id@ && opt_kind(s.explicit_format) == match cfg.format {
                Some(f) => spec_parse(f@),
                None => None,
            } && s.file_exists_policy == match cfg.file_exists_policy {
                Some(p) => match crate::config::spec_policy(p@) {
                    Some(x) => x,
                    None => self.file_exists_policy,
                },
                None => self.file_exists_policy,
            },
            r matches Err(e) ==> e.stage == Stage::ResolveOutput && e.target@ == cfg.id@,
    {
        let kind = cfg.kind.as_str();
        let target = if text_eq(kind, "stdout") || text_eq(kind, "-") {
            OutputDest::Stdout(StdoutOutput::new())
        } else if text_eq(kind, "stderr") {
            OutputDest::Stderr(StderrOutput::new())
        } else if text_eq(kind, "file") {
            match &cfg.path {
                Some(p) => OutputDest::File(FileOutput::new(p.as_str())),
                None => return Err(SingleIoError::new(Stage::ResolveOutput, cfg.id.as_str(), FormatError::Io(String::from_str("file output requires 'path' field")))),
            }
        } else {
            return Err(SingleIoError::new(Stage::ResolveOutput, cfg.id.as_str(), FormatError::Io(String::from_str("unknown output kind: ").concat(kind))));
        };
        let explicit_format = match &cfg.format {
            Some(f) => parse_format(f.as_str()),
            None => None,
        };
        let file_exists_policy = match &cfg.file_exists_policy {
            Some(p) => match FileExistsPolicy::from_str(p.as_str()) {
                Some(x) => x,
                None => self.file_exists_policy,
            },
            None => self.file_exists_policy,
        };
        Ok(OutputSpec {
            raw: cfg.id.clone(),
            target,
            explicit_format,
            format_candidates: copy_kinds(&self.default_output_formats),
            file_exists_policy,
        })
    }

    /// A builder from a pipeline configuration: "fast_fail" or "fastfail"
    /// selects fail-fast (anything else accumulates), the format order keeps
    /// the names that parse, and each configured endpoint becomes a prepared
    /// specification; failures follow the policy.
    pub fn from_pipeline_config(config: PipelineConfig, registry: FormatRegistry) -> (r: Result<MultiioBuilder, AggregateError>)
        ensures
            r matches Err(a) ==> a.errors@.len() >= 1,
            (config.error_policy matches Some(p) && (p@ == "fast_fail"@ || p@ == "fastfail"@)) ==> (r matches Err(a)
                ==> a.errors@.len() == 1),
            r matches Ok(b) ==> b.registry@ == registry@ && b.input_specs@.len() == config.inputs@.len()
                && b.output_specs@.len() == config.outputs@.len(),
    {
        let ghost reg = registry@;
        let mut builder = MultiioBuilder::new(registry);
        if let Some(p) = &config.error_policy {
            let policy = if text_eq(p.as_str(), "fast_fail") || text_eq(p.as_str(), "fastfail") {
                ErrorPolicy::FastFail
            } else {
                ErrorPolicy::Accumulate
            };
            builder = builder.with_mode(policy);
        }
        if let Some(order) = &config.format_order {
            let mut kinds: Vec<FormatKind> = Vec::new();
            let mut i: usize = 0;
            while i < order.len()
                decreases order.len() - i,
            {
                if let Some(k) = parse_format(order[i].as_str()) {
                    kinds.push(k);
                }
                i = i + 1;
            }
            builder = builder.with_order(&kinds);
        }
        let fast = match builder.error_policy {
            ErrorPolicy::FastFail => true,
            ErrorPolicy::Accumulate => false,
        };
        let mut errors: Vec<SingleIoError> = Vec::new();
        assert(builder.input_specs@.len() == 0);
        let mut i: usize = 0;
        while i < config.inputs.len()
            invariant
                fast ==> errors@.len() == 0,
                fast == (builder.error_policy == ErrorPolicy::FastFail),
                (config.error_policy matches Some(p) && (p@ == "fast_fail"@ || p@ == "fastfail"@)) ==> fast,
                builder.registry@ == reg,
                i <= config.inputs@.len(),
                errors@.len() == 0 ==> builder.input_specs@.len() == i,
                builder.output_specs@.len() == 0,
            decreases config.inputs.len() - i,
        {
            match builder.input_from_config(&config.inputs[i]) {
                Ok(spec) => builder.input_specs.push(spec),
                Err(e) => {
                    errors.push(e);
                    if fast {
                        return Err(AggregateError { errors });
                    }
                },
            }
            i = i + 1;
        }
        let mut j: usize = 0;
        while j < config.outputs.len()
            invariant
                fast ==> errors@.len() == 0,
                (config.error_policy matches Some(p) && (p@ == "fast_fail"@ || p@ == "fastfail"@)) ==> fast,
                builder.registry@ == reg,
                j <= config.outputs@.len(),
                errors@.len() == 0 ==> builder.input_specs@.len() == config.inputs@.len(),
                errors@.len() == 0 ==> builder.output_specs@.len() == j,
            decreases config.outputs.len() - j,
        {
            match builder.output_from_config(&config.outputs[j]) {
                Ok(spec) => builder.output_specs.push(spec),
                Err(e) => {
                    errors.push(e);
                    if fast {
                        return Err(AggregateError { errors });
                    }
                },
            }
            j = j + 1;
        }
        if errors.len() > 0 {
            return Err(AggregateError { errors });
        }
        Ok(builder)
    }
}

/// An engine from a pipeline configuration, over a fresh default registry.
pub fn build_engine_from_pipeline(config: PipelineConfig) -> (r: Result<IoEngine, AggregateError>)
    ensures
        r matches Err(a) ==> a.errors@.len() >= 1,
{
    let registry = crate::registry::default_registry();
    match MultiioBuilder::from_pipeline_config(config, registry) {
        Err(a) => Err(a),
        Ok(b) => b.build(),
    }
}

/// An engine from a pipeline configuration over a fresh default registry,
/// the builder first handed to `customize` (to add custom formats, say).
pub fn build_engine_from_pipeline_with<F: FnOnce(MultiioBuilder) -> MultiioBuilder>(
    config: PipelineConfig,
    customize: F,
) -> (r: Result<IoEngine, AggregateError>)
    requires
        forall|b: MultiioBuilder| customize.requires((b,)),
    ensures
        r matches Err(a) ==> a.errors@.len() >= 1,
{
    let registry = crate::registry::default_registry();
    match MultiioBuilder::from_pipeline_config(config, registry) {
        Err(a) => Err(a),
        Ok(b) => {
            let b = customize(b);
            b.build()
        },
    }
}

} // verus!
