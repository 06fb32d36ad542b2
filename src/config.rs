//! Endpoint specifications and pipeline configuration.
use vstd::prelude::*;
use crate::io::{FileInput, FileOutput, InMemorySink, InMemorySource, StderrOutput, StdinInput, StdoutOutput};
use crate::kind::{FormatKind, ascii_lowercase, lower};
use crate::text::text_eq;

verus! {

/// What to do with an output that already holds content.
#[derive(Debug, Clone, Copy, PartialEq, Eq, Structural)]
pub enum FileExistsPolicy {
    /// Replace the content.
    Overwrite,
    /// Keep the content and write after it.
    Append,
    /// Refuse; targets that cannot tell are opened as with `Overwrite`.
    Error,
}

impl Default for FileExistsPolicy {
    fn default() -> (r: FileExistsPolicy)
        ensures
            r == FileExistsPolicy::Error,
    {
        FileExistsPolicy::Error
    }
}

/// The policy a name denotes, ignoring ASCII case.
pub open spec fn spec_policy(s: Seq<char>) -> Option<FileExistsPolicy> {
    let l = lower(s);
    if l == "overwrite"@ {
        Some(FileExistsPolicy::Overwrite)
    } else if l == "append"@ {
        Some(FileExistsPolicy::Append)
    } else if l == "error"@ {
        Some(FileExistsPolicy::Error)
    } else {
        None
    }
}

impl FileExistsPolicy {
    /// Parses a policy name, ignoring ASCII case.
    pub fn from_str(s: &str) -> (r: Option<FileExistsPolicy>)
        ensures
            r == spec_policy(s@),
    {
        let l = ascii_lowercase(s);
        if text_eq(l.as_str(), "overwrite") {
            Some(FileExistsPolicy::Overwrite)
        } else if text_eq(l.as_str(), "append") {
            Some(FileExistsPolicy::Append)
        } else if text_eq(l.as_str(), "error") {
            Some(FileExistsPolicy::Error)
        } else {
            None
        }
    }
}

/// Where an input's bytes come from.
#[derive(Debug, Clone)]
pub enum InputSource {
    Stdin(StdinInput),
    File(FileInput),
    Memory(InMemorySource),
    /// A source that the caller opens itself, known by its identity.
    Other(String),
}

/// Where an output's bytes go.
#[derive(Debug, Clone)]
pub enum OutputDest {
    Stdout(StdoutOutput),
    Stderr(StderrOutput),
    File(FileOutput),
    Memory(InMemorySink),
    /// A target that the caller writes itself, known by its identity.
    Other(String),
}

/// One input endpoint: its identity, source, explicit format and candidates.
#[derive(Debug, Clone)]
pub struct InputSpec {
    /// Identity used in errors: "-" for stdin, a path, an inline id.
    pub raw: String,
    pub provider: InputSource,
    pub explicit_format: Option<FormatKind>,
    /// Formats tried in order when no explicit format applies.
    pub format_candidates: Vec<FormatKind>,
}

impl InputSpec {
    /// An input with no explicit format and no candidates.
    pub fn new(raw: &str, provider: InputSource) -> (r: InputSpec)
        ensures
            r.raw@ == raw@,
            r.provider == provider,
            r.explicit_format is None,
            r.format_candidates@.len() == 0,
    {
        InputSpec { raw: String::from_str(raw), provider, explicit_format: None, format_candidates: Vec::new() }
    }

    /// The same input with an explicit format.
    pub fn with_format(self, format: FormatKind) -> (r: InputSpec)
        ensures
            r.raw == self.raw,
            r.provider == self.provider,
            r.explicit_format == Some(format),
            r.format_candidates == self.format_candidates,
    {
        InputSpec { explicit_format: Some(format), ..self }
    }

    /// The same input with the given candidates.
    pub fn with_candidates(self, candidates: Vec<FormatKind>) -> (r: InputSpec)
        ensures
            r.raw == self.raw,
            r.provider == self.provider,
            r.explicit_format == self.explicit_format,
            r.format_candidates == candidates,
    {
        InputSpec { format_candidates: candidates, ..self }
    }
}

/// One output endpoint: its identity, target, formats and existing-content policy.
#[derive(Debug, Clone)]
pub struct OutputSpec {
    /// Identity used in errors: "-" for stdout, "stderr", a path.
    pub raw: String,
    pub target: OutputDest,
    pub explicit_format: Option<FormatKind>,
    /// Formats tried in order when no explicit format applies.
    pub format_candidates: Vec<FormatKind>,
    pub file_exists_policy: FileExistsPolicy,
}

impl OutputSpec {
    /// An output with no explicit format, no candidates and the default policy.
    pub fn new(raw: &str, target: OutputDest) -> (r: OutputSpec)
        ensures
            r.raw@ == raw@,
            r.target == target,
            r.explicit_format is None,
            r.format_candidates@.len() == 0,
            r.file_exists_policy == FileExistsPolicy::Error,
    {
        OutputSpec {
            raw: String::from_str(raw),
            target,
            explicit_format: None,
            format_candidates: Vec::new(),
            file_exists_policy: FileExistsPolicy::Error,
        }
    }

    /// The same output with an explicit format.
    pub fn with_format(self, format: FormatKind) -> (r: OutputSpec)
        ensures
            r.raw == self.raw,
            r.target == self.target,
            r.explicit_format == Some(format),
            r.format_candidates == self.format_candidates,
            r.file_exists_policy == self.file_exists_policy,
    {
        OutputSpec { explicit_format: Some(format), ..self }
    }

    /// The same output with the given candidates.
    pub fn with_candidates(self, candidates: Vec<FormatKind>) -> (r: OutputSpec)
        ensures
            r.raw == self.raw,
            r.target == self.target,
            r.explicit_format == self.explicit_format,
            r.format_candidates == candidates,
            r.file_exists_policy == self.file_exists_policy,
    {
        OutputSpec { format_candidates: candidates, ..self }
    }

    /// The same output with the given policy.
    pub fn with_file_exists_policy(self, policy: FileExistsPolicy) -> (r: OutputSpec)
        ensures
            r.raw == self.raw,
            r.target == self.target,
            r.explicit_format == self.explicit_format,
            r.format_candidates == self.format_candidates,
            r.file_exists_policy == policy,
    {
        OutputSpec { file_exists_policy: policy, ..self }
    }
}

/// One input of a pipeline configuration.
#[derive(Debug, Clone)]
pub struct InputConfig {
    pub id: String,
    /// "stdin", "-" or "file".
    pub kind: String,
    pub path: Option<String>,
    pub url: Option<String>,
    pub format: Option<String>,
}

/// One output of a pipeline configuration.
#[derive(Debug, Clone)]
pub struct OutputConfig {
    pub id: String,
    /// "stdout", "-", "stderr" or "file".
    pub kind: String,
    pub path: Option<String>,
    pub format: Option<String>,
    pub file_exists_policy: Option<String>,
}

/// A whole pipeline: its inputs, outputs, error policy name and format order.
#[derive(Debug, Clone)]
pub struct PipelineConfig {
    pub inputs: Vec<InputConfig>,
    pub outputs: Vec<OutputConfig>,
    pub error_policy: Option<String>,
    pub format_order: Option<Vec<String>>,
}

impl PipelineConfig {
    /// An empty configuration.
    pub fn new() -> (r: PipelineConfig)
        ensures
            r.inputs@.len() == 0,
            r.outputs@.len() == 0,
            r.error_policy is None,
            r.format_order is None,
    {
        PipelineConfig { inputs: Vec::new(), outputs: Vec::new(), error_policy: None, format_order: None }
    }

    /// The configuration with one more input.
    pub fn add_input(self, input: InputConfig) -> (r: PipelineConfig)
        ensures
            r.inputs@ == self.inputs@.push(input),
            r.outputs == self.outputs,
            r.error_policy == self.error_policy,
            r.format_order == self.format_order,
    {
        let mut r = self;
        r.inputs.push(input);
        r
    }

    /// The configuration with one more output.
    pub fn add_output(self, output: OutputConfig) -> (r: PipelineConfig)
        ensures
            r.outputs@ == self.outputs@.push(output),
            r.inputs == self.inputs,
            r.error_policy == self.error_policy,
            r.format_order == self.format_order,
    {
        let mut r = self;
        r.outputs.push(output);
        r
    }

    /// The configuration with the given error policy name.
    pub fn with_error_policy(self, policy: &str) -> (r: PipelineConfig)
        ensures
            r.error_policy matches Some(p) && p@ == policy@,
            r.inputs == self.inputs,
            r.outputs == self.outputs,
            r.format_order == self.format_order,
    {
        PipelineConfig { error_policy: Some(String::from_str(policy)), ..self }
    }

    /// The configuration with the given format order.
    pub fn with_format_order(self, order: Vec<String>) -> (r: PipelineConfig)
        ensures
            r.format_order == Some(order),
            r.inputs == self.inputs,
            r.outputs == self.outputs,
            r.error_policy == self.error_policy,
    {
        PipelineConfig { format_order: Some(order), ..self }
    }
}

} // verus!
