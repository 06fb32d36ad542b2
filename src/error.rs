//! Error policies and the structured errors that every operation returns.
use vstd::prelude::*;
use crate::kind::{FormatKind, KindModel, spec_name};

verus! {

/// Whether a pass over several endpoints stops at the first error or collects them all.
#[derive(Debug, Clone, Copy, PartialEq, Eq, Structural)]
pub enum ErrorPolicy {
    /// Stop at the first error.
    FastFail,
    /// Go on with every endpoint and report every error together.
    Accumulate,
}

impl Default for ErrorPolicy {
    fn default() -> (r: ErrorPolicy)
        ensures
            r == ErrorPolicy::Accumulate,
    {
        ErrorPolicy::Accumulate
    }
}

/// Where in the handling of an endpoint an error arose.
#[derive(Debug, Clone, Copy, PartialEq, Eq, Structural)]
pub enum Stage {
    ResolveInput,
    ResolveOutput,
    /// The stream could not be opened or read.
    Open,
    Parse,
    Serialize,
}

/// Name of a stage as shown in messages.
pub open spec fn spec_stage_name(s: Stage) -> Seq<char> {
    match s {
        Stage::ResolveInput => "ResolveInput"@,
        Stage::ResolveOutput => "ResolveOutput"@,
        Stage::Open => "Open"@,
        Stage::Parse => "Parse"@,
        Stage::Serialize => "Serialize"@,
    }
}

impl Stage {
    /// Name of the stage as shown in messages.
    pub fn name(&self) -> (r: String)
        ensures
            r@ == spec_stage_name(*self),
    {
        match self {
            Stage::ResolveInput => String::from_str("ResolveInput"),
            Stage::ResolveOutput => String::from_str("ResolveOutput"),
            Stage::Open => String::from_str("Open"),
            Stage::Parse => String::from_str("Parse"),
            Stage::Serialize => String::from_str("Serialize"),
        }
    }
}

/// Why a format operation failed.
#[derive(Debug, Clone)]
pub enum FormatError {
    /// The kind was asked for but is not registered, available or backed by a codec.
    UnknownFormat(FormatKind),
    /// No candidate kind is registered and available.
    NoFormatMatched,
    /// The kind's codec is not part of this build.
    NotEnabled(FormatKind),
    /// Reading or writing bytes failed.
    Io(String),
    /// The codec rejected the bytes or the value.
    Serde(String),
    /// Any other failure, such as a custom format without the needed handler.
    Other(String),
}

/// Model of a [`FormatError`].
pub enum FormatErrorModel {
    UnknownFormat(KindModel),
    NoFormatMatched,
    NotEnabled(KindModel),
    Io(Seq<char>),
    Serde(Seq<char>),
    Other(Seq<char>),
}

impl View for FormatError {
    type V = FormatErrorModel;

    open spec fn view(&self) -> FormatErrorModel {
        match self {
            FormatError::UnknownFormat(k) => FormatErrorModel::UnknownFormat(k@),
            FormatError::NoFormatMatched => FormatErrorModel::NoFormatMatched,
            FormatError::NotEnabled(k) => FormatErrorModel::NotEnabled(k@),
            FormatError::Io(m) => FormatErrorModel::Io(m@),
            FormatError::Serde(m) => FormatErrorModel::Serde(m@),
            FormatError::Other(m) => FormatErrorModel::Other(m@),
        }
    }
}

/// The message of a format error.
pub open spec fn spec_format_message(e: FormatErrorModel) -> Seq<char> {
    match e {
        FormatErrorModel::UnknownFormat(k) => "Unknown format: "@ + spec_name(k),
        FormatErrorModel::NoFormatMatched => "No format matched the input"@,
        FormatErrorModel::NotEnabled(k) => "Format '"@ + spec_name(k) + "' is not enabled"@,
        FormatErrorModel::Io(m) => "I/O error: "@ + m,
        FormatErrorModel::Serde(m) => "Serde error: "@ + m,
        FormatErrorModel::Other(m) => "Format error: "@ + m,
    }
}

/// Whether a format error means that no usable format could be determined.
pub open spec fn is_resolution_error(e: FormatErrorModel) -> bool {
    e is UnknownFormat || e is NoFormatMatched || e is NotEnabled
}

impl FormatError {
    /// The message of this error.
    pub fn message(&self) -> (r: String)
        ensures
            r@ == spec_format_message(self@),
    {
        match self {
            FormatError::UnknownFormat(k) => String::from_str("Unknown format: ").concat(
                k.name().as_str(),
            ),
            FormatError::NoFormatMatched => String::from_str("No format matched the input"),
            FormatError::NotEnabled(k) => String::from_str("Format '").concat(
                k.name().as_str(),
            ).concat("' is not enabled"),
            FormatError::Io(m) => String::from_str("I/O error: ").concat(m.as_str()),
            FormatError::Serde(m) => String::from_str("Serde error: ").concat(m.as_str()),
            FormatError::Other(m) => String::from_str("Format error: ").concat(m.as_str()),
        }
    }

    /// A copy of this error.
    pub fn duplicate(&self) -> (r: FormatError)
        ensures
            r@ == self@,
    {
        match self {
            FormatError::UnknownFormat(k) => FormatError::UnknownFormat(k.duplicate()),
            FormatError::NoFormatMatched => FormatError::NoFormatMatched,
            FormatError::NotEnabled(k) => FormatError::NotEnabled(k.duplicate()),
            FormatError::Io(m) => FormatError::Io(m.clone()),
            FormatError::Serde(m) => FormatError::Serde(m.clone()),
            FormatError::Other(m) => FormatError::Other(m.clone()),
        }
    }

    /// Whether this error means that no usable format could be determined.
    pub fn is_resolution(&self) -> (r: bool)
        ensures
            r == is_resolution_error(self@),
    {
        match self {
            FormatError::UnknownFormat(_) => true,
            FormatError::NoFormatMatched => true,
            FormatError::NotEnabled(_) => true,
            _ => false,
        }
    }
}

/// One endpoint's failure: the stage, the endpoint's identity and the cause.
#[derive(Debug, Clone)]
pub struct SingleIoError {
    pub stage: Stage,
    /// The endpoint's raw identity ("-" for stdin or stdout, a path, an inline id).
    pub target: String,
    pub error: FormatError,
}

/// Model of a [`SingleIoError`].
pub struct IoErrorModel {
    pub stage: Stage,
    pub target: Seq<char>,
    pub error: FormatErrorModel,
}

impl View for SingleIoError {
    type V = IoErrorModel;

    open spec fn view(&self) -> IoErrorModel {
        IoErrorModel { stage: self.stage, target: self.target@, error: self.error@ }
    }
}

/// The message of an endpoint error: `[stage] target: cause`.
pub open spec fn spec_io_message(e: IoErrorModel) -> Seq<char> {
    "["@ + spec_stage_name(e.stage) + "] "@ + e.target + ": "@ + spec_format_message(e.error)
}

impl SingleIoError {
    /// An endpoint error with the given parts.
    pub fn new(stage: Stage, target: &str, error: FormatError) -> (r: SingleIoError)
        ensures
            r@ == (IoErrorModel { stage, target: target@, error: error@ }),
    {
        SingleIoError { stage, target: String::from_str(target), error }
    }

    /// The message of this error.
    pub fn message(&self) -> (r: String)
        ensures
            r@ == spec_io_message(self@),
    {
        String::from_str("[").concat(self.stage.name().as_str()).concat("] ").concat(
            self.target.as_str(),
        ).concat(": ").concat(self.error.message().as_str())
    }
}

/// Models of a sequence of endpoint errors.
pub open spec fn errors_view(s: Seq<SingleIoError>) -> Seq<IoErrorModel> {
    s.map_values(|e: SingleIoError| e@)
}

/// Decimal digit character.
pub open spec fn digit_char(d: nat) -> char {
    (('0' as u8) + (d as u8)) as char
}

/// Decimal notation of a natural number.
pub open spec fn decimal(n: nat) -> Seq<char>
    decreases n,
{
    if n < 10 {
        seq![digit_char(n)]
    } else {
        decimal(n / 10).push(digit_char(n % 10))
    }
}

/// Decimal notation of `n`.
pub fn decimal_text(n: usize) -> (r: String)
    ensures
        r@ == decimal(n as nat),
    decreases n,
{
    let d = ((n % 10) as u8 + ('0' as u8)) as char;
    if n < 10 {
        let mut s = String::new();
        s.push(d);
        s
    } else {
        let mut s = decimal_text(n / 10);
        s.push(d);
        s
    }
}

/// Every endpoint error of one operation, in the order the endpoints were handled.
#[derive(Debug, Clone)]
pub struct AggregateError {
    pub errors: Vec<SingleIoError>,
}

/// The report of an aggregate error, from its `k`-th line on.
pub open spec fn report_lines(errors: Seq<IoErrorModel>, k: nat) -> Seq<char>
    decreases errors.len() - k,
{
    if k >= errors.len() {
        seq![]
    } else {
        "  #"@ + decimal(k + 1) + ": "@ + spec_io_message(errors[k as int]) + "\n"@
            + report_lines(errors, k + 1)
    }
}

/// The full report of an aggregate error: a count line, then one line per error.
pub open spec fn spec_report(errors: Seq<IoErrorModel>) -> Seq<char> {
    "I/O encountered "@ + decimal(errors.len()) + " error(s):\n"@ + report_lines(errors, 0)
}

impl AggregateError {
    /// An aggregate holding one error.
    pub fn single(error: SingleIoError) -> (r: AggregateError)
        ensures
            r.errors@ == seq![error],
    {
        let mut errors = Vec::new();
        errors.push(error);
        AggregateError { errors }
    }

    /// Whether it holds no error.
    pub fn is_empty(&self) -> (r: bool)
        ensures
            r == (self.errors@.len() == 0),
    {
        self.errors.len() == 0
    }

    /// The number of errors.
    pub fn len(&self) -> (r: usize)
        ensures
            r == self.errors@.len(),
    {
        self.errors.len()
    }

    /// The report: how many errors, then each one numbered from 1.
    pub fn report(&self) -> (r: String)
        ensures
            r@ == spec_report(errors_view(self.errors@)),
    {
        let n = self.errors.len();
        let mut tail = String::new();
        let mut k: usize = n;
        while k > 0
            invariant
                n == self.errors@.len(),
                k <= n,
                tail@ == report_lines(errors_view(self.errors@), k as nat),
            decreases k,
        {
            k = k - 1;
            let line = String::from_str("  #").concat(decimal_text(k + 1).as_str()).concat(
                ": ",
            ).concat(self.errors[k].message().as_str()).concat("\n").concat(tail.as_str());
            tail = line;
        }
        String::from_str("I/O encountered ").concat(decimal_text(n).as_str()).concat(
            " error(s):\n",
        ).concat(tail.as_str())
    }
}

impl From<SingleIoError> for AggregateError {
    fn from(error: SingleIoError) -> AggregateError {
        AggregateError::single(error)
    }
}

/// The conversion is [`AggregateError::single`], whose contract states the result;
/// a vector is not determined by its contents, so no exact `from_spec` is claimed.
impl vstd::std_specs::convert::FromSpecImpl<SingleIoError> for AggregateError {
    open spec fn obeys_from_spec() -> bool {
        false
    }

    open spec fn from_spec(error: SingleIoError) -> AggregateError {
        AggregateError { errors: choose|v: Vec<SingleIoError>| v@ == seq![error] }
    }
}

} // verus!
