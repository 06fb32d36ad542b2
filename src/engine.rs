//! The synchronous engine: reads every input and writes every output under the
//! configured error policy.
//!
//! Deciding is done here; opening and moving bytes is done by the caller
//! through [`EndpointIo`]. Each step also stands on its own (`read_input`,
//! `encode_output`, `delivered`, `records_for`) with an exact contract, for
//! callers that drive a [`Pass`] themselves.
use vstd::prelude::*;
use crate::config::{FileExistsPolicy, InputSource, InputSpec, OutputDest, OutputSpec};
use crate::csv::array_value;
use crate::error::{AggregateError, ErrorPolicy, FormatError, FormatErrorModel, IoErrorModel, SingleIoError, Stage};
use crate::format::{CustomCodec, registry_decoded, registry_encoded, registry_streamed, stream_deserialize};
use crate::io::InMemorySink;
use crate::kind::{FormatKind, KindModel, kinds_view, opt_kind};
use crate::pass::{Pass, PassModel, ended, errs_of, pending, reports};
use crate::registry::{FormatRegistry, RegistryModel, spec_resolve};
use crate::text::text_eq;

verus! {

/// What delivering bytes to an output came to.
pub enum WriteOutcome {
    Written,
    /// The target could not be opened.
    OpenFailed(String),
    /// The target was opened but the bytes could not be written.
    WriteFailed(String),
}

/// The caller's side of endpoint I/O.
pub trait EndpointIo {
    /// All bytes of an input, or why they could not be had.
    fn open_input(&mut self, spec: &InputSpec) -> Result<Vec<u8>, String>;

    /// Opens an output (appending or overwriting) and writes the bytes.
    fn write_output(&mut self, spec: &OutputSpec, append: bool, bytes: &[u8]) -> WriteOutcome;
}

/// Model of opening an input: its bytes, or the failure message.
pub open spec fn opened_view(o: Result<Vec<u8>, String>) -> Result<Seq<u8>, Seq<char>> {
    match o {
        Ok(b) => Ok(b@),
        Err(m) => Err(m@),
    }
}

/// The error of an endpoint that could not be opened.
pub open spec fn open_error(raw: Seq<char>, m: Seq<char>) -> IoErrorModel {
    IoErrorModel { stage: Stage::Open, target: raw, error: FormatErrorModel::Io(m) }
}

/// Whether `r` is what reading the input gives when opening it gave `opened`:
/// an `Open` error, or the registry's decoding of the bytes with failures
/// reported at the `Parse` stage.
pub open spec fn read_result(
    r: Result<serde_json::Value, SingleIoError>,
    reg: RegistryModel,
    spec: InputSpec,
    opened: Result<Seq<u8>, Seq<char>>,
) -> bool {
    match opened {
        Err(m) => r matches Err(e) && e@ == open_error(spec.raw@, m),
        Ok(b) => match r {
            Ok(v) => registry_decoded(
                Ok(v),
                reg,
                opt_kind(spec.explicit_format),
                kinds_view(spec.format_candidates@),
                b,
            ),
            Err(e) => e.stage == Stage::Parse && e.target@ == spec.raw@ && registry_decoded(
                Err(e.error),
                reg,
                opt_kind(spec.explicit_format),
                kinds_view(spec.format_candidates@),
                b,
            ),
        },
    }
}

/// Whether `r` is what encoding the value for the output gives, failures
/// reported at the `Serialize` stage.
pub open spec fn encode_result(
    r: Result<Vec<u8>, SingleIoError>,
    reg: RegistryModel,
    spec: OutputSpec,
    v: serde_json::Value,
) -> bool {
    match r {
        Ok(b) => registry_encoded(
            Ok(b),
            reg,
            opt_kind(spec.explicit_format),
            kinds_view(spec.format_candidates@),
            v,
        ),
        Err(e) => e.stage == Stage::Serialize && e.target@ == spec.raw@ && registry_encoded(
            Err(e.error),
            reg,
            opt_kind(spec.explicit_format),
            kinds_view(spec.format_candidates@),
            v,
        ),
    }
}

/// What a delivery outcome means for the output: success, an `Open` error, or
/// a `Serialize` error for bytes that could not be written.
pub open spec fn delivery_result(raw: Seq<char>, o: WriteOutcome) -> Result<(), IoErrorModel> {
    match o {
        WriteOutcome::Written => Ok(()),
        WriteOutcome::OpenFailed(m) => Err(open_error(raw, m@)),
        WriteOutcome::WriteFailed(m) => Err(IoErrorModel { stage: Stage::Serialize, target: raw, error: FormatErrorModel::Io(m@) }),
    }
}

/// Whether `items` are a decoded record stream seen from an endpoint: each
/// record kept, each failure reported at the `Parse` stage.
pub open spec fn records_as(
    items: Seq<Result<serde_json::Value, SingleIoError>>,
    raw: Seq<char>,
    decoded: Seq<Result<serde_json::Value, FormatError>>,
) -> bool {
    items.len() == decoded.len() && forall|j: int| 0 <= j < items.len() ==> match #[trigger] decoded[j] {
        Ok(v) => items[j] == Ok::<serde_json::Value, SingleIoError>(v),
        Err(e) => items[j] matches Err(x) && x.stage == Stage::Parse && x.target@ == raw && x.error@ == e@,
    }
}

/// Whether `items` are what the endpoint shows of a stream outcome: its
/// records, or one `Parse` error when no stream could be made.
pub open spec fn items_of_stream(
    items: Seq<Result<serde_json::Value, SingleIoError>>,
    raw: Seq<char>,
    s: Result<Vec<Result<serde_json::Value, FormatError>>, FormatError>,
) -> bool {
    match s {
        Ok(d) => records_as(items, raw, d@),
        Err(e) => items.len() == 1 && (items[0] matches Err(x) && x.stage == Stage::Parse && x.target@
            == raw && x.error@ == e@),
    }
}

/// Whether `items` are what the endpoint shows of some record stream that the
/// registry may produce for the bytes.
pub open spec fn streams_to(
    items: Seq<Result<serde_json::Value, SingleIoError>>,
    reg: RegistryModel,
    input: InputSpec,
    b: Seq<u8>,
) -> bool {
    exists|s: Result<Vec<Result<serde_json::Value, FormatError>>, FormatError>|
        #[trigger] registry_streamed(s, reg, opt_kind(input.explicit_format), kinds_view(input.format_candidates@), b)
            && items_of_stream(items, input.raw@, s)
}

/// Whether `items` are what streaming the input's records gives when opening
/// it gave `opened`: one `Open` error, or what the endpoint shows of the
/// registry's record stream for the bytes.
pub open spec fn records_result(
    items: Seq<Result<serde_json::Value, SingleIoError>>,
    reg: RegistryModel,
    input: InputSpec,
    opened: Result<Seq<u8>, Seq<char>>,
) -> bool {
    match opened {
        Err(m) => items.len() == 1 && (items[0] matches Err(e) && e@ == open_error(input.raw@, m)),
        Ok(b) => streams_to(items, reg, input, b),
    }
}

/// The items of several endpoints, endpoint after endpoint.
pub open spec fn concat(parts: Seq<Seq<Result<serde_json::Value, SingleIoError>>>) -> Seq<Result<serde_json::Value, SingleIoError>>
    decreases parts.len(),
{
    if parts.len() == 0 {
        seq![]
    } else {
        concat(parts.drop_last()) + parts.last()
    }
}

/// Whether `items` are what streaming the input's records gives for some result of opening it.
pub open spec fn recordable(items: Seq<Result<serde_json::Value, SingleIoError>>, reg: RegistryModel, input: InputSpec) -> bool {
    exists|o: Result<Seq<u8>, Seq<char>>| records_result(items, reg, input, o)
}

/// Whether `items` are what reading the input's records as kind `wanted`
/// gives when opening it gave `opened`: one `ResolveInput` error when it
/// resolves otherwise (then the input need not be opened), else one `Open`
/// error or the native record stream of exactly the bytes opened.
pub open spec fn kind_records_for(
    items: Seq<Result<serde_json::Value, SingleIoError>>,
    reg: RegistryModel,
    input: InputSpec,
    wanted: KindModel,
    opened: Result<Seq<u8>, Seq<char>>,
) -> bool {
    match spec_resolve(reg.formats, opt_kind(input.explicit_format), kinds_view(input.format_candidates@)) {
        Err(e) => items.len() == 1 && (items[0] matches Err(x) && x@ == (IoErrorModel { stage: Stage::ResolveInput, target: input.raw@, error: e })),
        Ok(k) => if k != wanted {
            items.len() == 1 && (items[0] matches Err(x) && x@ == (IoErrorModel {
                stage: Stage::ResolveInput,
                target: input.raw@,
                error: FormatErrorModel::UnknownFormat(k),
            }))
        } else {
            match opened {
                Err(m) => items.len() == 1 && (items[0] matches Err(x) && x@ == open_error(input.raw@, m)),
                Ok(b) => native_stream_of(items, k, input.raw@, b),
            }
        },
    }
}

/// Whether `items` are what the endpoint shows of the built-in record stream
/// of `k` over the bytes `b`.
pub open spec fn native_stream_of(items: Seq<Result<serde_json::Value, SingleIoError>>, k: KindModel, raw: Seq<char>, b: Seq<u8>) -> bool {
    exists|s: Result<Vec<Result<serde_json::Value, FormatError>>, FormatError>|
        #[trigger] crate::format::builtin_streamed(s, k, b) && items_of_stream(items, raw, s)
}

/// Whether `items` are what reading the input's records as kind `wanted` gives
/// for some result of opening it.
pub open spec fn kind_records_result(
    items: Seq<Result<serde_json::Value, SingleIoError>>,
    reg: RegistryModel,
    input: InputSpec,
    wanted: KindModel,
) -> bool {
    exists|o: Result<Seq<u8>, Seq<char>>| kind_records_for(items, reg, input, wanted, o)
}

/// Model of an engine.
pub struct EngineModel {
    pub registry: RegistryModel,
    pub policy: ErrorPolicy,
    pub inputs: Seq<InputSpec>,
    pub outputs: Seq<OutputSpec>,
}

/// Whether an outcome is what reading the input gives for some result of opening it.
pub open spec fn readable(r: Result<serde_json::Value, SingleIoError>, reg: RegistryModel, spec: InputSpec) -> bool {
    exists|o: Result<Seq<u8>, Seq<char>>| read_result(r, reg, spec, o)
}

/// Whether each outcome is what reading the corresponding input gives for some
/// result of opening it.
pub open spec fn reads_of(outcomes: Seq<Result<serde_json::Value, SingleIoError>>, e: EngineModel) -> bool {
    outcomes.len() <= e.inputs.len() && forall|j: int|
        0 <= j < outcomes.len() ==> readable(#[trigger] outcomes[j], e.registry, e.inputs[j])
}

/// Whether an output's outcome fits encoding the value for it: success needs
/// bytes the registry produced; a failure is an encoding failure or, after
/// encoding succeeded, a delivery failure of that output at the `Open` or
/// `Serialize` stage with an I/O cause.
pub open spec fn writable(r: Result<(), SingleIoError>, reg: RegistryModel, spec: OutputSpec, v: serde_json::Value) -> bool {
    match r {
        Ok(_) => exists|b: Result<Vec<u8>, SingleIoError>| encode_result(b, reg, spec, v) && b is Ok,
        Err(x) => (exists|b: Result<Vec<u8>, SingleIoError>|
            encode_result(b, reg, spec, v) && b == Err::<Vec<u8>, SingleIoError>(x)) || ((exists|
            b: Result<Vec<u8>, SingleIoError>|
            encode_result(b, reg, spec, v) && b is Ok) && x.target@ == spec.raw@ && (x.stage == Stage::Open
            || x.stage == Stage::Serialize) && x.error@ is Io),
    }
}

/// Whether each outcome fits encoding the value for the corresponding output.
pub open spec fn writes_of(outcomes: Seq<Result<(), SingleIoError>>, e: EngineModel, v: serde_json::Value) -> bool {
    outcomes.len() <= e.outputs.len() && forall|j: int|
        0 <= j < outcomes.len() ==> writable(#[trigger] outcomes[j], e.registry, e.outputs[j], v)
}

/// The synchronous engine: a registry, a policy, and the endpoints.
pub struct IoEngine {
    registry: FormatRegistry,
    error_policy: ErrorPolicy,
    inputs: Vec<InputSpec>,
    outputs: Vec<OutputSpec>,
}

impl View for IoEngine {
    type V = EngineModel;

    closed spec fn view(&self) -> EngineModel {
        EngineModel {
            registry: self.registry@,
            policy: self.error_policy,
            inputs: self.inputs@,
            outputs: self.outputs@,
        }
    }
}

/// Copies of a sequence of kinds.
fn copy_kinds(ks: &Vec<FormatKind>) -> (r: Vec<FormatKind>)
    ensures
        kinds_view(r@) == kinds_view(ks@),
{
    let mut out: Vec<FormatKind> = Vec::new();
    let mut i: usize = 0;
    while i < ks.len()
        invariant
            i <= ks@.len(),
            out@.len() == i,
            forall|j: int| 0 <= j < i ==> (#[trigger] out@[j])@ == ks@[j]@,
        decreases ks.len() - i,
    {
        out.push(ks[i].duplicate());
        i = i + 1;
    }
    assert(kinds_view(out@) =~= kinds_view(ks@));
    out
}

impl IoEngine {
    /// An engine over the given registry, policy and endpoints.
    pub fn new(
        registry: FormatRegistry,
        error_policy: ErrorPolicy,
        inputs: Vec<InputSpec>,
        outputs: Vec<OutputSpec>,
    ) -> (r: IoEngine)
        ensures
            r@ == (EngineModel { registry: registry@, policy: error_policy, inputs: inputs@, outputs: outputs@ }),
    {
        IoEngine { registry, error_policy, inputs, outputs }
    }

    /// The registry, policy and endpoints, giving up the engine.
    pub fn into_parts(self) -> (r: (FormatRegistry, ErrorPolicy, Vec<InputSpec>, Vec<OutputSpec>))
        ensures
            r.0@ == self@.registry,
            r.1 == self@.policy,
            r.2@ == self@.inputs,
            r.3@ == self@.outputs,
    {
        (self.registry, self.error_policy, self.inputs, self.outputs)
    }

    /// The registry.
    pub fn registry(&self) -> (r: &FormatRegistry)
        ensures
            r@ == self@.registry,
    {
        &self.registry
    }

    /// The error policy.
    pub fn error_policy(&self) -> (r: ErrorPolicy)
        ensures
            r == self@.policy,
    {
        self.error_policy
    }

    /// The input specifications.
    pub fn inputs(&self) -> (r: &Vec<InputSpec>)
        ensures
            r@ == self@.inputs,
    {
        &self.inputs
    }

    /// The output specifications.
    pub fn outputs(&self) -> (r: &Vec<OutputSpec>)
        ensures
            r@ == self@.outputs,
    {
        &self.outputs
    }

    /// Reads input `i` from what opening it gave.
    pub fn read_input<C: CustomCodec>(
        &self,
        codecs: &C,
        i: usize,
        opened: Result<Vec<u8>, String>,
    ) -> (r: Result<serde_json::Value, SingleIoError>)
        requires
            i < self@.inputs.len(),
        ensures
            read_result(r, self@.registry, self@.inputs[i as int], opened_view(opened)),
    {
        let spec = &self.inputs[i];
        let bytes = match opened {
            Err(m) => return Err(SingleIoError::new(Stage::Open, spec.raw.as_str(), FormatError::Io(m))),
            Ok(b) => b,
        };
        let cands = copy_kinds(&spec.format_candidates);
        proof {
            assert(kinds_view(cands@) == cands@.map_values(|k: FormatKind| k@));
        }
        match self.registry.deserialize_value(codecs, spec.explicit_format.as_ref(), cands.as_slice(), bytes.as_slice()) {
            Ok(v) => Ok(v),
            Err(e) => Err(SingleIoError::new(Stage::Parse, spec.raw.as_str(), e)),
        }
    }

    /// Encodes the value for output `i`.
    pub fn encode_output<C: CustomCodec>(
        &self,
        codecs: &C,
        i: usize,
        value: &serde_json::Value,
    ) -> (r: Result<Vec<u8>, SingleIoError>)
        requires
            i < self@.outputs.len(),
        ensures
            encode_result(r, self@.registry, self@.outputs[i as int], *value),
    {
        let spec = &self.outputs[i];
        let cands = copy_kinds(&spec.format_candidates);
        proof {
            assert(kinds_view(cands@) == cands@.map_values(|k: FormatKind| k@));
        }
        match self.registry.serialize_value(codecs, spec.explicit_format.as_ref(), cands.as_slice(), value) {
            Ok(b) => Ok(b),
            Err(e) => Err(SingleIoError::new(Stage::Serialize, spec.raw.as_str(), e)),
        }
    }

    /// Whether output `i` is opened for appending (otherwise it is overwritten).
    pub fn opens_appending(&self, i: usize) -> (r: bool)
        requires
            i < self@.outputs.len(),
        ensures
            r == (self@.outputs[i as int].file_exists_policy == FileExistsPolicy::Append),
    {
        match self.outputs[i].file_exists_policy {
            FileExistsPolicy::Append => true,
            _ => false,
        }
    }

    /// What delivering bytes to output `i` came to, as that output's outcome.
    pub fn delivered(&self, i: usize, outcome: WriteOutcome) -> (r: Result<(), SingleIoError>)
        requires
            i < self@.outputs.len(),
        ensures
            match (r, delivery_result(self@.outputs[i as int].raw@, outcome)) {
                (Ok(_), Ok(_)) => true,
                (Err(e), Err(m)) => e@ == m,
                _ => false,
            },
    {
        let raw = self.outputs[i].raw.as_str();
        match outcome {
            WriteOutcome::Written => Ok(()),
            WriteOutcome::OpenFailed(m) => Err(SingleIoError::new(Stage::Open, raw, FormatError::Io(m))),
            WriteOutcome::WriteFailed(m) => Err(SingleIoError::new(Stage::Serialize, raw, FormatError::Io(m))),
        }
    }

    /// A fresh pass over the inputs.
    pub fn start_read(&self) -> (r: Pass<serde_json::Value>)
        ensures
            r.wf(),
            r@ == (PassModel::<serde_json::Value> { policy: self@.policy, total: self@.inputs.len(), outcomes: seq![] }),
    {
        Pass::new(self.error_policy, self.inputs.len())
    }

    /// A fresh pass over the outputs.
    pub fn start_write(&self) -> (r: Pass<()>)
        ensures
            r.wf(),
            r@ == (PassModel::<()> { policy: self@.policy, total: self@.outputs.len(), outcomes: seq![] }),
    {
        Pass::new(self.error_policy, self.outputs.len())
    }

    /// Reads every input in order under the policy: fail-fast stops at the
    /// first failing input, accumulate reads them all. The result reports
    /// every value in input order, or every failure in order.
    pub fn read_all<C: CustomCodec, E: EndpointIo>(&self, codecs: &C, io: &mut E) -> (r: Result<Vec<serde_json::Value>, AggregateError>)
        ensures
            exists|outcomes: Seq<Result<serde_json::Value, SingleIoError>>|
                ended(self@.policy, self@.inputs.len(), outcomes)
                && reads_of(outcomes, self@) && reports(r, outcomes),
    {
        let mut pass = self.start_read();
        loop
            invariant
                pass.wf(),
                pass@.policy == self@.policy,
                pass@.total == self@.inputs.len(),
                reads_of(pass@.outcomes, self@),
            ensures
                pass.wf(),
                pass@.policy == self@.policy,
                pass@.total == self@.inputs.len(),
                reads_of(pass@.outcomes, self@),
                pending(pass@) is None,
            decreases pass@.total - pass@.outcomes.len(),
        {
            proof {
                pass.lemma_pass_facts();
            }
            match pass.next_index() {
                None => break,
                Some(i) => {
                    let opened = io.open_input(&self.inputs[i]);
                    let ghost o = opened_view(opened);
                    let r = self.read_input(codecs, i, opened);
                    assert(read_result(r, self@.registry, self@.inputs[i as int], o));
                    let ghost before = pass@.outcomes;
                    pass.record(r);
                    proof {
                        assert(pass@.outcomes == before.push(r));
                        assert forall|j: int| 0 <= j < pass@.outcomes.len() implies readable(
                            #[trigger] pass@.outcomes[j],
                            self@.registry,
                            self@.inputs[j],
                        ) by {
                            if j < before.len() {
                                assert(pass@.outcomes[j] == before[j]);
                            }
                        }
                    }
                },
            }
        }
        proof {
            pass.lemma_ended();
        }
        let ghost outcomes = pass@.outcomes;
        let r = pass.finish();
        assert(ended(self@.policy, self@.inputs.len(), outcomes));
        r
    }

    /// Encodes the value for every output in order and hands the bytes to the
    /// caller, under the policy.
    fn write_value<C: CustomCodec, E: EndpointIo>(&self, codecs: &C, io: &mut E, value: &serde_json::Value) -> (r: Result<(), AggregateError>)
        ensures
            exists|outcomes: Seq<Result<(), SingleIoError>>|
                ended(self@.policy, self@.outputs.len(), outcomes)
                && writes_of(outcomes, self@, *value) && match r {
                    Ok(_) => errs_of(outcomes).len() == 0,
                    Err(a) => errs_of(outcomes).len() > 0 && a.errors@ == errs_of(outcomes),
                },
    {
        let mut pass = self.start_write();
        loop
            invariant
                pass.wf(),
                pass@.policy == self@.policy,
                pass@.total == self@.outputs.len(),
                writes_of(pass@.outcomes, self@, *value),
            ensures
                pass.wf(),
                pass@.policy == self@.policy,
                pass@.total == self@.outputs.len(),
                writes_of(pass@.outcomes, self@, *value),
                pending(pass@) is None,
            decreases pass@.total - pass@.outcomes.len(),
        {
            proof {
                pass.lemma_pass_facts();
            }
            match pass.next_index() {
                None => break,
                Some(i) => {
                    let encoded = self.encode_output(codecs, i, value);
                    let ghost enc = encoded;
                    let r = match encoded {
                        Err(e) => Err(e),
                        Ok(bytes) => {
                            let out = io.write_output(&self.outputs[i], self.opens_appending(i), bytes.as_slice());
                            self.delivered(i, out)
                        },
                    };
                    assert(writable(r, self@.registry, self@.outputs[i as int], *value)) by {
                        assert(encode_result(enc, self@.registry, self@.outputs[i as int], *value));
                    }
                    let ghost before = pass@.outcomes;
                    pass.record(r);
                    proof {
                        assert(pass@.outcomes == before.push(r));
                        assert forall|j: int| 0 <= j < pass@.outcomes.len() implies writable(
                            #[trigger] pass@.outcomes[j],
                            self@.registry,
                            self@.outputs[j],
                            *value,
                        ) by {
                            if j < before.len() {
                                assert(pass@.outcomes[j] == before[j]);
                            }
                        }
                    }
                },
            }
        }
        proof {
            pass.lemma_ended();
        }
        let ghost outcomes = pass@.outcomes;
        let r = match pass.finish() {
            Ok(_) => Ok(()),
            Err(a) => Err(a),
        };
        assert(ended(self@.policy, self@.outputs.len(), outcomes));
        r
    }

    /// Writes the whole collection, encoded once as one array, to every output.
    pub fn write_all<C: CustomCodec, E: EndpointIo>(&self, codecs: &C, io: &mut E, values: &Vec<serde_json::Value>) -> (r: Result<(), AggregateError>)
        ensures
            exists|outcomes: Seq<Result<(), SingleIoError>>|
                ended(self@.policy, self@.outputs.len(), outcomes)
                && writes_of(outcomes, self@, crate::csv::array_of(values@)) && match r {
                    Ok(_) => errs_of(outcomes).len() == 0,
                    Err(a) => errs_of(outcomes).len() > 0 && a.errors@ == errs_of(outcomes),
                },
    {
        let all = collection_value(values);
        self.write_value(codecs, io, &all)
    }

    /// Writes the one value to every output.
    pub fn write_one_value<C: CustomCodec, E: EndpointIo>(&self, codecs: &C, io: &mut E, value: &serde_json::Value) -> (r: Result<(), AggregateError>)
        ensures
            exists|outcomes: Seq<Result<(), SingleIoError>>|
                ended(self@.policy, self@.outputs.len(), outcomes)
                && writes_of(outcomes, self@, *value) && match r {
                    Ok(_) => errs_of(outcomes).len() == 0,
                    Err(a) => errs_of(outcomes).len() > 0 && a.errors@ == errs_of(outcomes),
                },
    {
        self.write_value(codecs, io, value)
    }

    /// Reads every input on its own, one result per input in input order,
    /// whatever the policy.
    pub fn read_stream<C: CustomCodec, E: EndpointIo>(&self, codecs: &C, io: &mut E) -> (r: Vec<Result<serde_json::Value, SingleIoError>>)
        ensures
            r@.len() == self@.inputs.len(),
            reads_of(r@, self@),
    {
        let mut out: Vec<Result<serde_json::Value, SingleIoError>> = Vec::new();
        let mut i: usize = 0;
        while i < self.inputs.len()
            invariant
                i <= self@.inputs.len(),
                out@.len() == i,
                reads_of(out@, self@),
            decreases self.inputs.len() - i,
        {
            let opened = io.open_input(&self.inputs[i]);
            let ghost o = opened_view(opened);
            let r = self.read_input(codecs, i, opened);
            assert(read_result(r, self@.registry, self@.inputs[i as int], o));
            let ghost before = out@;
            out.push(r);
            proof {
                assert forall|j: int| 0 <= j < out@.len() implies readable(
                    #[trigger] out@[j],
                    self@.registry,
                    self@.inputs[j],
                ) by {
                    if j < before.len() {
                        assert(out@[j] == before[j]);
                    }
                }
            }
            i = i + 1;
        }
        out
    }

    /// The records of input `i`, from what opening it gave.
    pub fn records_for<C: CustomCodec>(
        &self,
        codecs: &C,
        i: usize,
        opened: Result<Vec<u8>, String>,
    ) -> (r: Vec<Result<serde_json::Value, SingleIoError>>)
        requires
            i < self@.inputs.len(),
        ensures
            records_result(r@, self@.registry, self@.inputs[i as int], opened_view(opened)),
    {
        let spec = &self.inputs[i];
        let ghost og = opened_view(opened);
        let mut out: Vec<Result<serde_json::Value, SingleIoError>> = Vec::new();
        let bytes = match opened {
            Err(m) => {
                out.push(Err(SingleIoError::new(Stage::Open, spec.raw.as_str(), FormatError::Io(m))));
                return out;
            },
            Ok(b) => b,
        };
        let cands = copy_kinds(&spec.format_candidates);
        proof {
            assert(kinds_view(cands@) == cands@.map_values(|k: FormatKind| k@));
        }
        let s = self.registry.stream_deserialize_into(codecs, spec.explicit_format.as_ref(), cands.as_slice(), bytes.as_slice());
        let ghost sg = s;
        let items = match s {
            Err(e) => {
                let mut one: Vec<Result<serde_json::Value, SingleIoError>> = Vec::new();
                one.push(Err(SingleIoError::new(Stage::Parse, spec.raw.as_str(), e)));
                one
            },
            Ok(items) => tag_records(spec.raw.as_str(), items),
        };
        let ghost sp = self@.inputs[i as int];
        assert(items_of_stream(items@, sp.raw@, sg));
        assert(registry_streamed(sg, self@.registry, opt_kind(sp.explicit_format), kinds_view(sp.format_candidates@), bytes@));
        assert(streams_to(items@, self@.registry, sp, bytes@));
        items
    }

    /// Every input's records, input after input.
    pub fn read_records<C: CustomCodec, E: EndpointIo>(&self, codecs: &C, io: &mut E) -> (r: Vec<Result<serde_json::Value, SingleIoError>>)
        ensures
            exists|parts: Seq<Seq<Result<serde_json::Value, SingleIoError>>>|
                parts.len() == self@.inputs.len() && r@ == concat(parts) && forall|j: int|
                    0 <= j < parts.len() ==> recordable(#[trigger] parts[j], self@.registry, self@.inputs[j]),
    {
        let mut out: Vec<Result<serde_json::Value, SingleIoError>> = Vec::new();
        let ghost mut parts: Seq<Seq<Result<serde_json::Value, SingleIoError>>> = seq![];
        let mut i: usize = 0;
        while i < self.inputs.len()
            invariant
                i <= self@.inputs.len(),
                parts.len() == i,
                out@ == concat(parts),
                forall|j: int| 0 <= j < i ==> recordable(#[trigger] parts[j], self@.registry, self@.inputs[j]),
            decreases self.inputs.len() - i,
        {
            let opened = io.open_input(&self.inputs[i]);
            let ghost o = opened_view(opened);
            let mut recs = self.records_for(codecs, i, opened);
            let ghost part = recs@;
            assert(recordable(part, self@.registry, self@.inputs[i as int]));
            let ghost before = parts;
            out.append(&mut recs);
            proof {
                parts = parts.push(part);
                assert(parts.drop_last() == before);
                assert forall|j: int| 0 <= j < parts.len() implies recordable(#[trigger] parts[j], self@.registry, self@.inputs[j]) by {
                    if j < before.len() {
                        assert(parts[j] == before[j]);
                    }
                }
            }
            i = i + 1;
        }
        out
    }

    /// Resolves input `i`'s kind and requires it to be `wanted`; any other
    /// outcome is a `ResolveInput` error.
    pub fn input_kind_is(&self, i: usize, wanted: &FormatKind) -> (r: Result<FormatKind, SingleIoError>)
        requires
            i < self@.inputs.len(),
        ensures
            match spec_resolve(
                self@.registry.formats,
                opt_kind(self@.inputs[i as int].explicit_format),
                kinds_view(self@.inputs[i as int].format_candidates@),
            ) {
                Err(e) => r matches Err(x) && x@ == (IoErrorModel { stage: Stage::ResolveInput, target: self@.inputs[i as int].raw@, error: e }),
                Ok(k) => if k == wanted@ {
                    r matches Ok(x) && x@ == k
                } else {
                    r matches Err(x) && x@ == (IoErrorModel {
                        stage: Stage::ResolveInput,
                        target: self@.inputs[i as int].raw@,
                        error: FormatErrorModel::UnknownFormat(k),
                    })
                },
            },
    {
        let spec = &self.inputs[i];
        let cands = copy_kinds(&spec.format_candidates);
        proof {
            assert(kinds_view(cands@) == cands@.map_values(|k: FormatKind| k@));
        }
        match self.registry.resolve(spec.explicit_format.as_ref(), cands.as_slice()) {
            Err(e) => Err(SingleIoError::new(Stage::ResolveInput, spec.raw.as_str(), e)),
            Ok(k) => {
                if k.same_as(wanted) {
                    Ok(k)
                } else {
                    Err(SingleIoError::new(Stage::ResolveInput, spec.raw.as_str(), FormatError::UnknownFormat(k)))
                }
            },
        }
    }

    /// The records of input `i` read as kind `wanted`, from what opening it
    /// gave: a `ResolveInput` error when its kind resolves otherwise, else an
    /// `Open` error or the native record stream of those bytes.
    pub fn records_of_kind_for(
        &self,
        i: usize,
        wanted: &FormatKind,
        opened: Result<Vec<u8>, String>,
    ) -> (r: Vec<Result<serde_json::Value, SingleIoError>>)
        requires
            i < self@.inputs.len(),
        ensures
            kind_records_for(r@, self@.registry, self@.inputs[i as int], wanted@, opened_view(opened)),
    {
        let raw = self.inputs[i].raw.as_str();
        let mut recs: Vec<Result<serde_json::Value, SingleIoError>> = Vec::new();
        let k = match self.input_kind_is(i, wanted) {
            Err(e) => {
                recs.push(Err(e));
                return recs;
            },
            Ok(k) => k,
        };
        let bytes = match opened {
            Err(m) => {
                recs.push(Err(SingleIoError::new(Stage::Open, raw, FormatError::Io(m))));
                return recs;
            },
            Ok(b) => b,
        };
        let s = stream_deserialize(&k, bytes.as_slice());
        let ghost sg = s;
        let items = match s {
            Err(e) => {
                let mut one: Vec<Result<serde_json::Value, SingleIoError>> = Vec::new();
                one.push(Err(SingleIoError::new(Stage::Parse, raw, e)));
                one
            },
            Ok(items) => tag_records(raw, items),
        };
        assert(items_of_stream(items@, raw@, sg));
        assert(crate::format::builtin_streamed(sg, k@, bytes@));
        assert(native_stream_of(items@, k@, raw@, bytes@));
        items
    }

    /// The records of every input whose kind resolves to `wanted`, decoded
    /// natively; an input resolving otherwise contributes one `ResolveInput`
    /// error and is not opened.
    fn read_records_of_kind<E: EndpointIo>(&self, io: &mut E, wanted: &FormatKind) -> (r: Vec<Result<serde_json::Value, SingleIoError>>)
        ensures
            exists|parts: Seq<Seq<Result<serde_json::Value, SingleIoError>>>|
                parts.len() == self@.inputs.len() && r@ == concat(parts) && forall|j: int|
                    0 <= j < parts.len() ==> kind_records_result(#[trigger] parts[j], self@.registry, self@.inputs[j], wanted@),
    {
        let mut out: Vec<Result<serde_json::Value, SingleIoError>> = Vec::new();
        let ghost mut parts: Seq<Seq<Result<serde_json::Value, SingleIoError>>> = seq![];
        let mut i: usize = 0;
        while i < self.inputs.len()
            invariant
                i <= self@.inputs.len(),
                parts.len() == i,
                out@ == concat(parts),
                forall|j: int| 0 <= j < i ==> kind_records_result(#[trigger] parts[j], self@.registry, self@.inputs[j], wanted@),
            decreases self.inputs.len() - i,
        {
            let mut recs = match self.input_kind_is(i, wanted) {
                Err(e) => {
                    let mut one: Vec<Result<serde_json::Value, SingleIoError>> = Vec::new();
                    one.push(Err(e));
                    let ghost o: Result<Seq<u8>, Seq<char>> = Err(seq![]);
                    assert(kind_records_for(one@, self@.registry, self@.inputs[i as int], wanted@, o));
                    one
                },
                Ok(_) => {
                    let opened = io.open_input(&self.inputs[i]);
                    let ghost o = opened_view(opened);
                    let recs = self.records_of_kind_for(i, wanted, opened);
                    assert(kind_records_for(recs@, self@.registry, self@.inputs[i as int], wanted@, o));
                    recs
                },
            };
            let ghost part = recs@;
            assert(kind_records_result(part, self@.registry, self@.inputs[i as int], wanted@));
            let ghost before = parts;
            out.append(&mut recs);
            proof {
                parts = parts.push(part);
                assert(parts.drop_last() == before);
                assert forall|j: int| 0 <= j < parts.len() implies kind_records_result(#[trigger] parts[j], self@.registry, self@.inputs[j], wanted@) by {
                    if j < before.len() {
                        assert(parts[j] == before[j]);
                    }
                }
            }
            i = i + 1;
        }
        out
    }

    /// The JSON records of every input; an input not resolving to JSON
    /// contributes one `ResolveInput` error.
    pub fn read_json_records<E: EndpointIo>(&self, io: &mut E) -> (r: Vec<Result<serde_json::Value, SingleIoError>>)
        ensures
            exists|parts: Seq<Seq<Result<serde_json::Value, SingleIoError>>>|
                parts.len() == self@.inputs.len() && r@ == concat(parts) && forall|j: int|
                    0 <= j < parts.len() ==> kind_records_result(#[trigger] parts[j], self@.registry, self@.inputs[j], KindModel::Json),
    {
        self.read_records_of_kind(io, &FormatKind::Json)
    }

    /// The CSV records of every input; an input not resolving to CSV
    /// contributes one `ResolveInput` error.
    pub fn read_csv_records<E: EndpointIo>(&self, io: &mut E) -> (r: Vec<Result<serde_json::Value, SingleIoError>>)
        ensures
            exists|parts: Seq<Seq<Result<serde_json::Value, SingleIoError>>>|
                parts.len() == self@.inputs.len() && r@ == concat(parts) && forall|j: int|
                    0 <= j < parts.len() ==> kind_records_result(#[trigger] parts[j], self@.registry, self@.inputs[j], KindModel::Csv),
    {
        self.read_records_of_kind(io, &FormatKind::Csv)
    }
}

/// The whole collection as one array value, as written by `write_all`.
pub fn collection_value(values: &Vec<serde_json::Value>) -> (r: serde_json::Value)
    ensures
        r == crate::csv::array_of(values@),
{
    let mut copy: Vec<serde_json::Value> = Vec::new();
    let mut i: usize = 0;
    while i < values.len()
        invariant
            i <= values@.len(),
            copy@ == values@.subrange(0, i as int),
        decreases values.len() - i,
    {
        copy.push(values[i].clone());
        assert(copy@ =~= values@.subrange(0, i + 1));
        i = i + 1;
    }
    assert(copy@ =~= values@);
    array_value(copy)
}

/// A decoded record stream seen from an endpoint: failures become `Parse`
/// errors naming the endpoint.
pub fn tag_records(raw: &str, items: Vec<Result<serde_json::Value, FormatError>>) -> (r: Vec<Result<serde_json::Value, SingleIoError>>)
    ensures
        records_as(r@, raw@, items@),
{
    let mut out: Vec<Result<serde_json::Value, SingleIoError>> = Vec::new();
    let mut i: usize = 0;
    while i < items.len()
        invariant
            i <= items@.len(),
            out@.len() == i,
            forall|j: int| 0 <= j < i ==> match #[trigger] items@[j] {
                Ok(v) => out@[j] == Ok::<serde_json::Value, SingleIoError>(v),
                Err(e) => out@[j] matches Err(x) && x.stage == Stage::Parse && x.target@ == raw@ && x.error@ == e@,
            },
        decreases items.len() - i,
    {
        let item = match &items[i] {
            Ok(v) => Ok(v.clone()),
            Err(e) => Err(SingleIoError::new(Stage::Parse, raw, e.duplicate())),
        };
        out.push(item);
        i = i + 1;
    }
    out
}

/// Endpoint I/O for in-memory endpoints: inputs read from their in-memory
/// source, outputs collect into sinks kept here by output identity.
pub struct MemoryIo {
    sinks: Vec<(String, InMemorySink)>,
}

impl View for MemoryIo {
    type V = Seq<(Seq<char>, Seq<u8>)>;

    closed spec fn view(&self) -> Seq<(Seq<char>, Seq<u8>)> {
        self.sinks@.map_values(|e: (String, InMemorySink)| (e.0@, e.1@.1))
    }
}

impl MemoryIo {
    /// No output written yet.
    pub fn new() -> (r: MemoryIo)
        ensures
            r@.len() == 0,
    {
        MemoryIo { sinks: Vec::new() }
    }

    /// Index of the sink kept for the output with this identity.
    fn position(&self, raw: &str) -> (r: Option<usize>)
        ensures
            match r {
                Some(i) => i < self@.len() && self@[i as int].0 == raw@,
                None => forall|j: int| 0 <= j < self@.len() ==> (#[trigger] self@[j]).0 != raw@,
            },
    {
        let mut i: usize = 0;
        while i < self.sinks.len()
            invariant
                forall|j: int| 0 <= j < i ==> (#[trigger] self@[j]).0 != raw@,
            decreases self.sinks.len() - i,
        {
            if text_eq(self.sinks[i].0.as_str(), raw) {
                return Some(i);
            }
            i = i + 1;
        }
        None
    }

    /// What the output with this identity holds, if it was written.
    pub fn contents(&self, raw: &str) -> (r: Option<Vec<u8>>)
        ensures
            match r {
                Some(b) => exists|j: int| 0 <= j < self@.len() && #[trigger] self@[j] == (raw@, b@),
                None => forall|j: int| 0 <= j < self@.len() ==> (#[trigger] self@[j]).0 != raw@,
            },
    {
        match self.position(raw) {
            Some(i) => {
                let b = self.sinks[i].1.contents();
                assert(self@[i as int] == (raw@, b@));
                Some(b)
            },
            None => None,
        }
    }
}

impl EndpointIo for MemoryIo {
    fn open_input(&mut self, spec: &InputSpec) -> Result<Vec<u8>, String> {
        match &spec.provider {
            InputSource::Memory(m) => m.open(),
            _ => Err(String::from_str("not an in-memory source: ").concat(spec.raw.as_str())),
        }
    }

    fn write_output(&mut self, spec: &OutputSpec, append: bool, bytes: &[u8]) -> WriteOutcome {
        let mut sink = match &spec.target {
            OutputDest::Memory(s) => match self.position(spec.raw.as_str()) {
                Some(i) => self.sinks[i].1.clone(),
                None => s.clone(),
            },
            _ => return WriteOutcome::OpenFailed(String::from_str("not an in-memory target: ").concat(spec.raw.as_str())),
        };
        if !append {
            sink.clear();
        }
        sink.append(bytes);
        match self.position(spec.raw.as_str()) {
            Some(i) => self.sinks.set(i, (spec.raw.clone(), sink)),
            None => self.sinks.push((spec.raw.clone(), sink)),
        }
        WriteOutcome::Written
    }
}

} // verus!
