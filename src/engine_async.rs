//! The asynchronous engine's decisions. It resolves with its own registry of
//! built-in kinds, or with a synchronous registry when one is attached so that
//! custom formats decode exactly as in the synchronous engine. Awaiting the
//! endpoints, and reading several at once, is the caller's part: every step
//! here takes what the endpoint gave.
use vstd::prelude::*;
use crate::config::{FileExistsPolicy, InputSpec, OutputSpec};
use crate::engine::{
    WriteOutcome, delivery_result, items_of_stream, open_error, opened_view, tag_records,
};
use crate::error::{ErrorPolicy, FormatError, FormatErrorModel, IoErrorModel, SingleIoError, Stage, is_resolution_error};
use crate::format::{
    CustomCodec, builtin_decoded, builtin_encoded, builtin_streamed, deserialize, registry_decoded,
    registry_encoded, registry_streamed, serialize, stream_deserialize, streams_natively,
};
use crate::kind::{FormatKind, KindModel, kinds_view, opt_kind};
use crate::pass::{Pass, PassModel};
use crate::registry::{AsyncFormatRegistry, FormatRegistry, RegistryModel, spec_resolve};

verus! {

/// Specification of an input of the asynchronous engine.
pub type AsyncInputSpec = InputSpec;

/// Specification of an output of the asynchronous engine.
pub type AsyncOutputSpec = OutputSpec;

/// Model of an asynchronous engine.
pub struct AsyncEngineModel {
    pub registry: Seq<KindModel>,
    pub sync_registry: Option<RegistryModel>,
    pub policy: ErrorPolicy,
    pub inputs: Seq<InputSpec>,
    pub outputs: Seq<OutputSpec>,
}

/// The stage at which a decode failure is reported when the synchronous
/// registry decodes: resolution failures at `resolve`, others at `other`.
pub open spec fn stage_for(e: FormatErrorModel, resolve: Stage, other: Stage) -> Stage {
    if is_resolution_error(e) {
        resolve
    } else {
        other
    }
}

/// Whether `r` is what the asynchronous engine's read of the input gives when
/// opening it gave `opened`.
pub open spec fn async_read_result(
    r: Result<serde_json::Value, SingleIoError>,
    e: AsyncEngineModel,
    input: InputSpec,
    opened: Result<Seq<u8>, Seq<char>>,
) -> bool {
    let ex = opt_kind(input.explicit_format);
    let cands = kinds_view(input.format_candidates@);
    match opened {
        Err(m) => r matches Err(x) && x@ == open_error(input.raw@, m),
        Ok(b) => match e.sync_registry {
            Some(sr) => match r {
                Ok(v) => registry_decoded(Ok(v), sr, ex, cands, b),
                Err(x) => x.target@ == input.raw@ && x.stage == stage_for(x.error@, Stage::ResolveInput, Stage::Parse)
                    && registry_decoded(Err(x.error), sr, ex, cands, b),
            },
            None => match spec_resolve(e.registry, ex, cands) {
                Err(fe) => r matches Err(x) && x@ == (IoErrorModel { stage: Stage::ResolveInput, target: input.raw@, error: fe }),
                Ok(k) => match r {
                    Ok(v) => builtin_decoded(Ok(v), k, b),
                    Err(x) => x.target@ == input.raw@ && x.stage == Stage::Parse && builtin_decoded(Err(x.error), k, b),
                },
            },
        },
    }
}

/// Whether `r` is what the asynchronous engine's encoding of the value for the output gives.
pub open spec fn async_encode_result(
    r: Result<Vec<u8>, SingleIoError>,
    e: AsyncEngineModel,
    output: OutputSpec,
    v: serde_json::Value,
) -> bool {
    let ex = opt_kind(output.explicit_format);
    let cands = kinds_view(output.format_candidates@);
    match e.sync_registry {
        Some(sr) => match r {
            Ok(b) => registry_encoded(Ok(b), sr, ex, cands, v),
            Err(x) => x.target@ == output.raw@ && x.stage == stage_for(x.error@, Stage::ResolveOutput, Stage::Serialize)
                && registry_encoded(Err(x.error), sr, ex, cands, v),
        },
        None => match spec_resolve(e.registry, ex, cands) {
            Err(fe) => r matches Err(x) && x@ == (IoErrorModel { stage: Stage::ResolveOutput, target: output.raw@, error: fe }),
            Ok(k) => match r {
                Ok(b) => builtin_encoded(Ok(b), k, v),
                Err(x) => x.target@ == output.raw@ && x.stage == Stage::Serialize && builtin_encoded(Err(x.error), k, v),
            },
        },
    }
}

/// The kind that the asynchronous engine resolves for an input: through the
/// synchronous registry when attached, else through its own.
pub open spec fn async_input_kind(e: AsyncEngineModel, input: InputSpec) -> Result<KindModel, FormatErrorModel> {
    let ex = opt_kind(input.explicit_format);
    let cands = kinds_view(input.format_candidates@);
    match e.sync_registry {
        Some(sr) => spec_resolve(sr.formats, ex, cands),
        None => spec_resolve(e.registry, ex, cands),
    }
}

/// Whether `items` are one `Parse` error for the endpoint with the given cause.
pub open spec fn single_parse_error(items: Seq<Result<serde_json::Value, SingleIoError>>, raw: Seq<char>, cause: FormatErrorModel) -> bool {
    items.len() == 1 && (items[0] matches Err(x) && x@ == (IoErrorModel { stage: Stage::Parse, target: raw, error: cause }))
}

/// Whether `items` are what the asynchronous engine's record streaming of the
/// input gives when opening it gave `opened`: resolution failures are `Parse`
/// errors; custom kinds stream through the synchronous registry; JSON, CSV,
/// YAML and plaintext stream natively; other kinds yield their one document.
pub open spec fn async_records_result(
    items: Seq<Result<serde_json::Value, SingleIoError>>,
    e: AsyncEngineModel,
    input: InputSpec,
    opened: Result<Seq<u8>, Seq<char>>,
) -> bool {
    match opened {
        Err(m) => items.len() == 1 && (items[0] matches Err(x) && x@ == open_error(input.raw@, m)),
        Ok(b) => match async_input_kind(e, input) {
            Err(fe) => single_parse_error(items, input.raw@, fe),
            Ok(k) => if k is Custom && e.sync_registry is Some {
                bridged(items, e.sync_registry.unwrap(), k, input.raw@, b)
            } else if streams_natively(k) {
                native_stream(items, k, input.raw@, b)
            } else {
                one_document(items, k, input.raw@, b)
            },
        },
    }
}

/// Whether `items` are what the endpoint shows of the built-in record stream of `k`.
pub open spec fn native_stream(items: Seq<Result<serde_json::Value, SingleIoError>>, k: KindModel, raw: Seq<char>, b: Seq<u8>) -> bool {
    exists|s: Result<Vec<Result<serde_json::Value, FormatError>>, FormatError>|
        #[trigger] builtin_streamed(s, k, b) && items_of_stream(items, raw, s)
}

/// Whether `items` are the one document that the built-in codec of `k` decodes,
/// or one `Parse` error.
pub open spec fn one_document(items: Seq<Result<serde_json::Value, SingleIoError>>, k: KindModel, raw: Seq<char>, b: Seq<u8>) -> bool {
    exists|d: Result<serde_json::Value, FormatError>|
        #[trigger] builtin_decoded(d, k, b) && match d {
            Ok(v) => items == seq![Ok::<serde_json::Value, SingleIoError>(v)],
            Err(x) => single_parse_error(items, raw, x@),
        }
}

/// Whether `items` are what the endpoint shows of the synchronous registry's
/// record stream for the bytes, resolved as exactly the kind `k`.
pub open spec fn bridged(
    items: Seq<Result<serde_json::Value, SingleIoError>>,
    sr: RegistryModel,
    k: KindModel,
    raw: Seq<char>,
    b: Seq<u8>,
) -> bool {
    exists|s: Result<Vec<Result<serde_json::Value, FormatError>>, FormatError>|
        #[trigger] registry_streamed(s, sr, Some(k), seq![], b) && items_of_stream(items, raw, s)
}

/// The asynchronous engine.
pub struct AsyncIoEngine {
    registry: AsyncFormatRegistry,
    sync_registry: Option<FormatRegistry>,
    error_policy: ErrorPolicy,
    inputs: Vec<InputSpec>,
    outputs: Vec<OutputSpec>,
}

impl View for AsyncIoEngine {
    type V = AsyncEngineModel;

    closed spec fn view(&self) -> AsyncEngineModel {
        AsyncEngineModel {
            registry: self.registry@,
            sync_registry: match self.sync_registry {
                Some(r) => Some(r@),
                None => None,
            },
            policy: self.error_policy,
            inputs: self.inputs@,
            outputs: self.outputs@,
        }
    }
}

/// Copies of a sequence of kinds.
fn copy_kinds(ks: &Vec<FormatKind>) -> (r: Vec<FormatKind>)
    ensures
        kinds_view(r@) == kinds_view(ks@),
        kinds_view(r@) == r@.map_values(|k: FormatKind| k@),
{
    let mut out: Vec<FormatKind> = Vec::new();
    let mut i: usize = 0;
    while i < ks.len()
        invariant
            i <= ks@.len(),
            out@.len() == i,
            forall|j: int| 0 <= j < i ==> (#[trigger] out@[j])@ == ks@[j]@,
        decreases ks.len() - i,
    {
        out.push(ks[i].duplicate());
        i = i + 1;
    }
    assert(kinds_view(out@) =~= kinds_view(ks@));
    out
}

impl AsyncIoEngine {
    /// An engine resolving with its own registry only.
    pub fn new(
        registry: AsyncFormatRegistry,
        error_policy: ErrorPolicy,
        inputs: Vec<InputSpec>,
        outputs: Vec<OutputSpec>,
    ) -> (r: AsyncIoEngine)
        ensures
            r@ == (AsyncEngineModel { registry: registry@, sync_registry: None, policy: error_policy, inputs: inputs@, outputs: outputs@ }),
    {
        AsyncIoEngine { registry, sync_registry: None, error_policy, inputs, outputs }
    }

    /// An engine that resolves and decodes through an attached synchronous registry.
    pub fn new_with_sync_registry(
        registry: AsyncFormatRegistry,
        sync_registry: FormatRegistry,
        error_policy: ErrorPolicy,
        inputs: Vec<InputSpec>,
        outputs: Vec<OutputSpec>,
    ) -> (r: AsyncIoEngine)
        ensures
            r@ == (AsyncEngineModel {
                registry: registry@,
                sync_registry: Some(sync_registry@),
                policy: error_policy,
                inputs: inputs@,
                outputs: outputs@,
            }),
    {
        AsyncIoEngine { registry, sync_registry: Some(sync_registry), error_policy, inputs, outputs }
    }

    /// The engine's own registry.
    pub fn registry(&self) -> (r: &AsyncFormatRegistry)
        ensures
            r@ == self@.registry,
    {
        &self.registry
    }

    /// The error policy.
    pub fn error_policy(&self) -> (r: ErrorPolicy)
        ensures
            r == self@.policy,
    {
        self.error_policy
    }

    /// The input specifications.
    pub fn inputs(&self) -> (r: &Vec<InputSpec>)
        ensures
            r@ == self@.inputs,
    {
        &self.inputs
    }

    /// The output specifications.
    pub fn outputs(&self) -> (r: &Vec<OutputSpec>)
        ensures
            r@ == self@.outputs,
    {
        &self.outputs
    }

    /// Reads input `i` from what opening it gave.
    pub fn read_input<C: CustomCodec>(&self, codecs: &C, i: usize, opened: Result<Vec<u8>, String>) -> (r: Result<serde_json::Value, SingleIoError>)
        requires
            i < self@.inputs.len(),
        ensures
            async_read_result(r, self@, self@.inputs[i as int], opened_view(opened)),
    {
        let spec = &self.inputs[i];
        let raw = spec.raw.as_str();
        let bytes = match opened {
            Err(m) => return Err(SingleIoError::new(Stage::Open, raw, FormatError::Io(m))),
            Ok(b) => b,
        };
        let cands = copy_kinds(&spec.format_candidates);
        match &self.sync_registry {
            Some(sr) => match sr.deserialize_value(codecs, spec.explicit_format.as_ref(), cands.as_slice(), bytes.as_slice()) {
                Ok(v) => Ok(v),
                Err(e) => {
                    let stage = if e.is_resolution() { Stage::ResolveInput } else { Stage::Parse };
                    Err(SingleIoError::new(stage, raw, e))
                },
            },
            None => match self.registry.resolve(spec.explicit_format.as_ref(), cands.as_slice()) {
                Err(e) => Err(SingleIoError::new(Stage::ResolveInput, raw, e)),
                Ok(k) => match deserialize(&k, bytes.as_slice()) {
                    Ok(v) => Ok(v),
                    Err(e) => Err(SingleIoError::new(Stage::Parse, raw, e)),
                },
            },
        }
    }

    /// Encodes the value for output `i`.
    pub fn encode_output<C: CustomCodec>(&self, codecs: &C, i: usize, value: &serde_json::Value) -> (r: Result<Vec<u8>, SingleIoError>)
        requires
            i < self@.outputs.len(),
        ensures
            async_encode_result(r, self@, self@.outputs[i as int], *value),
    {
        let spec = &self.outputs[i];
        let raw = spec.raw.as_str();
        let cands = copy_kinds(&spec.format_candidates);
        match &self.sync_registry {
            Some(sr) => match sr.serialize_value(codecs, spec.explicit_format.as_ref(), cands.as_slice(), value) {
                Ok(b) => Ok(b),
                Err(e) => {
                    let stage = if e.is_resolution() { Stage::ResolveOutput } else { Stage::Serialize };
                    Err(SingleIoError::new(stage, raw, e))
                },
            },
            None => match self.registry.resolve(spec.explicit_format.as_ref(), cands.as_slice()) {
                Err(e) => Err(SingleIoError::new(Stage::ResolveOutput, raw, e)),
                Ok(k) => match serialize(&k, value) {
                    Ok(b) => Ok(b),
                    Err(e) => Err(SingleIoError::new(Stage::Serialize, raw, e)),
                },
            },
        }
    }

    /// Whether output `i` is opened for appending (otherwise it is overwritten).
    pub fn opens_appending(&self, i: usize) -> (r: bool)
        requires
            i < self@.outputs.len(),
        ensures
            r == (self@.outputs[i as int].file_exists_policy == FileExistsPolicy::Append),
    {
        match self.outputs[i].file_exists_policy {
            FileExistsPolicy::Append => true,
            _ => false,
        }
    }

    /// What delivering bytes to output `i` came to, as that output's outcome.
    pub fn delivered(&self, i: usize, outcome: WriteOutcome) -> (r: Result<(), SingleIoError>)
        requires
            i < self@.outputs.len(),
        ensures
            match (r, delivery_result(self@.outputs[i as int].raw@, outcome)) {
                (Ok(_), Ok(_)) => true,
                (Err(e), Err(m)) => e@ == m,
                _ => false,
            },
    {
        let raw = self.outputs[i].raw.as_str();
        match outcome {
            WriteOutcome::Written => Ok(()),
            WriteOutcome::OpenFailed(m) => Err(SingleIoError::new(Stage::Open, raw, FormatError::Io(m))),
            WriteOutcome::WriteFailed(m) => Err(SingleIoError::new(Stage::Serialize, raw, FormatError::Io(m))),
        }
    }

    /// A fresh pass over the inputs.
    pub fn start_read(&self) -> (r: Pass<serde_json::Value>)
        ensures
            r.wf(),
            r@ == (PassModel::<serde_json::Value> { policy: self@.policy, total: self@.inputs.len(), outcomes: seq![] }),
    {
        Pass::new(self.error_policy, self.inputs.len())
    }

    /// A fresh pass over the outputs.
    pub fn start_write(&self) -> (r: Pass<()>)
        ensures
            r.wf(),
            r@ == (PassModel::<()> { policy: self@.policy, total: self@.outputs.len(), outcomes: seq![] }),
    {
        Pass::new(self.error_policy, self.outputs.len())
    }

    /// The records of input `i` from its fully buffered bytes.
    pub fn records_for<C: CustomCodec>(&self, codecs: &C, i: usize, opened: Result<Vec<u8>, String>) -> (r: Vec<Result<serde_json::Value, SingleIoError>>)
        requires
            i < self@.inputs.len(),
        ensures
            async_records_result(r@, self@, self@.inputs[i as int], opened_view(opened)),
    {
        let spec = &self.inputs[i];
        let raw = spec.raw.as_str();
        let mut out: Vec<Result<serde_json::Value, SingleIoError>> = Vec::new();
        let bytes = match opened {
            Err(m) => {
                out.push(Err(SingleIoError::new(Stage::Open, raw, FormatError::Io(m))));
                return out;
            },
            Ok(b) => b,
        };
        let cands = copy_kinds(&spec.format_candidates);
        let resolved = match &self.sync_registry {
            Some(sr) => sr.resolve(spec.explicit_format.as_ref(), cands.as_slice()),
            None => self.registry.resolve(spec.explicit_format.as_ref(), cands.as_slice()),
        };
        let kind = match resolved {
            Err(e) => {
                out.push(Err(SingleIoError::new(Stage::Parse, raw, e)));
                return out;
            },
            Ok(k) => k,
        };
        let ghost k = kind@;
        if let FormatKind::Custom(_) = &kind {
            if let Some(sr) = &self.sync_registry {
                let s = sr.stream_deserialize_into(codecs, Some(&kind), &[], bytes.as_slice());
                let ghost sg = s;
                let items = match s {
                    Err(e) => {
                        let mut one: Vec<Result<serde_json::Value, SingleIoError>> = Vec::new();
                        one.push(Err(SingleIoError::new(Stage::Parse, raw, e)));
                        one
                    },
                    Ok(items) => tag_records(raw, items),
                };
                proof {
                    let empty: Seq<FormatKind> = seq![];
                    assert(empty.map_values(|x: FormatKind| x@) =~= Seq::<KindModel>::empty());
                    assert(items_of_stream(items@, raw@, sg));
                    assert(registry_streamed(sg, sr@, Some(k), seq![], bytes@));
                    assert(bridged(items@, sr@, k, raw@, bytes@));
                }
                return items;
            }
        }
        if kind.same_as(&FormatKind::Json) || kind.same_as(&FormatKind::Csv) || kind.same_as(&FormatKind::Yaml)
            || kind.same_as(&FormatKind::Plaintext) {
            let s = stream_deserialize(&kind, bytes.as_slice());
            let ghost sg = s;
            let items = match s {
                Err(e) => {
                    let mut one: Vec<Result<serde_json::Value, SingleIoError>> = Vec::new();
                    one.push(Err(SingleIoError::new(Stage::Parse, raw, e)));
                    one
                },
                Ok(items) => tag_records(raw, items),
            };
            assert(items_of_stream(items@, raw@, sg));
            assert(builtin_streamed(sg, k, bytes@));
            assert(native_stream(items@, k, raw@, bytes@));
            return items;
        }
        let d = deserialize(&kind, bytes.as_slice());
        let ghost dg = d;
        match d {
            Ok(v) => out.push(Ok(v)),
            Err(e) => out.push(Err(SingleIoError::new(Stage::Parse, raw, e))),
        }
        assert(builtin_decoded(dg, k, bytes@));
        assert(out@ =~= seq![out@[0]]);
        assert(one_document(out@, k, raw@, bytes@));
        out
    }
}

} // verus!
