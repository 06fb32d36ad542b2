//! Building an asynchronous engine. Endpoint resolution is the synchronous
//! builder's; extensions are inferred through the synchronous registry, so
//! custom formats are recognised alike in both engines.
use vstd::prelude::*;
use crate::builder::MultiioBuilder;
use crate::cli::{InputArgs, OutputArgs};
use crate::config::{FileExistsPolicy, InputSpec, OutputSpec, PipelineConfig};
use crate::engine_async::AsyncIoEngine;
use crate::error::{AggregateError, ErrorPolicy};
use crate::kind::{FormatKind, KindModel, kinds_view};
use crate::registry::{AsyncFormatRegistry, CustomFormat, FormatRegistry, default_registry, with_kind};
use crate::text::strings_view;

verus! {

/// Builds an asynchronous engine.
pub struct MultiioAsyncBuilder {
    /// Endpoint resolution, the synchronous registry and the options.
    pub core: MultiioBuilder,
    /// The asynchronous engine's own registry.
    pub registry: AsyncFormatRegistry,
}

impl MultiioAsyncBuilder {
    /// A builder over the given registry and a fresh default synchronous registry.
    pub fn new(registry: AsyncFormatRegistry) -> (r: MultiioAsyncBuilder)
        ensures
            r.registry@ == registry@,
            r.core.registry@ == default_registry_model(),
            r.core.error_policy == ErrorPolicy::Accumulate,
            r.core.file_exists_policy == FileExistsPolicy::Overwrite,
    {
        MultiioAsyncBuilder { core: MultiioBuilder::new(default_registry()), registry }
    }

    /// Replaces the synchronous registry used for decoding, encoding and streaming.
    pub fn with_sync_registry(self, registry: FormatRegistry) -> (r: MultiioAsyncBuilder)
        ensures
            r.core.registry@ == registry@,
            r.registry@ == self.registry@,
    {
        MultiioAsyncBuilder { core: MultiioBuilder { registry, ..self.core }, registry: self.registry }
    }

    /// Registers a custom format in the synchronous registry and enables its
    /// kind in the asynchronous one.
    pub fn with_custom_format(self, format: CustomFormat) -> (r: MultiioAsyncBuilder)
        ensures
            r.core.registry@.customs == crate::registry::with_custom(self.core.registry@.customs, format@),
            r.registry@ == with_kind(self.registry@, KindModel::Custom(format@.name)),
    {
        let kind = format.kind();
        let mut registry = self.registry;
        registry.register(kind);
        MultiioAsyncBuilder { core: self.core.with_custom_format(format), registry }
    }

    /// Replaces the input tokens.
    pub fn inputs_from_args(self, args: &[String]) -> (r: MultiioAsyncBuilder)
        ensures
            strings_view(r.core.input_args@) == strings_view(args@),
    {
        MultiioAsyncBuilder { core: self.core.inputs_from_args(args), registry: self.registry }
    }

    /// Replaces the input tokens with parsed input arguments.
    pub fn with_input_args(self, args: &InputArgs) -> (r: MultiioAsyncBuilder)
        ensures
            strings_view(r.core.input_args@) == strings_view(args.0@),
    {
        MultiioAsyncBuilder { core: self.core.with_input_args(args), registry: self.registry }
    }

    /// Replaces the output tokens.
    pub fn outputs_from_args(self, args: &[String]) -> (r: MultiioAsyncBuilder)
        ensures
            strings_view(r.core.output_args@) == strings_view(args@),
    {
        MultiioAsyncBuilder { core: self.core.outputs_from_args(args), registry: self.registry }
    }

    /// Replaces the output tokens with parsed output arguments.
    pub fn with_output_args(self, args: &OutputArgs) -> (r: MultiioAsyncBuilder)
        ensures
            strings_view(r.core.output_args@) == strings_view(args.0@),
    {
        MultiioAsyncBuilder { core: self.core.with_output_args(args), registry: self.registry }
    }

    /// Adds an input token.
    pub fn add_input(self, arg: &str) -> (r: MultiioAsyncBuilder)
        ensures
            strings_view(r.core.input_args@) == strings_view(self.core.input_args@).push(arg@),
    {
        MultiioAsyncBuilder { core: self.core.add_input(arg), registry: self.registry }
    }

    /// Adds an output token.
    pub fn add_output(self, arg: &str) -> (r: MultiioAsyncBuilder)
        ensures
            strings_view(r.core.output_args@) == strings_view(self.core.output_args@).push(arg@),
    {
        MultiioAsyncBuilder { core: self.core.add_output(arg), registry: self.registry }
    }

    /// Adds a prepared input specification.
    pub fn add_input_spec(self, spec: InputSpec) -> (r: MultiioAsyncBuilder)
        ensures
            r.core.input_specs@ == self.core.input_specs@.push(spec),
    {
        MultiioAsyncBuilder { core: self.core.add_input_spec(spec), registry: self.registry }
    }

    /// Adds a prepared output specification.
    pub fn add_output_spec(self, spec: OutputSpec) -> (r: MultiioAsyncBuilder)
        ensures
            r.core.output_specs@ == self.core.output_specs@.push(spec),
    {
        MultiioAsyncBuilder { core: self.core.add_output_spec(spec), registry: self.registry }
    }

    /// Sets the candidate order of inputs and outputs.
    pub fn with_order(self, order: &Vec<FormatKind>) -> (r: MultiioAsyncBuilder)
        ensures
            kinds_view(r.core.default_input_formats@) == kinds_view(order@),
            kinds_view(r.core.default_output_formats@) == kinds_view(order@),
    {
        MultiioAsyncBuilder { core: self.core.with_order(order), registry: self.registry }
    }

    /// Sets the candidate order of inputs.
    pub fn with_input_order(self, order: &Vec<FormatKind>) -> (r: MultiioAsyncBuilder)
        ensures
            kinds_view(r.core.default_input_formats@) == kinds_view(order@),
    {
        MultiioAsyncBuilder { core: self.core.with_input_order(order), registry: self.registry }
    }

    /// Sets the candidate order of outputs.
    pub fn with_output_order(self, order: &Vec<FormatKind>) -> (r: MultiioAsyncBuilder)
        ensures
            kinds_view(r.core.default_output_formats@) == kinds_view(order@),
    {
        MultiioAsyncBuilder { core: self.core.with_output_order(order), registry: self.registry }
    }

    /// Sets the error policy.
    pub fn with_mode(self, policy: ErrorPolicy) -> (r: MultiioAsyncBuilder)
        ensures
            r.core.error_policy == policy,
    {
        MultiioAsyncBuilder { core: self.core.with_mode(policy), registry: self.registry }
    }

    /// Sets the policy for outputs that already hold content.
    pub fn with_file_exists_policy(self, policy: FileExistsPolicy) -> (r: MultiioAsyncBuilder)
        ensures
            r.core.file_exists_policy == policy,
    {
        MultiioAsyncBuilder { core: self.core.with_file_exists_policy(policy), registry: self.registry }
    }

    /// The engine, decoding through the synchronous registry.
    pub fn build(self) -> (r: Result<AsyncIoEngine, AggregateError>)
        ensures
            self.core.error_policy == ErrorPolicy::FastFail ==> (r matches Err(a) ==> a.errors@.len() == 1),
            r matches Err(a) ==> a.errors@.len() >= 1,
            r matches Ok(e) ==> e@.policy == self.core.error_policy && e@.registry == self.registry@
                && e@.sync_registry == Some(self.core.registry@),
    {
        let registry = self.registry;
        match self.core.build() {
            Err(a) => Err(a),
            Ok(engine) => {
                let (sync_registry, policy, inputs, outputs) = engine.into_parts();
                Ok(AsyncIoEngine::new_with_sync_registry(registry, sync_registry, policy, inputs, outputs))
            },
        }
    }

    /// A builder from a pipeline configuration, as the synchronous builder reads it.
    pub fn from_pipeline_config(config: PipelineConfig, registry: AsyncFormatRegistry) -> (r: Result<MultiioAsyncBuilder, AggregateError>)
        ensures
            r matches Err(a) ==> a.errors@.len() >= 1,
            r matches Ok(b) ==> b.registry@ == registry@,
    {
        match MultiioBuilder::from_pipeline_config(config, default_registry()) {
            Err(a) => Err(a),
            Ok(core) => Ok(MultiioAsyncBuilder { core, registry }),
        }
    }
}

/// The model of a fresh default registry.
pub open spec fn default_registry_model() -> crate::registry::RegistryModel {
    crate::registry::RegistryModel {
        formats: crate::registry::spec_default_formats(),
        customs: Seq::<crate::registry::CustomModel>::empty(),
    }
}

} // verus!
