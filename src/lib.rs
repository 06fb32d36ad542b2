//! Format resolution and multi-endpoint orchestration.
//!
//! The library decides which codec applies to each input and output endpoint,
//! drives reads and writes under a fail-fast or accumulating error policy, and
//! decodes whole buffers or record streams through the chosen codec. Opening
//! files and streams is left to the caller, through [`engine::EndpointIo`].
pub mod builder;
pub mod builder_async;
pub mod cli;
pub mod codec;
pub mod config;
pub mod csv;
pub mod engine;
pub mod engine_async;
pub mod error;
pub mod format;
pub mod io;
pub mod kind;
pub mod markdown;
pub mod pass;
pub mod plaintext;
pub mod registry;
pub mod text;

pub use config::{
    FileExistsPolicy, InputConfig, InputSource, InputSpec, OutputConfig, OutputDest, OutputSpec,
    PipelineConfig,
};
pub use builder::{MultiioBuilder, build_engine_from_pipeline, build_engine_from_pipeline_with};
pub use builder_async::MultiioAsyncBuilder;
pub use engine::{EndpointIo, IoEngine, MemoryIo, WriteOutcome, collection_value};
pub use engine_async::{AsyncInputSpec, AsyncIoEngine, AsyncOutputSpec};
pub use error::{AggregateError, ErrorPolicy, FormatError, SingleIoError, Stage};
pub use format::{CsvFormat, CustomCodec, NoCustomCodecs, XmlFormat};
pub use io::{
    AsyncFileInput, AsyncFileOutput, AsyncStderrOutput, AsyncStdinInput, AsyncStdoutOutput,
    FileInput, FileOutput, InMemorySink, InMemorySource, InputProvider, OutputTarget,
    StderrOutput, StdinInput, StdoutOutput,
};
pub use kind::{FormatKind, default_format_order, parse_format, structured_text_formats};
pub use pass::Pass;
pub use registry::{
    AsyncFormatRegistry, CustomFormat, FormatRegistry, default_async_registry, default_registry,
};
