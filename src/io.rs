//! Endpoint descriptors: where an input comes from and where an output goes.
//! Byte I/O on files and standard streams is performed by the caller; the
//! in-memory endpoints are complete here.
use vstd::prelude::*;
use vstd::string::{StrSliceExecFns, StringSliceAdditionalSpecFns};
use crate::codec::{lossy_text, utf8_lossy};

verus! {

/// A source of input bytes that can be opened afresh.
pub trait InputProvider {
    /// The source's identity, used in messages.
    fn id(&self) -> String;

    /// All bytes of the source, or why they could not be read.
    fn open(&self) -> Result<Vec<u8>, String>;
}

/// A destination for output bytes.
pub trait OutputTarget {
    /// The target's identity, used in messages.
    fn id(&self) -> String;

    /// Opens the target, discarding what it held.
    fn open_overwrite(&mut self) -> Result<(), String>;

    /// Opens the target, keeping what it held.
    fn open_append(&mut self) -> Result<(), String>;

    /// Writes bytes after what the target holds.
    fn write(&mut self, bytes: &[u8]) -> Result<(), String>;
}

/// Input bytes held in memory.
#[derive(Debug, Clone)]
pub struct InMemorySource {
    id: String,
    data: Vec<u8>,
}

impl View for InMemorySource {
    type V = (Seq<char>, Seq<u8>);

    closed spec fn view(&self) -> (Seq<char>, Seq<u8>) {
        (self.id@, self.data@)
    }
}

impl InMemorySource {
    /// A source with the given identity and bytes.
    pub fn new(id: &str, data: Vec<u8>) -> (r: InMemorySource)
        ensures
            r@ == (id@, data@),
    {
        InMemorySource { id: String::from_str(id), data }
    }

    /// A source with the given identity holding the bytes of a text.
    pub fn from_string(id: &str, data: &str) -> (r: InMemorySource)
        ensures
            r@ == (id@, data.spec_bytes()),
    {
        InMemorySource { id: String::from_str(id), data: data.as_bytes_vec() }
    }
}

impl InMemorySource {
    /// The source's identity.
    pub fn id(&self) -> (r: String)
        ensures
            r@ == self@.0,
    {
        self.id.clone()
    }

    /// All of the source's bytes, afresh on every call.
    pub fn open(&self) -> (r: Result<Vec<u8>, String>)
        ensures
            r matches Ok(b) && b@ == self@.1,
    {
        Ok(self.data.clone())
    }
}

impl InputProvider for InMemorySource {
    fn id(&self) -> String {
        InMemorySource::id(self)
    }

    fn open(&self) -> Result<Vec<u8>, String> {
        InMemorySource::open(self)
    }
}

/// Output bytes collected in memory.
#[derive(Debug, Clone)]
pub struct InMemorySink {
    id: String,
    buf: Vec<u8>,
}

impl View for InMemorySink {
    type V = (Seq<char>, Seq<u8>);

    closed spec fn view(&self) -> (Seq<char>, Seq<u8>) {
        (self.id@, self.buf@)
    }
}

impl InMemorySink {
    /// An empty sink with the given identity.
    pub fn new(id: &str) -> (r: InMemorySink)
        ensures
            r@ == (id@, Seq::<u8>::empty()),
    {
        InMemorySink { id: String::from_str(id), buf: Vec::new() }
    }

    /// The bytes collected so far.
    pub fn contents(&self) -> (r: Vec<u8>)
        ensures
            r@ == self@.1,
    {
        self.buf.clone()
    }

    /// The bytes collected so far, as text.
    pub fn contents_string(&self) -> (r: String)
        ensures
            r@ == lossy_text(self@.1),
    {
        utf8_lossy(self.buf.as_slice())
    }

    /// The bytes collected, giving up the sink.
    pub fn into_inner(self) -> (r: Vec<u8>)
        ensures
            r@ == self@.1,
    {
        self.buf
    }

    /// Discards the bytes collected so far.
    pub fn clear(&mut self)
        ensures
            final(self)@ == (old(self)@.0, Seq::<u8>::empty()),
    {
        self.buf = Vec::new();
    }

    /// Appends bytes.
    pub fn append(&mut self, bytes: &[u8])
        ensures
            final(self)@ == (old(self)@.0, old(self)@.1 + bytes@),
    {
        let mut i: usize = 0;
        let ghost start = self.buf@;
        while i < bytes.len()
            invariant
                i <= bytes@.len(),
                self@.0 == old(self)@.0,
                self.buf@ == start + bytes@.subrange(0, i as int),
                start == old(self)@.1,
            decreases bytes.len() - i,
        {
            self.buf.push(bytes[i]);
            assert(self.buf@ =~= start + bytes@.subrange(0, i + 1));
            i = i + 1;
        }
        assert(bytes@.subrange(0, i as int) == bytes@);
    }
}

impl InMemorySink {
    /// The sink's identity.
    pub fn id(&self) -> (r: String)
        ensures
            r@ == self@.0,
    {
        self.id.clone()
    }

    /// Opens the sink, discarding what it held.
    pub fn open_overwrite(&mut self) -> (r: Result<(), String>)
        ensures
            r is Ok,
            final(self)@ == (old(self)@.0, Seq::<u8>::empty()),
    {
        self.clear();
        Ok(())
    }

    /// Opens the sink, keeping what it held.
    pub fn open_append(&mut self) -> (r: Result<(), String>)
        ensures
            r is Ok,
            final(self)@ == old(self)@,
    {
        Ok(())
    }

    /// Writes bytes after what the sink holds.
    pub fn write(&mut self, bytes: &[u8]) -> (r: Result<(), String>)
        ensures
            r is Ok,
            final(self)@ == (old(self)@.0, old(self)@.1 + bytes@),
    {
        self.append(bytes);
        Ok(())
    }
}

impl OutputTarget for InMemorySink {
    fn id(&self) -> String {
        InMemorySink::id(self)
    }

    fn open_overwrite(&mut self) -> Result<(), String> {
        InMemorySink::open_overwrite(self)
    }

    fn open_append(&mut self) -> Result<(), String> {
        InMemorySink::open_append(self)
    }

    fn write(&mut self, bytes: &[u8]) -> Result<(), String> {
        InMemorySink::write(self, bytes)
    }
}

/// Standard input, identified as "-".
#[derive(Debug, Clone)]
pub struct StdinInput {
    pub id: String,
}

impl StdinInput {
    /// Standard input.
    pub fn new() -> (r: StdinInput)
        ensures
            r.id@ == "-"@,
    {
        StdinInput { id: String::from_str("-") }
    }
}

/// A file to read, identified by its path.
#[derive(Debug, Clone)]
pub struct FileInput {
    pub id: String,
    pub path: String,
}

impl FileInput {
    /// The file at `path`.
    pub fn new(path: &str) -> (r: FileInput)
        ensures
            r.id@ == path@,
            r.path@ == path@,
    {
        FileInput { id: String::from_str(path), path: String::from_str(path) }
    }

    /// The file's path.
    pub fn path(&self) -> (r: &String)
        ensures
            r@ == self.path@,
    {
        &self.path
    }
}

/// Standard output, identified as "-".
#[derive(Debug, Clone)]
pub struct StdoutOutput {
    pub id: String,
}

impl StdoutOutput {
    /// Standard output.
    pub fn new() -> (r: StdoutOutput)
        ensures
            r.id@ == "-"@,
    {
        StdoutOutput { id: String::from_str("-") }
    }
}

/// Standard error, identified as "stderr".
#[derive(Debug, Clone)]
pub struct StderrOutput {
    pub id: String,
}

impl StderrOutput {
    /// Standard error.
    pub fn new() -> (r: StderrOutput)
        ensures
            r.id@ == "stderr"@,
    {
        StderrOutput { id: String::from_str("stderr") }
    }
}

/// A file to write, identified by its path.
#[derive(Debug, Clone)]
pub struct FileOutput {
    pub id: String,
    pub path: String,
}

impl FileOutput {
    /// The file at `path`.
    pub fn new(path: &str) -> (r: FileOutput)
        ensures
            r.id@ == path@,
            r.path@ == path@,
    {
        FileOutput { id: String::from_str(path), path: String::from_str(path) }
    }

    /// The file's path.
    pub fn path(&self) -> (r: &String)
        ensures
            r@ == self.path@,
    {
        &self.path
    }
}

/// Standard input for the asynchronous engine, identified as "-".
#[derive(Debug, Clone)]
pub struct AsyncStdinInput {
    pub id: String,
}

impl AsyncStdinInput {
    /// Standard input.
    pub fn new() -> (r: AsyncStdinInput)
        ensures
            r.id@ == "-"@,
    {
        AsyncStdinInput { id: String::from_str("-") }
    }
}

/// A file to read asynchronously, identified by its path.
#[derive(Debug, Clone)]
pub struct AsyncFileInput {
    pub id: String,
    pub path: String,
}

impl AsyncFileInput {
    /// The file at `path`.
    pub fn new(path: &str) -> (r: AsyncFileInput)
        ensures
            r.id@ == path@,
            r.path@ == path@,
    {
        AsyncFileInput { id: String::from_str(path), path: String::from_str(path) }
    }

    /// The file's path.
    pub fn path(&self) -> (r: &String)
        ensures
            r@ == self.path@,
    {
        &self.path
    }
}

/// Standard output for the asynchronous engine, identified as "-".
#[derive(Debug, Clone)]
pub struct AsyncStdoutOutput {
    pub id: String,
}

impl AsyncStdoutOutput {
    /// Standard output.
    pub fn new() -> (r: AsyncStdoutOutput)
        ensures
            r.id@ == "-"@,
    {
        AsyncStdoutOutput { id: String::from_str("-") }
    }
}

/// Standard error for the asynchronous engine, identified as "stderr".
#[derive(Debug, Clone)]
pub struct AsyncStderrOutput {
    pub id: String,
}

impl AsyncStderrOutput {
    /// Standard error.
    pub fn new() -> (r: AsyncStderrOutput)
        ensures
            r.id@ == "stderr"@,
    {
        AsyncStderrOutput { id: String::from_str("stderr") }
    }
}

/// A file to write asynchronously, identified by its path.
#[derive(Debug, Clone)]
pub struct AsyncFileOutput {
    pub id: String,
    pub path: String,
}

impl AsyncFileOutput {
    /// The file at `path`.
    pub fn new(path: &str) -> (r: AsyncFileOutput)
        ensures
            r.id@ == path@,
            r.path@ == path@,
    {
        AsyncFileOutput { id: String::from_str(path), path: String::from_str(path) }
    }

    /// The file's path.
    pub fn path(&self) -> (r: &String)
        ensures
            r@ == self.path@,
    {
        &self.path
    }
}

} // verus!
