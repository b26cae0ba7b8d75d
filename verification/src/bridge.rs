//! The foreign data record: host state that a VM instance carries in its
//! single foreign-pointer slot, and that the engine's callbacks recover.
use vstd::prelude::*;
use crate::diagnostics::CompilerError;
use crate::sys::SQInteger;

verus! {

/// A sink refused the bytes it was handed.
#[derive(Debug, Clone, Copy, PartialEq, Eq)]
pub struct SinkError;

/// Something that receives raw bytes: the capability a print or error sink
/// must have. The bytes need be neither text nor free of zero bytes.
pub trait ByteSink: Sized {
    /// What this sink says of one write: how the sink after it relates to
    /// the sink before it, the bytes handed over and the outcome. A sink
    /// that says nothing of itself leaves this as it is.
    open spec fn wrote(
        before: Self,
        buffer: Seq<u8>,
        after: Self,
        outcome: Result<usize, SinkError>,
    ) -> bool {
        true
    }

    /// Takes `buffer` and says how many of its bytes were accepted.
    fn write(&mut self, buffer: &[u8]) -> (outcome: Result<usize, SinkError>)
        ensures
            Self::wrote(*old(self), buffer@, *final(self), outcome),
    ;
}

/// A sink that keeps every byte it is handed, in order.
#[derive(Debug, Clone, PartialEq, Eq)]
pub struct ByteLog {
    pub bytes: Vec<u8>,
}

impl View for ByteLog {
    type V = Seq<u8>;

    open spec fn view(&self) -> Seq<u8> {
        self.bytes@
    }
}

impl ByteLog {
    pub fn new() -> (log: ByteLog)
        ensures
            log@ == Seq::<u8>::empty(),
    {
        ByteLog { bytes: Vec::new() }
    }
}

impl ByteSink for ByteLog {
    /// A write always succeeds, accepts the whole buffer and appends it.
    open spec fn wrote(before: Self, buffer: Seq<u8>, after: Self, outcome: Result<usize, SinkError>) -> bool {
        &&& after@ == before@ + buffer
        &&& outcome == Ok::<usize, SinkError>(buffer.len() as usize)
    }

    /// Appends `buffer` byte for byte, unsplit and unmodified, whatever it
    /// holds.
    fn write(&mut self, buffer: &[u8]) -> (outcome: Result<usize, SinkError>)
        ensures
            final(self)@ == old(self)@ + buffer@,
            outcome == Ok::<usize, SinkError>(buffer.len()),
    {
        self.bytes.extend_from_slice(buffer);
        assert(self.bytes@ =~= old(self).bytes@ + buffer@);
        Ok(buffer.len())
    }
}

/// Host state of one VM instance: its two output sinks and the slot for the
/// most recent compiler diagnostic.
pub struct SquirrelData<P, E> {
    pub compiler_error: Option<CompilerError>,
    pub print: P,
    pub error: E,
}

impl<P: ByteSink, E: ByteSink> SquirrelData<P, E> {
    /// A record over the two sinks, with an empty diagnostic slot.
    pub fn new(print_stream: P, error_stream: E) -> (data: Self)
        ensures
            data.compiler_error is None,
            data.print == print_stream,
            data.error == error_stream,
    {
        SquirrelData { compiler_error: None, print: print_stream, error: error_stream }
    }

    /// Print trampoline: hands the engine's output to the print sink, once
    /// and whole, and touches nothing else of the record.
    pub fn print_fn(&mut self, buffer: &[u8]) -> (outcome: Result<usize, SinkError>)
        ensures
            P::wrote(old(self).print, buffer@, final(self).print, outcome),
            final(self).error == old(self).error,
            final(self).compiler_error == old(self).compiler_error,
    {
        self.print.write(buffer)
    }

    /// Error trampoline: hands the engine's output to the error sink, once
    /// and whole, and touches nothing else of the record.
    pub fn err_fn(&mut self, buffer: &[u8]) -> (outcome: Result<usize, SinkError>)
        ensures
            E::wrote(old(self).error, buffer@, final(self).error, outcome),
            final(self).print == old(self).print,
            final(self).compiler_error == old(self).compiler_error,
    {
        self.error.write(buffer)
    }

    /// Compiler-error hook: stores the engine's report in the diagnostic
    /// slot, over whatever the slot held.
    pub fn err_handler(&mut self, desc: String, source: String, line: SQInteger, column: SQInteger)
        ensures
            final(self).compiler_error == Some(
                CompilerError { desc: desc, source: source, line: line, column: column },
            ),
            final(self).print == old(self).print,
            final(self).error == old(self).error,
    {
        self.compiler_error = Some(
            CompilerError { desc: desc, source: source, line: line, column: column },
        );
    }
}

} // verus!
