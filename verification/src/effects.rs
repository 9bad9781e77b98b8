//! The effect dispatch table: the fixed menu of host operations the guest's
//! effect closure may request while it runs. Emitting text is modelled on a
//! byte-accurate image of the host's error stream; reading a whole file is
//! modelled by the exact-length acceptance check the host applies to the
//! bytes the operating system handed back. The writes and reads themselves
//! are the unverified shell's job.

use vstd::prelude::*;
use crate::append_bytes;

verus! {

/// One output request the guest may make during the effect invocation.
pub enum EmitEffect {
    /// Emit a line of text: the bytes followed by a line terminator.
    Line { text: Vec<u8> },
    /// Emit raw bytes exactly as given, with nothing appended.
    Raw { bytes: Vec<u8> },
}

/// The bytes one output request contributes to the host's error stream.
pub open spec fn emit_output(e: EmitEffect) -> Seq<u8> {
    match e {
        EmitEffect::Line { text } => text@ + seq![10u8],
        EmitEffect::Raw { bytes } => bytes@,
    }
}

/// The bytes a sequence of output requests contributes to the host's error
/// stream, in request order.
pub open spec fn emits_output(es: Seq<EmitEffect>) -> Seq<u8>
    decreases es.len(),
{
    if es.len() == 0 {
        Seq::empty()
    } else {
        emits_output(es.drop_last()) + emit_output(es.last())
    }
}

/// A line of output: the text followed by a line terminator.
pub fn line_output(text: &[u8]) -> (r: Vec<u8>)
    ensures
        r@ == text@ + seq![10u8],
{
    let mut out: Vec<u8> = Vec::new();
    append_bytes(&mut out, text);
    out.push(10u8);
    proof {
        assert(out@ =~= text@ + seq![10u8]);
    }
    out
}

/// A byte-accurate image of everything written to the host's error stream,
/// in the order it was written.
pub struct ErrorStream {
    data: Vec<u8>,
}

impl View for ErrorStream {
    type V = Seq<u8>;

    closed spec fn view(&self) -> Seq<u8> {
        self.data@
    }
}

impl ErrorStream {
    /// An error stream to which nothing has been written yet.
    pub fn new() -> (r: ErrorStream)
        ensures
            r@ == Seq::<u8>::empty(),
    {
        ErrorStream { data: Vec::new() }
    }

    /// Emits a line: the text followed by a line terminator. A failure of
    /// the underlying write is swallowed (best effort), so the operation
    /// reports nothing back.
    pub fn emit_line(&mut self, text: &[u8])
        ensures
            final(self)@ == old(self)@ + text@ + seq![10u8],
    {
        append_bytes(&mut self.data, text);
        self.data.push(10u8);
        proof {
            assert(self@ =~= old(self)@ + text@ + seq![10u8]);
        }
    }

    /// Emits raw bytes with nothing appended. A failure of the underlying
    /// write is fatal for the host process, so on return the bytes are on
    /// the stream.
    pub fn emit_raw(&mut self, bytes: &[u8])
        ensures
            final(self)@ == old(self)@ + bytes@,
    {
        append_bytes(&mut self.data, bytes);
    }

    /// The bytes written so far, in order.
    pub fn bytes(&self) -> (r: &Vec<u8>)
        ensures
            r@ == self@,
    {
        &self.data
    }

    /// Hands the written bytes out, consuming the stream image.
    pub fn into_bytes(self) -> (r: Vec<u8>)
        ensures
            r@ == self@,
    {
        self.data
    }

    /// Serves one output request of the guest's effect closure.
    pub fn apply(&mut self, e: &EmitEffect)
        ensures
            final(self)@ == old(self)@ + emit_output(*e),
    {
        match e {
            EmitEffect::Line { text } => self.emit_line(text.as_slice()),
            EmitEffect::Raw { bytes } => self.emit_raw(bytes.as_slice()),
        }
    }
}

/// Output requests land on the error stream in exactly the order the guest
/// made them: a line emitted before raw bytes stands complete on the stream
/// before those bytes, whatever the contents of either.
pub proof fn lemma_emit_order(init: Seq<u8>, first: EmitEffect, second: EmitEffect)
    ensures
        init + emits_output(seq![first, second])
            == (init + emit_output(first)) + emit_output(second),
{
    let pair = seq![first, second];
    assert(pair.drop_last() =~= seq![first]);
    assert(seq![first].drop_last() =~= Seq::<EmitEffect>::empty());
    assert(emits_output(Seq::<EmitEffect>::empty()) == Seq::<u8>::empty());
    assert(emits_output(seq![first]) =~= emit_output(first));
    assert(emits_output(pair) =~= emit_output(first) + emit_output(second));
    assert(init + emits_output(pair) =~= (init + emit_output(first)) + emit_output(second));
}

/// How the host treats a failure of the underlying write: a failed line
/// emission is swallowed, a failed raw emission aborts the host process.
/// The asymmetry is part of the contract and must be preserved.
#[derive(Clone, Copy, Debug, PartialEq, Eq, Structural)]
pub enum WriteFailurePolicy {
    Ignore,
    Abort,
}

/// The write-failure policy for each output operation.
pub fn write_failure_policy(e: &EmitEffect) -> (p: WriteFailurePolicy)
    ensures
        (e matches EmitEffect::Line { .. }) ==> p == WriteFailurePolicy::Ignore,
        (e matches EmitEffect::Raw { .. }) ==> p == WriteFailurePolicy::Abort,
{
    match e {
        EmitEffect::Line { .. } => WriteFailurePolicy::Ignore,
        EmitEffect::Raw { .. } => WriteFailurePolicy::Abort,
    }
}

/// A whole-file read came back with the wrong number of bytes: the file's
/// metadata promised `expected` bytes and the read produced `got`.
#[derive(Clone, Copy, Debug, PartialEq, Eq, Structural)]
pub struct ReadLengthError {
    pub expected: usize,
    pub got: usize,
}

/// The acceptance check of the whole-file read: the bytes the operating
/// system handed back are accepted only if there are exactly as many as the
/// file's metadata reported, and they pass through unchanged — a short or
/// long read is an error, never silently tolerated.
pub fn take_full_read(expected_len: usize, bytes: Vec<u8>) -> (r: Result<Vec<u8>, ReadLengthError>)
    ensures
        bytes@.len() == expected_len ==> (r matches Ok(b) && b@ == bytes@),
        bytes@.len() != expected_len ==> r == Err::<Vec<u8>, _>(ReadLengthError {
            expected: expected_len,
            got: bytes@.len() as usize,
        }),
{
    if bytes.len() == expected_len {
        Ok(bytes)
    } else {
        Err(ReadLengthError { expected: expected_len, got: bytes.len() })
    }
}

} // verus!
