//! The two capability contracts of the dispatch layer: a `Command` can be
//! decoded from a payload and executed against the kernel under test, and an
//! `Executor` dispatches a raw command buffer to the command its leading
//! identifier selects.

use crate::codec::{id_of, WORD_BYTES};
use vstd::prelude::*;

verus! {

/// Why a command buffer could not be dispatched.
///
/// The harness propagates such a failure to its caller and aborts the step
/// cleanly; it never falls through to an arbitrary command.
#[derive(Clone, Copy, Debug, PartialEq, Eq, Structural)]
pub enum DispatchError {
    /// The buffer is too short to hold a command identifier.
    TooShort,
    /// The leading identifier selects no command in the registry.
    UnknownId(usize),
    /// The identifier is registered but the rest of the buffer is not a
    /// well-formed payload for that command.
    BadPayload(usize),
}

/// A command executed on the kernel under test: it can be decoded from the
/// payload that follows its identifier in a command buffer, and executed,
/// producing a signed return value and optionally writing extra output.
pub trait Command: Sized {
    /// The registry identifier that selects this command.
    spec fn spec_id() -> usize;

    /// Which payloads decode to a command. Trailing bytes beyond the
    /// command's own format are ignored by convention, not rejected.
    spec fn valid_payload(payload: Seq<u8>) -> bool;

    /// The command a valid payload decodes to.
    spec fn decoded(payload: Seq<u8>) -> Self;

    /// The return value of executing this command when the extra-output
    /// region holds `out`.
    spec fn ret_model(self, out: Seq<u8>) -> isize;

    /// The contents of the extra-output region after executing this command,
    /// given its previous contents. A command that writes no extra output
    /// leaves the region untouched.
    spec fn out_model(self, out: Seq<u8>) -> Seq<u8>;

    /// How many bytes of extra-output capacity this command demands of its
    /// caller. Providing less is a contract violation, never checked at run
    /// time.
    spec fn output_needed() -> nat;

    /// Executing never grows or shrinks the extra-output region.
    proof fn lemma_out_model_len(self, out: Seq<u8>)
        requires
            out.len() >= Self::output_needed(),
        ensures
            self.out_model(out).len() == out.len(),
    ;

    /// The registry identifier, as a run-time value.
    fn id() -> (r: usize)
        ensures
            r == Self::spec_id(),
    ;

    /// Decodes a command from the payload following its identifier, or
    /// reports that the payload is malformed.
    fn from_bytes(payload: &[u8]) -> (r: Option<Self>)
        ensures
            Self::valid_payload(payload@) ==> r == Some(Self::decoded(payload@)),
            !Self::valid_payload(payload@) ==> r is None,
    ;

    /// Runs the command against the kernel under test, returning its primary
    /// result and writing any extra output into `output` in place.
    fn execute(&self, output: &mut Vec<u8>) -> (r: isize)
        requires
            old(output)@.len() >= Self::output_needed(),
        ensures
            r == self.ret_model(old(output)@),
            final(output)@ == self.out_model(old(output)@),
    ;
}

/// A command registry: parses the identifier leading a command buffer,
/// dispatches to the command it selects, and reports a `DispatchError` when
/// no command can run.
pub trait Executor {
    /// Whether `id` selects a command in this registry.
    spec fn knows(&self, id: usize) -> bool;

    /// The extra-output capacity the registry's most demanding command
    /// requires: buffers handed to `parse_and_execute` are pre-sized to it.
    spec fn min_output(&self) -> nat;

    /// Functional model of one dispatch: the return value and the new
    /// extra-output contents, or the error, that a command buffer produces
    /// against an extra-output region holding `out`.
    spec fn dispatch_model(&self, cmd: Seq<u8>, out: Seq<u8>) -> Result<
        (isize, Seq<u8>),
        DispatchError,
    >;

    /// Laws every registry obeys: a successful dispatch preserves the length
    /// of the extra-output region; a buffer without a whole identifier is
    /// rejected as too short; an identifier outside the registry is rejected
    /// as unknown, and the unknown-identifier error arises only then.
    proof fn lemma_dispatch_model_wf(&self, cmd: Seq<u8>, out: Seq<u8>)
        requires
            out.len() >= self.min_output(),
        ensures
            (self.dispatch_model(cmd, out) matches Ok(p) ==> p.1.len() == out.len()),
            cmd.len() < WORD_BYTES ==> self.dispatch_model(cmd, out) == Err::<
                (isize, Seq<u8>),
                DispatchError,
            >(DispatchError::TooShort),
            cmd.len() >= WORD_BYTES && !self.knows(id_of(cmd)) ==> self.dispatch_model(cmd, out)
                == Err::<(isize, Seq<u8>), DispatchError>(DispatchError::UnknownId(id_of(cmd))),
            (self.dispatch_model(cmd, out) matches Err(e) ==> (e matches DispatchError::UnknownId(i)
                ==> cmd.len() >= WORD_BYTES && i == id_of(cmd) && !self.knows(i))),
    ;

    /// Parses the command buffer's identifier, decodes the selected command's
    /// payload, and executes it, exactly as `dispatch_model` says.
    fn parse_and_execute(&self, cmd_buf: &[u8], output: &mut Vec<u8>) -> (r: Result<
        isize,
        DispatchError,
    >)
        requires
            old(output)@.len() >= self.min_output(),
        ensures
            match self.dispatch_model(cmd_buf@, old(output)@) {
                Ok(p) => r == Ok::<isize, DispatchError>(p.0) && final(output)@ == p.1,
                Err(e) => r == Err::<isize, DispatchError>(e) && final(output)@ == old(output)@,
            },
    ;
}

/// Law: any registry rejects a buffer whose identifier it does not know with
/// exactly the unknown-identifier error; the buffer never reaches a command.
pub proof fn lemma_unknown_id_rejected<E: Executor>(ex: &E, cmd: Seq<u8>, out: Seq<u8>)
    requires
        out.len() >= ex.min_output(),
        cmd.len() >= WORD_BYTES,
        !ex.knows(id_of(cmd)),
    ensures
        ex.dispatch_model(cmd, out) == Err::<(isize, Seq<u8>), DispatchError>(
            DispatchError::UnknownId(id_of(cmd)),
        ),
{
    ex.lemma_dispatch_model_wf(cmd, out);
}

} // verus!
