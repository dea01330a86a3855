//! Concrete command registries. `SingleExecutor` dispatches to one command;
//! `ChainExecutor` joins two registries, the first match winning, so a closed
//! command catalog is registered as a chain of single entries built once at
//! startup.

use crate::codec::{decode_id, id_of, payload_of, WORD_BYTES};
use crate::command::{Command, DispatchError, Executor};
use core::marker::PhantomData;
use vstd::prelude::*;

verus! {

/// A registry of exactly one command type.
pub struct SingleExecutor<C: Command> {
    marker: PhantomData<C>,
}

impl<C: Command> SingleExecutor<C> {
    /// Registers `C` as the only command of this registry.
    pub fn new() -> (r: Self) {
        SingleExecutor { marker: PhantomData }
    }
}

impl<C: Command> Executor for SingleExecutor<C> {
    open spec fn knows(&self, id: usize) -> bool {
        id == C::spec_id()
    }

    open spec fn min_output(&self) -> nat {
        C::output_needed()
    }

    open spec fn dispatch_model(&self, cmd: Seq<u8>, out: Seq<u8>) -> Result<
        (isize, Seq<u8>),
        DispatchError,
    > {
        if cmd.len() < WORD_BYTES {
            Err(DispatchError::TooShort)
        } else if id_of(cmd) != C::spec_id() {
            Err(DispatchError::UnknownId(id_of(cmd)))
        } else if !C::valid_payload(payload_of(cmd)) {
            Err(DispatchError::BadPayload(id_of(cmd)))
        } else {
            let c = C::decoded(payload_of(cmd));
            Ok((c.ret_model(out), c.out_model(out)))
        }
    }

    proof fn lemma_dispatch_model_wf(&self, cmd: Seq<u8>, out: Seq<u8>) {
        if cmd.len() >= WORD_BYTES && id_of(cmd) == C::spec_id() && C::valid_payload(
            payload_of(cmd),
        ) {
            C::decoded(payload_of(cmd)).lemma_out_model_len(out);
        }
    }

    fn parse_and_execute(&self, cmd_buf: &[u8], output: &mut Vec<u8>) -> (r: Result<
        isize,
        DispatchError,
    >) {
        if cmd_buf.len() < WORD_BYTES {
            return Err(DispatchError::TooShort);
        }
        let (id, payload) = decode_id(cmd_buf);
        if id != C::id() {
            return Err(DispatchError::UnknownId(id));
        }
        match C::from_bytes(payload) {
            None => Err(DispatchError::BadPayload(id)),
            Some(c) => Ok(c.execute(output)),
        }
    }
}

/// Two registries joined into one: a command buffer goes to `first` when its
/// identifier is registered there, and to `rest` otherwise. Identifiers are
/// unique by construction in a well-formed catalog, so the order carries no
/// ambiguity; where it is violated, the first match wins.
pub struct ChainExecutor<A, B> {
    first: A,
    rest: B,
}

impl<A: Executor, B: Executor> ChainExecutor<A, B> {
    /// Joins two registries, `first` taking precedence.
    pub fn new(first: A, rest: B) -> (r: Self)
        ensures
            r.spec_first() == first,
            r.spec_rest() == rest,
    {
        ChainExecutor { first, rest }
    }

    /// The registry tried first.
    pub closed spec fn spec_first(&self) -> A {
        self.first
    }

    /// The registry a buffer falls to when `first` does not know its
    /// identifier.
    pub closed spec fn spec_rest(&self) -> B {
        self.rest
    }
}

impl<A: Executor, B: Executor> Executor for ChainExecutor<A, B> {
    open spec fn knows(&self, id: usize) -> bool {
        self.spec_first().knows(id) || self.spec_rest().knows(id)
    }

    open spec fn min_output(&self) -> nat {
        if self.spec_first().min_output() >= self.spec_rest().min_output() {
            self.spec_first().min_output()
        } else {
            self.spec_rest().min_output()
        }
    }

    open spec fn dispatch_model(&self, cmd: Seq<u8>, out: Seq<u8>) -> Result<
        (isize, Seq<u8>),
        DispatchError,
    > {
        if cmd.len() < WORD_BYTES {
            Err(DispatchError::TooShort)
        } else if self.spec_first().knows(id_of(cmd)) {
            self.spec_first().dispatch_model(cmd, out)
        } else {
            self.spec_rest().dispatch_model(cmd, out)
        }
    }

    proof fn lemma_dispatch_model_wf(&self, cmd: Seq<u8>, out: Seq<u8>) {
        self.spec_first().lemma_dispatch_model_wf(cmd, out);
        self.spec_rest().lemma_dispatch_model_wf(cmd, out);
    }

    fn parse_and_execute(&self, cmd_buf: &[u8], output: &mut Vec<u8>) -> (r: Result<
        isize,
        DispatchError,
    >) {
        proof {
            self.spec_first().lemma_dispatch_model_wf(cmd_buf@, old(output)@);
            self.spec_rest().lemma_dispatch_model_wf(cmd_buf@, old(output)@);
        }
        if cmd_buf.len() < WORD_BYTES {
            return Err(DispatchError::TooShort);
        }
        let r = self.first.parse_and_execute(cmd_buf, output);
        match r {
            Err(DispatchError::UnknownId(_)) => self.rest.parse_and_execute(cmd_buf, output),
            _ => r,
        }
    }
}

/// Law (dispatch correctness, single entry): a command buffer whose leading
/// bytes encode the registered identifier and whose remainder is a valid
/// payload dispatches to exactly the command that payload decodes to: the
/// result is that command's return value and that command's effect on the
/// extra-output region, and no error.
pub proof fn lemma_single_dispatch_hits<C: Command>(
    ex: &SingleExecutor<C>,
    cmd: Seq<u8>,
    out: Seq<u8>,
)
    requires
        cmd.len() >= WORD_BYTES,
        id_of(cmd) == C::spec_id(),
        C::valid_payload(payload_of(cmd)),
    ensures
        ex.dispatch_model(cmd, out) == Ok::<(isize, Seq<u8>), DispatchError>(
            (
                C::decoded(payload_of(cmd)).ret_model(out),
                C::decoded(payload_of(cmd)).out_model(out),
            ),
        ),
{
}

/// Law (dispatch correctness, chain): a buffer whose identifier the first
/// registry knows is dispatched exactly as by the first registry alone, and
/// one whose identifier it does not know exactly as by the second alone: no
/// other registry's command is touched.
pub proof fn lemma_chain_dispatch_routes<A: Executor, B: Executor>(
    ex: &ChainExecutor<A, B>,
    cmd: Seq<u8>,
    out: Seq<u8>,
)
    requires
        cmd.len() >= WORD_BYTES,
    ensures
        ex.spec_first().knows(id_of(cmd)) ==> ex.dispatch_model(cmd, out)
            == ex.spec_first().dispatch_model(cmd, out),
        !ex.spec_first().knows(id_of(cmd)) ==> ex.dispatch_model(cmd, out)
            == ex.spec_rest().dispatch_model(cmd, out),
{
}

} // verus!
