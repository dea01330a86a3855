//! The top-level driver. A `Harness` owns one port and one command registry
//! and exposes the two protocol rounds: `init`, the one-time state handshake,
//! and `step`, one full test iteration. Each round signals its traps in a
//! fixed order so the checker always knows which observation a yield permits.

use crate::command::{DispatchError, Executor};
use crate::port::{same_cmd_channel, same_state_channel, HarnessPort, TrapKind};
use vstd::prelude::*;

verus! {

/// The trap sequence of one state-dump pass: one fetch-chunk trap per call
/// of `send_state_data`.
pub open spec fn get_state_traps(rounds: nat) -> Seq<TrapKind> {
    Seq::new(rounds, |i: int| TrapKind::GetState)
}

/// How many chunk sends one state-dump pass performs: one per pending chunk,
/// and a single call that reports exhaustion when none is pending.
pub open spec fn state_rounds(chunks: nat) -> nat {
    if chunks == 0 {
        1
    } else {
        chunks
    }
}

/// The trap sequence of one `init` round over `chunks` pending state chunks.
pub open spec fn init_traps(chunks: nat) -> Seq<TrapKind> {
    seq![TrapKind::Start] + get_state_traps(state_rounds(chunks)) + seq![TrapKind::CheckState]
}

/// The trap sequence of one successful `step` round over `chunks` pending
/// state chunks: command injection, return-value check, one fetch per chunk
/// send, state check — always in that order, whatever command was executed.
pub open spec fn step_traps(chunks: nat) -> Seq<TrapKind> {
    seq![TrapKind::Command, TrapKind::CheckRetv] + get_state_traps(state_rounds(chunks)) + seq![
        TrapKind::CheckState,
    ]
}

/// Runs one state-dump pass: arms the state source, signals a fetch trap and
/// sends a chunk until the source reports exhaustion, then releases the
/// source exactly once.
fn run_state_dump<P: HarnessPort>(port: &mut P)
    requires
        !old(port).model().armed,
    ensures
        final(port).model().traps == old(port).model().traps + get_state_traps(
            state_rounds(old(port).model().chunks_left),
        ),
        same_cmd_channel(final(port).model(), old(port).model()),
        final(port).model().chunks_left == 0,
        !final(port).model().armed,
        final(port).model().sends == old(port).model().sends + state_rounds(
            old(port).model().chunks_left,
        ),
        final(port).model().finishes == old(port).model().finishes + 1,
{
    let ghost base = port.model();
    port.start_state_sending();
    let ghost rounds: nat = 0;
    let mut done = false;
    while !done
        invariant
            port.model().armed,
            same_cmd_channel(port.model(), base),
            port.model().traps == base.traps + get_state_traps(rounds),
            port.model().sends == base.sends + rounds,
            port.model().finishes == base.finishes,
            port.model().chunks_left == if rounds <= base.chunks_left {
                (base.chunks_left - rounds) as nat
            } else {
                0
            },
            !done ==> rounds == 0 || port.model().chunks_left > 0,
            done ==> port.model().chunks_left == 0 && rounds == state_rounds(base.chunks_left),
        decreases port.model().chunks_left + (if done { 0int } else { 1int }),
    {
        port.signal(TrapKind::GetState);
        done = port.send_state_data();
        proof {
            rounds = rounds + 1;
            assert(base.traps + get_state_traps(rounds) =~= (base.traps + get_state_traps(
                (rounds - 1) as nat,
            )).push(TrapKind::GetState));
        }
    }
    port.finish_state_sending();
}

/// The guest-resident driver of the model-check protocol: one port toward
/// the checker, one command registry, and a scratch buffer for the extra
/// output of the command under execution, sized once for the catalog's most
/// demanding command.
pub struct Harness<P, E, const BUF_SIZE: usize> {
    port: P,
    executor: E,
    buf: Vec<u8>,
}

impl<P, E, const BUF_SIZE: usize> Harness<P, E, BUF_SIZE> where P: HarnessPort, E: Executor {
    /// The scratch buffer keeps its size and can hold the extra output of
    /// every command the registry knows.
    pub closed spec fn wf(&self) -> bool {
        self.buf@.len() == BUF_SIZE && BUF_SIZE >= self.executor.min_output()
    }

    /// The abstract state of the owned port.
    pub closed spec fn port_model(&self) -> crate::port::PortModel {
        self.port.model()
    }

    /// The owned command registry.
    pub closed spec fn registry(&self) -> E {
        self.executor
    }

    /// The contents of the scratch buffer.
    pub closed spec fn scratch(&self) -> Seq<u8> {
        self.buf@
    }

    /// Creates a harness over a port and a registry, with a zeroed scratch
    /// buffer. The buffer size must cover the registry's most demanding
    /// command: extra-output overflow is a configuration error, never checked
    /// at run time.
    pub fn new(port: P, executor: E) -> (r: Self)
        requires
            BUF_SIZE >= executor.min_output(),
        ensures
            r.wf(),
            r.port_model() == port.model(),
            r.registry() == executor,
            r.scratch().len() == BUF_SIZE,
            forall|i: int| 0 <= i < BUF_SIZE ==> r.scratch()[i] == 0u8,
    {
        let mut buf: Vec<u8> = Vec::new();
        while buf.len() < BUF_SIZE
            invariant
                buf@.len() <= BUF_SIZE,
                forall|i: int| 0 <= i < buf@.len() ==> buf@[i] == 0u8,
            decreases BUF_SIZE - buf@.len(),
        {
            buf.push(0u8);
        }
        Harness { port, executor, buf }
    }

    /// Borrows the owned port, so the checker side of a test can read what
    /// was sent.
    pub fn port_ref(&self) -> (r: &P)
        ensures
            r.model() == self.port_model(),
    {
        &self.port
    }

    /// The one-time state handshake: signals that a state dump is starting,
    /// streams every pending chunk of kernel state (one fetch trap per
    /// chunk send), and signals completion.
    pub fn init(&mut self)
        requires
            old(self).wf(),
            !old(self).port_model().armed,
        ensures
            final(self).wf(),
            final(self).registry() == old(self).registry(),
            final(self).scratch() == old(self).scratch(),
            final(self).port_model().traps == old(self).port_model().traps + init_traps(
                old(self).port_model().chunks_left,
            ),
            same_cmd_channel(final(self).port_model(), old(self).port_model()),
            final(self).port_model().chunks_left == 0,
            !final(self).port_model().armed,
            final(self).port_model().sends == old(self).port_model().sends + state_rounds(
                old(self).port_model().chunks_left,
            ),
            final(self).port_model().finishes == old(self).port_model().finishes + 1,
    {
        self.port.signal(TrapKind::Start);
        run_state_dump(&mut self.port);
        self.port.signal(TrapKind::CheckState);
        proof {
            assert(self.port.model().traps =~= old(self).port_model().traps + init_traps(
                old(self).port_model().chunks_left,
            ));
        }
    }

    /// One protocol round: yields for command injection, receives and
    /// dispatches the command, sends its return value and extra output,
    /// yields for the return-value check, streams the pending kernel state,
    /// and yields for the state check — traps always in that order.
    ///
    /// A buffer that dispatches to no command aborts the round after the
    /// command trap: the error is propagated, nothing is sent, no state is
    /// streamed, and no command's effect runs.
    pub fn step(&mut self) -> (r: Result<isize, DispatchError>)
        requires
            old(self).wf(),
            !old(self).port_model().armed,
        ensures
            final(self).wf(),
            final(self).registry() == old(self).registry(),
            final(self).port_model().command == old(self).port_model().command,
            match old(self).registry().dispatch_model(
                old(self).port_model().command,
                old(self).scratch(),
            ) {
                Ok(p) => {
                    &&& r == Ok::<isize, DispatchError>(p.0)
                    &&& final(self).scratch() == p.1
                    &&& final(self).port_model().retvs == old(self).port_model().retvs.push(p.0)
                    &&& final(self).port_model().extras == old(self).port_model().extras.push(p.1)
                    &&& final(self).port_model().traps == old(self).port_model().traps + step_traps(
                        old(self).port_model().chunks_left,
                    )
                    &&& final(self).port_model().chunks_left == 0
                    &&& !final(self).port_model().armed
                    &&& final(self).port_model().sends == old(self).port_model().sends
                        + state_rounds(old(self).port_model().chunks_left)
                    &&& final(self).port_model().finishes == old(self).port_model().finishes + 1
                },
                Err(e) => {
                    &&& r == Err::<isize, DispatchError>(e)
                    &&& final(self).scratch() == old(self).scratch()
                    &&& final(self).port_model().traps == old(self).port_model().traps.push(
                        TrapKind::Command,
                    )
                    &&& final(self).port_model().retvs == old(self).port_model().retvs
                    &&& final(self).port_model().extras == old(self).port_model().extras
                    &&& same_state_channel(final(self).port_model(), old(self).port_model())
                },
            },
    {
        self.port.signal(TrapKind::Command);
        let dispatched = self.executor.parse_and_execute(
            self.port.receive_command(),
            &mut self.buf,
        );
        match dispatched {
            Err(e) => Err(e),
            Ok(retv) => {
                proof {
                    self.executor.lemma_dispatch_model_wf(
                        old(self).port_model().command,
                        old(self).scratch(),
                    );
                }
                self.port.send_retv(retv);
                self.port.send_extra_data(self.buf.as_slice());
                self.port.signal(TrapKind::CheckRetv);
                run_state_dump(&mut self.port);
                self.port.signal(TrapKind::CheckState);
                proof {
                    assert(self.port.model().traps =~= old(self).port_model().traps + step_traps(
                        old(self).port_model().chunks_left,
                    ));
                }
                Ok(retv)
            },
        }
    }
}

} // verus!
