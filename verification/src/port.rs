//! The transport endpoint between the guest-resident harness and the
//! checker: a command channel (receive a command buffer, send a return value
//! and extra output), a state channel (stream kernel state in chunks until
//! exhaustion), and the trap primitive that yields control to the checker at
//! named synchronization points.

use crate::codec::{encode_retv, retv_to_bytes, WORD_BYTES};
use vstd::prelude::*;
use vstd::slice::slice_to_vec;

verus! {

/// The named synchronization points at which the guest yields control to the
/// checker. The trap primitive itself carries no parameters; the names exist
/// so the checker knows which observation each yield permits.
#[derive(Clone, Copy, Debug, PartialEq, Eq, Structural)]
pub enum TrapKind {
    /// The one-time state handshake is starting.
    Start,
    /// The checker may inject the next command buffer.
    Command,
    /// The checker may compare the sent return value against its model.
    CheckRetv,
    /// The checker may fetch the next chunk of kernel state.
    GetState,
    /// The checker may compare the fully dumped state against its model.
    CheckState,
}

/// Abstract state of a port: everything the checker has observed through it
/// and everything the state source still owes it.
pub struct PortModel {
    /// Every trap signalled so far, in order.
    pub traps: Seq<TrapKind>,
    /// The command buffer the checker has written for the next dispatch.
    pub command: Seq<u8>,
    /// Every return value sent so far, in order.
    pub retvs: Seq<isize>,
    /// Every extra-output buffer sent so far, in order.
    pub extras: Seq<Seq<u8>>,
    /// How many chunks of kernel state the state source still holds.
    pub chunks_left: nat,
    /// Whether the state source is armed for a sending pass.
    pub armed: bool,
    /// How many chunk sends have been performed so far.
    pub sends: nat,
    /// How many sending passes have been released so far.
    pub finishes: nat,
}

/// Both channels are untouched: nothing new was observed by the checker.
pub open spec fn same_channels(a: PortModel, b: PortModel) -> bool {
    same_cmd_channel(a, b) && same_state_channel(a, b)
}

/// The command channel is untouched.
pub open spec fn same_cmd_channel(a: PortModel, b: PortModel) -> bool {
    a.command == b.command && a.retvs == b.retvs && a.extras == b.extras
}

/// The state channel is untouched.
pub open spec fn same_state_channel(a: PortModel, b: PortModel) -> bool {
    a.chunks_left == b.chunks_left && a.armed == b.armed && a.sends == b.sends && a.finishes
        == b.finishes
}

/// A port: the harness's sole means of communicating with the checker.
///
/// The state channel is driven in passes: `start_state_sending` arms the
/// state source, `send_state_data` is called repeatedly until it returns
/// true (one call sends one chunk; the last call finds none left), and only
/// then may `finish_state_sending` release the source.
pub trait HarnessPort {
    /// The port's abstract state.
    spec fn model(&self) -> PortModel;

    /// Yields control to the checker at the named synchronization point and
    /// returns when the checker resumes the guest.
    fn signal(&mut self, trap: TrapKind)
        ensures
            final(self).model().traps == old(self).model().traps.push(trap),
            same_channels(final(self).model(), old(self).model()),
    ;

    /// Borrows the command buffer the checker has written.
    fn receive_command(&self) -> (cmd: &[u8])
        ensures
            cmd@ == self.model().command,
    ;

    /// Sends the return value of the dispatched command to the checker.
    fn send_retv(&mut self, retv: isize)
        ensures
            final(self).model().retvs == old(self).model().retvs.push(retv),
            final(self).model().traps == old(self).model().traps,
            final(self).model().command == old(self).model().command,
            final(self).model().extras == old(self).model().extras,
            same_state_channel(final(self).model(), old(self).model()),
    ;

    /// Sends the extra output of the dispatched command to the checker.
    fn send_extra_data(&mut self, data: &[u8])
        ensures
            final(self).model().extras == old(self).model().extras.push(data@),
            final(self).model().traps == old(self).model().traps,
            final(self).model().command == old(self).model().command,
            final(self).model().retvs == old(self).model().retvs,
            same_state_channel(final(self).model(), old(self).model()),
    ;

    /// Arms the state source for one sending pass.
    fn start_state_sending(&mut self)
        requires
            !old(self).model().armed,
        ensures
            final(self).model().armed,
            final(self).model().traps == old(self).model().traps,
            same_cmd_channel(final(self).model(), old(self).model()),
            final(self).model().chunks_left == old(self).model().chunks_left,
            final(self).model().sends == old(self).model().sends,
            final(self).model().finishes == old(self).model().finishes,
    ;

    /// Pushes the next chunk of kernel state; returns true exactly when no
    /// further chunk exists, so this was the last call needed.
    fn send_state_data(&mut self) -> (done: bool)
        requires
            old(self).model().armed,
        ensures
            final(self).model().armed,
            final(self).model().traps == old(self).model().traps,
            same_cmd_channel(final(self).model(), old(self).model()),
            final(self).model().chunks_left == if old(self).model().chunks_left > 0 {
                (old(self).model().chunks_left - 1) as nat
            } else {
                0
            },
            final(self).model().sends == old(self).model().sends + 1,
            final(self).model().finishes == old(self).model().finishes,
            done == (final(self).model().chunks_left == 0),
    ;

    /// Releases the state source after a pass has sent every chunk.
    fn finish_state_sending(&mut self)
        requires
            old(self).model().armed,
            old(self).model().chunks_left == 0,
        ensures
            !final(self).model().armed,
            final(self).model().traps == old(self).model().traps,
            same_cmd_channel(final(self).model(), old(self).model()),
            final(self).model().chunks_left == 0,
            final(self).model().sends == old(self).model().sends,
            final(self).model().finishes == old(self).model().finishes + 1,
    ;
}

/// A port backed by plain memory buffers, with every trap recorded instead
/// of delivered to a hypervisor: the transport used when the checker shares
/// memory with the guest, and the test double for the harness protocol.
pub struct MemPort {
    cmd_buf: Vec<u8>,
    retv_buf: Vec<u8>,
    output_buf: Vec<u8>,
    trap_log: Vec<TrapKind>,
    chunks_left: usize,
    armed: bool,
    retv_log: Ghost<Seq<isize>>,
    extra_log: Ghost<Seq<Seq<u8>>>,
    send_count: Ghost<nat>,
    finish_count: Ghost<nat>,
}

impl MemPort {
    /// The bytes currently in the outbound return-value slot.
    pub closed spec fn spec_retv_slot(&self) -> Seq<u8> {
        self.retv_buf@
    }

    /// The bytes currently in the outbound extra-output slot.
    pub closed spec fn spec_extra_slot(&self) -> Seq<u8> {
        self.output_buf@
    }

    /// Creates a port over a command buffer, a return-value slot and an
    /// extra-output slot, with no kernel state to stream yet.
    pub fn new(cmd_buf: Vec<u8>, retv_buf: Vec<u8>, output_buf: Vec<u8>) -> (r: Self)
        requires
            retv_buf@.len() == WORD_BYTES,
        ensures
            r.model().traps == Seq::<TrapKind>::empty(),
            r.model().command == cmd_buf@,
            r.model().retvs == Seq::<isize>::empty(),
            r.model().extras == Seq::<Seq<u8>>::empty(),
            r.model().chunks_left == 0,
            !r.model().armed,
            r.model().sends == 0,
            r.model().finishes == 0,
            r.spec_retv_slot() == retv_buf@,
            r.spec_extra_slot() == output_buf@,
    {
        MemPort {
            cmd_buf,
            retv_buf,
            output_buf,
            trap_log: Vec::new(),
            chunks_left: 0,
            armed: false,
            retv_log: Ghost(Seq::empty()),
            extra_log: Ghost(Seq::empty()),
            send_count: Ghost(0),
            finish_count: Ghost(0),
        }
    }

    /// Loads `n` chunks of kernel state for the next sending pass, the way
    /// the state source fills up between steps.
    pub fn load_state_chunks(&mut self, n: usize)
        requires
            !old(self).model().armed,
        ensures
            final(self).model().chunks_left == n,
            final(self).model().traps == old(self).model().traps,
            same_cmd_channel(final(self).model(), old(self).model()),
            !final(self).model().armed,
            final(self).model().sends == old(self).model().sends,
            final(self).model().finishes == old(self).model().finishes,
            final(self).spec_retv_slot() == old(self).spec_retv_slot(),
            final(self).spec_extra_slot() == old(self).spec_extra_slot(),
    {
        self.chunks_left = n;
    }

    /// The traps recorded so far, in order.
    pub fn traps_seen(&self) -> (r: &Vec<TrapKind>)
        ensures
            r@ == self.model().traps,
    {
        &self.trap_log
    }

    /// The bytes in the return-value slot.
    pub fn retv_bytes(&self) -> (r: &Vec<u8>)
        ensures
            r@ == self.spec_retv_slot(),
    {
        &self.retv_buf
    }

    /// The bytes in the extra-output slot.
    pub fn extra_bytes(&self) -> (r: &Vec<u8>)
        ensures
            r@ == self.spec_extra_slot(),
    {
        &self.output_buf
    }

    /// Whether the state source is armed.
    pub fn state_armed(&self) -> (r: bool)
        ensures
            r == self.model().armed,
    {
        self.armed
    }

    /// How many chunks of kernel state remain unsent.
    pub fn state_chunks_left(&self) -> (r: usize)
        ensures
            r == self.model().chunks_left,
    {
        self.chunks_left
    }
}

impl HarnessPort for MemPort {
    closed spec fn model(&self) -> PortModel {
        PortModel {
            traps: self.trap_log@,
            command: self.cmd_buf@,
            retvs: self.retv_log@,
            extras: self.extra_log@,
            chunks_left: self.chunks_left as nat,
            armed: self.armed,
            sends: self.send_count@,
            finishes: self.finish_count@,
        }
    }

    fn signal(&mut self, trap: TrapKind) {
        self.trap_log.push(trap);
    }

    fn receive_command(&self) -> (cmd: &[u8]) {
        self.cmd_buf.as_slice()
    }

    fn send_retv(&mut self, retv: isize)
        ensures
            final(self).spec_retv_slot() == retv_to_bytes(retv),
            final(self).spec_extra_slot() == old(self).spec_extra_slot(),
    {
        self.retv_buf = encode_retv(retv);
        self.retv_log = Ghost(self.retv_log@.push(retv));
    }

    fn send_extra_data(&mut self, data: &[u8])
        ensures
            final(self).spec_extra_slot() == data@,
            final(self).spec_retv_slot() == old(self).spec_retv_slot(),
    {
        self.output_buf = slice_to_vec(data);
        self.extra_log = Ghost(self.extra_log@.push(data@));
    }

    fn start_state_sending(&mut self) {
        self.armed = true;
    }

    fn send_state_data(&mut self) -> (done: bool) {
        if self.chunks_left > 0 {
            self.chunks_left = self.chunks_left - 1;
        }
        self.send_count = Ghost(self.send_count@ + 1);
        self.chunks_left == 0
    }

    fn finish_state_sending(&mut self) {
        self.armed = false;
        self.finish_count = Ghost(self.finish_count@ + 1);
    }
}

} // verus!
