//! A small built-in command catalog. `EchoCommand` returns the word its
//! payload carries and writes no extra output; `StoreCommand` writes that
//! word into the extra-output region, the way a call that fills a
//! caller-provided struct would.

use crate::codec::{decode_retv, encode_retv, retv_from_bytes, retv_to_bytes, WORD_BYTES};
use crate::command::Command;
use vstd::prelude::*;
use vstd::slice::slice_subrange;

verus! {

/// The registry identifier of `EchoCommand`.
pub const ECHO_ID: usize = 0;

/// The registry identifier of `StoreCommand`.
pub const STORE_ID: usize = 1;

/// A command whose payload is one signed little-endian word; executing it
/// returns that word unchanged and leaves the extra-output region untouched.
pub struct EchoCommand {
    /// The word the payload carried.
    pub value: isize,
}

impl Command for EchoCommand {
    open spec fn spec_id() -> usize {
        ECHO_ID
    }

    open spec fn valid_payload(payload: Seq<u8>) -> bool {
        payload.len() >= WORD_BYTES
    }

    open spec fn decoded(payload: Seq<u8>) -> Self {
        EchoCommand { value: retv_from_bytes(payload.subrange(0, WORD_BYTES as int)) }
    }

    open spec fn ret_model(self, out: Seq<u8>) -> isize {
        self.value
    }

    open spec fn out_model(self, out: Seq<u8>) -> Seq<u8> {
        out
    }

    open spec fn output_needed() -> nat {
        0
    }

    proof fn lemma_out_model_len(self, out: Seq<u8>) {
    }

    fn id() -> (r: usize) {
        ECHO_ID
    }

    fn from_bytes(payload: &[u8]) -> (r: Option<Self>) {
        if payload.len() < WORD_BYTES {
            None
        } else {
            let head = slice_subrange(payload, 0, WORD_BYTES);
            Some(EchoCommand { value: decode_retv(head) })
        }
    }

    fn execute(&self, output: &mut Vec<u8>) -> (r: isize) {
        self.value
    }
}

/// A command whose payload is one signed little-endian word; executing it
/// writes that word's encoding into the first `WORD_BYTES` bytes of the
/// extra-output region and returns how many bytes it wrote.
pub struct StoreCommand {
    /// The word to write out.
    pub value: isize,
}

impl Command for StoreCommand {
    open spec fn spec_id() -> usize {
        STORE_ID
    }

    open spec fn valid_payload(payload: Seq<u8>) -> bool {
        payload.len() >= WORD_BYTES
    }

    open spec fn decoded(payload: Seq<u8>) -> Self {
        StoreCommand { value: retv_from_bytes(payload.subrange(0, WORD_BYTES as int)) }
    }

    open spec fn ret_model(self, out: Seq<u8>) -> isize {
        WORD_BYTES as isize
    }

    open spec fn out_model(self, out: Seq<u8>) -> Seq<u8> {
        retv_to_bytes(self.value) + out.skip(WORD_BYTES as int)
    }

    open spec fn output_needed() -> nat {
        WORD_BYTES as nat
    }

    proof fn lemma_out_model_len(self, out: Seq<u8>) {
        vstd::bytes::lemma_auto_spec_u64_to_from_le_bytes();
    }

    fn id() -> (r: usize) {
        STORE_ID
    }

    fn from_bytes(payload: &[u8]) -> (r: Option<Self>) {
        if payload.len() < WORD_BYTES {
            None
        } else {
            let head = slice_subrange(payload, 0, WORD_BYTES);
            Some(StoreCommand { value: decode_retv(head) })
        }
    }

    fn execute(&self, output: &mut Vec<u8>) -> (r: isize) {
        let ghost orig = output@;
        let bytes = encode_retv(self.value);
        let mut i: usize = 0;
        while i < WORD_BYTES
            invariant
                i <= WORD_BYTES,
                bytes@ == retv_to_bytes(self.value),
                bytes@.len() == WORD_BYTES,
                output@.len() == orig.len(),
                orig.len() >= WORD_BYTES,
                forall|j: int| 0 <= j < i ==> output@[j] == bytes@[j],
                forall|j: int| i <= j < orig.len() ==> output@[j] == orig[j],
            decreases WORD_BYTES - i,
        {
            let b = bytes[i];
            output[i] = b;
            i = i + 1;
        }
        proof {
            assert(output@ =~= self.out_model(orig));
        }
        WORD_BYTES as isize
    }
}

} // verus!
