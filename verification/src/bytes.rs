//! Payloads.

use vstd::prelude::*;

use crate::handle::take;
use crate::handle::Moved;
use crate::handle::Owned;

verus! {

/// The bytes behind a payload handle.
pub struct BytesState {
    pub payload: Vec<u8>,
}

impl BytesState {
    /// A payload made of all of `payload`.
    pub fn whole(payload: Vec<u8>) -> (state: BytesState)
        ensures
            state.payload == payload,
    {
        BytesState { payload }
    }
}

/// An owned payload.
pub type z_owned_bytes_t = Owned<BytesState>;

/// A borrowed payload: the same slot.
pub type z_loaned_bytes_t = Owned<BytesState>;

/// A payload on its way to be consumed.
pub type z_moved_bytes_t = Moved<BytesState>;

/// Consumes a moved payload: takes its bytes and leaves the gravestone.
pub fn take_payload(payload: Option<&mut z_moved_bytes_t>) -> (taken: Option<Vec<u8>>)
    ensures
        match payload {
            Some(moved) => {
                &&& final(moved)._this.state is None
                &&& taken == payload_of(moved._this)
            },
            None => taken is None,
        },
{
    match take(payload) {
        Some(state) => Some(state.payload),
        None => None,
    }
}

/// The bytes an owned payload holds.
pub open spec fn payload_of(slot: z_owned_bytes_t) -> Option<Vec<u8>> {
    match slot.state {
        Some(state) => Some(state.payload),
        None => None,
    }
}

/// A copy of `bytes`.
pub fn copy_bytes(bytes: &Vec<u8>) -> (copy: Vec<u8>)
    ensures
        copy@ == bytes@,
{
    copy_slice(bytes.as_slice())
}

/// The bytes of a slice, as a vector.
pub fn copy_slice(bytes: &[u8]) -> (copy: Vec<u8>)
    ensures
        copy@ == bytes@,
{
    let mut copy: Vec<u8> = Vec::new();
    let mut i: usize = 0;
    while i < bytes.len()
        invariant
            i <= bytes@.len(),
            copy@ == bytes@.take(i as int),
        decreases bytes@.len() - i,
    {
        copy.push(bytes[i]);
        i = i + 1;
        assert(copy@ =~= bytes@.take(i as int));
    }
    assert(bytes@.take(i as int) =~= bytes@);
    copy
}

} // verus!
