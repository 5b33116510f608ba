//! What travels beside a payload: its encoding, a timestamp, its source.

use vstd::prelude::*;

use crate::bytes::copy_bytes;
use crate::handle::take;
use crate::handle::Moved;
use crate::handle::Owned;

verus! {

/// An encoding as the wire has it: the content type's number with a low bit that
/// tells whether a schema follows, and the schema.
pub struct EncodingHint {
    pub packed_id: u32,
    pub schema: Option<Vec<u8>>,
}

/// An owned encoding.
pub type z_owned_encoding_t = Owned<EncodingHint>;

/// An encoding on its way to be consumed.
pub type z_moved_encoding_t = Moved<EncodingHint>;

/// A timestamp: when, and by whose clock.
#[derive(Clone, Copy, Debug, PartialEq, Eq)]
pub struct z_timestamp_t {
    pub time: u64,
    pub id: [u8; 16],
}

/// Where a value comes from: a node, an entity on it, and the entity's count.
#[derive(Clone, Copy, Debug, PartialEq, Eq)]
pub struct z_source_info_t {
    pub zid: [u8; 16],
    pub eid: u32,
    pub sn: u32,
}

/// The identity of a node.
#[derive(Clone, Copy, Debug, PartialEq, Eq)]
pub struct z_id_t {
    pub id: [u8; 16],
}

impl z_id_t {
    /// Whether this is the identity of no node.
    pub open spec fn is_empty(self) -> bool {
        forall|i: int| 0 <= i < 16 ==> #[trigger] self.id@[i] == 0
    }

    /// The identity of no node.
    pub fn empty() -> (zid: z_id_t)
        ensures
            zid.is_empty(),
    {
        z_id_t { id: [0;16] }
    }
}

/// The identity of an entity: the node it is on, and which of the node's it is.
#[derive(Clone, Copy, Debug, PartialEq, Eq)]
pub struct z_entity_global_id_t {
    pub zid: z_id_t,
    pub eid: u32,
}

impl z_entity_global_id_t {
    /// Whether this is the identity of no entity.
    pub open spec fn is_empty(self) -> bool {
        self.zid.is_empty() && self.eid == 0
    }

    /// The identity of no entity.
    pub fn empty() -> (id: z_entity_global_id_t)
        ensures
            id.is_empty(),
    {
        z_entity_global_id_t { zid: z_id_t::empty(), eid: 0 }
    }
}

/// The bytes of an optional run.
pub open spec fn run_of(bytes: Option<Vec<u8>>) -> Option<Seq<u8>> {
    match bytes {
        Some(bytes) => Some(bytes@),
        None => None,
    }
}

impl EncodingHint {
    /// Whether two encodings say the same.
    pub open spec fn same_as(&self, other: &EncodingHint) -> bool {
        &&& self.packed_id == other.packed_id
        &&& run_of(self.schema) == run_of(other.schema)
    }

    /// Whether this is the encoding of a value that was given none: plain bytes.
    pub open spec fn is_default(&self) -> bool {
        self.packed_id == 0 && self.schema is None
    }

    /// The encoding of a value that was given none.
    pub fn default_encoding() -> (hint: EncodingHint)
        ensures
            hint.is_default(),
    {
        EncodingHint { packed_id: 0, schema: None }
    }

    /// A copy.
    pub fn deep_copy(&self) -> (copy: EncodingHint)
        ensures
            copy.same_as(self),
    {
        EncodingHint {
            packed_id: self.packed_id,
            schema: match &self.schema {
                Some(schema) => Some(copy_bytes(schema)),
                None => None,
            },
        }
    }
}

/// Whether two optional encodings say the same.
pub open spec fn same_hint(a: Option<EncodingHint>, b: Option<EncodingHint>) -> bool {
    match (a, b) {
        (Some(a), Some(b)) => a.same_as(&b),
        (None, None) => true,
        _ => false,
    }
}

/// A copy of an optional encoding.
pub fn copy_hint(hint: &Option<EncodingHint>) -> (copy: Option<EncodingHint>)
    ensures
        same_hint(copy, *hint),
{
    match hint {
        Some(hint) => Some(hint.deep_copy()),
        None => None,
    }
}

/// A copy of an optional run.
pub fn copy_run(run: &Option<Vec<u8>>) -> (copy: Option<Vec<u8>>)
    ensures
        run_of(copy) == run_of(*run),
{
    match run {
        Some(run) => Some(copy_bytes(run)),
        None => None,
    }
}

/// Consumes a moved encoding: takes it and leaves the gravestone.
pub fn take_moved_encoding(moved: &mut z_moved_encoding_t) -> (hint: Option<EncodingHint>)
    ensures
        hint == old(moved)._this.state,
        final(moved)._this.state is None,
{
    take(Some(moved))
}

/// Reads a moved encoding without consuming it.
pub fn moved_encoding_hint(moved: &z_moved_encoding_t) -> (hint: Option<EncodingHint>)
    ensures
        same_hint(hint, moved._this.state),
{
    copy_hint(&moved._this.state)
}

} // verus!
