//! The array descriptor: a fixed-layout, self-describing record that exposes
//! one array's metadata, its buffers, and its release hook.
//!
//! The wire format this models (the Arrow C Data Interface) carries raw
//! pointers. Here every nullable pointer is an `Option`, and owning a raw
//! allocation is owning the value inside the `Option`: a null pointer is
//! `None`, freeing an allocation is dropping the value and leaving `None`
//! behind. Storage that the protocol forbids the consumer to touch after
//! release is therefore simply gone, which makes the "must not be
//! dereferenced again" clause of the protocol a type-level fact.

use vstd::prelude::*;

verus! {

/// Marker for the installed release routine. A live descriptor carries it in
/// its `release` field as a capability travelling with the data; the consumer
/// runs the routine it names — [`arrow_array_release`] — exactly once, and
/// the routine removes the marker when it is done.
pub struct ReleaseHook;

/// One slot of the descriptor's buffer-pointer array.
pub enum BufferSlot {
    /// A null buffer pointer: no storage stands behind this slot. Slot 0,
    /// the validity bitmap, is always `Null` here, since only non-nullable
    /// arrays are produced.
    Null,
    /// The slot points at the descriptor's own primitive-value allocation,
    /// the one owned through `private_data`.
    Values,
}

/// The descriptor record. Field order and widths follow the interchange
/// layout: five signed 64-bit scalars, then the buffer array, the child and
/// dictionary links (always null for this producer), the release hook, and
/// the producer's private data.
pub struct ArrowArray {
    /// Count of logical elements.
    pub length: i64,
    /// Count of null elements; always 0, nullability is unsupported.
    pub null_count: i64,
    /// Logical offset into the buffers; always 0.
    pub offset: i64,
    /// Number of buffer slots behind `buffers`.
    pub n_buffers: i64,
    /// Number of child descriptors; always 0.
    pub n_children: i64,
    /// Owned array of buffer pointers, `n_buffers` long while live.
    pub buffers: Option<Vec<BufferSlot>>,
    /// Child descriptors; never produced here.
    pub children: Option<Vec<Box<ArrowArray>>>,
    /// Dictionary descriptor; never produced here.
    pub dictionary: Option<Box<ArrowArray>>,
    /// The release hook: present exactly while the descriptor's resources
    /// are live and producer-owned.
    pub release: Option<ReleaseHook>,
    /// Producer-owned value buffer; the allocation buffer slot 1 points at.
    pub private_data: Option<Vec<i32>>,
}

impl ArrowArray {
    /// A descriptor is live while its release hook is installed.
    pub open spec fn is_live(self) -> bool {
        self.release is Some
    }

    /// The zero value of every field: the state in which the consumer hands
    /// the caller-owned descriptor to the exporter.
    pub open spec fn is_zeroed(self) -> bool {
        &&& self.length == 0
        &&& self.null_count == 0
        &&& self.offset == 0
        &&& self.n_buffers == 0
        &&& self.n_children == 0
        &&& self.buffers is None
        &&& self.children is None
        &&& self.dictionary is None
        &&& self.release is None
        &&& self.private_data is None
    }

    /// Shape of a live descriptor exporting a flat, non-nullable array of
    /// `n` fixed-width values: the scalar fields as the protocol fixes them,
    /// buffer slot 0 null, buffer slot 1 on a value buffer of exactly `n`
    /// elements, no children, no dictionary, and the release hook installed.
    pub open spec fn is_live_primitive(self, n: int) -> bool {
        &&& self.length == n
        &&& self.null_count == 0
        &&& self.offset == 0
        &&& self.n_buffers == 2
        &&& self.n_children == 0
        &&& self.buffers is Some
        &&& self.buffers->Some_0@.len() == 2
        &&& self.buffers->Some_0@[0] is Null
        &&& self.buffers->Some_0@[1] is Values
        &&& self.children is None
        &&& self.dictionary is None
        &&& self.release is Some
        &&& self.private_data is Some
        &&& self.private_data->Some_0@.len() == n
    }

    /// The descriptor after its release routine has run: on a live
    /// descriptor both owned allocations are freed and the hook is removed,
    /// with every scalar field left in place; on an inert descriptor nothing
    /// changes at all.
    pub open spec fn spec_released(self) -> ArrowArray {
        if self.release is Some {
            ArrowArray {
                length: self.length,
                null_count: self.null_count,
                offset: self.offset,
                n_buffers: self.n_buffers,
                n_children: self.n_children,
                buffers: None,
                children: self.children,
                dictionary: self.dictionary,
                release: None,
                private_data: None,
            }
        } else {
            self
        }
    }
}

impl Default for ArrowArray {
    /// The zero-valued descriptor, as the consumer allocates it before
    /// handing it to the exporter.
    fn default() -> (d: ArrowArray)
        ensures
            d.is_zeroed(),
    {
        ArrowArray {
            length: 0,
            null_count: 0,
            offset: 0,
            n_buffers: 0,
            n_children: 0,
            buffers: None,
            children: None,
            dictionary: None,
            release: None,
            private_data: None,
        }
    }
}

/// The release routine a populated descriptor carries. Frees (drops) the
/// buffer-pointer array and the value buffer — each exactly once — and
/// removes the hook, leaving the descriptor inert. On a descriptor whose
/// hook is already gone, or was never installed, it does nothing, so a
/// second call after a first is always a no-op.
pub fn arrow_array_release(array: &mut ArrowArray)
    ensures
        *final(array) == old(array).spec_released(),
{
    if array.release.is_none() {
        return;
    }
    array.buffers = None;
    array.private_data = None;
    array.release = None;
}

/// The release call as a consumer makes it through a possibly-null
/// descriptor pointer: `None` stands for the null pointer and is left
/// untouched, anything else is released in place.
pub fn arrow_array_release_nullable(array: &mut Option<ArrowArray>)
    ensures
        *final(array) == (match *old(array) {
            None => None,
            Some(a) => Some(a.spec_released()),
        }),
{
    match array {
        None => {}
        Some(a) => {
            arrow_array_release(a);
        }
    }
}

/// Releasing is idempotent and terminal: a released descriptor is no longer
/// live, releasing it again changes nothing, and release never touches the
/// scalar fields.
pub proof fn lemma_release_idempotent(a: ArrowArray)
    ensures
        !a.spec_released().is_live(),
        a.spec_released().spec_released() == a.spec_released(),
        a.spec_released().length == a.length,
        a.spec_released().null_count == a.null_count,
        a.spec_released().offset == a.offset,
        a.spec_released().n_buffers == a.n_buffers,
        a.spec_released().n_children == a.n_children,
{
}

} // verus!
