//! The exporter: draws a fixed number of random 32-bit values, builds the
//! two producer-owned allocations (the value buffer and the two-slot
//! buffer-pointer array), and populates a caller-owned descriptor in place,
//! installing the release hook last.

use rand::Rng;
use vstd::prelude::*;

use crate::descriptor::ArrowArray;
use crate::descriptor::BufferSlot;
use crate::descriptor::ReleaseHook;

verus! {

/// Number of values one export produces: the configured element count.
pub const EXPORT_LENGTH: usize = 1000;

#[verifier::external_type_specification]
#[verifier::external_body]
pub struct ExThreadRng(rand::rngs::ThreadRng);

/// Relies on `rand::thread_rng`: a handle to the thread-local random
/// generator. Nothing is promised of it; the values it yields are pinned
/// down, as far as chance allows, where they are drawn.
#[verifier::external_body]
fn fresh_rng() -> rand::rngs::ThreadRng {
    rand::thread_rng()
}

/// Relies on `rand::distributions::Uniform::new` and `rand::Rng::sample`:
/// `Uniform::new(low, high)` is the uniform distribution on the half-open
/// range `[low, high)` and panics when `low >= high` (kept out by
/// `requires`), and `sample` draws one value from that range. Which value
/// comes back is chance; only the range holds of every outcome.
#[verifier::external_body]
fn sample_in_range(rng: &mut rand::rngs::ThreadRng, low: i32, high: i32) -> (r: i32)
    requires
        low < high,
    ensures
        low <= r < high,
{
    rng.sample(rand::distributions::Uniform::new(low, high))
}

/// Draws `size` values from the data source: the uniform generator on the
/// full declared range `[i32::MIN, i32::MAX)`.
pub fn generate_date(size: usize) -> (res: Vec<i32>)
    ensures
        res@.len() == size,
        forall|j: int| 0 <= j < size ==> i32::MIN <= #[trigger] res@[j] < i32::MAX,
{
    let mut rng = fresh_rng();
    let mut res: Vec<i32> = Vec::with_capacity(size);
    let mut i: usize = 0;
    while i < size
        invariant
            i <= size,
            res@.len() == i,
            forall|j: int| 0 <= j < i ==> i32::MIN <= #[trigger] res@[j] < i32::MAX,
        decreases size - i,
    {
        let value = sample_in_range(&mut rng, i32::MIN, i32::MAX);
        res.push(value);
        i += 1;
    }
    res
}

/// Exports a flat, non-nullable array of `EXPORT_LENGTH` random 32-bit
/// values into the caller-owned descriptor `array`, overwriting every
/// field: the scalar header is fixed by the protocol, buffer slot 0 stays
/// null (no validity bitmap), buffer slot 1 points at the freshly drawn
/// value buffer owned through `private_data`, and the release hook is
/// installed last. After the call the descriptor is live and entirely
/// self-contained until its release routine runs.
pub fn export_int32_data(array: &mut ArrowArray)
    ensures
        final(array).is_live_primitive(EXPORT_LENGTH as int),
        forall|j: int|
            0 <= j < EXPORT_LENGTH
                ==> i32::MIN <= #[trigger] final(array).private_data->Some_0@[j] < i32::MAX,
{
    let data = generate_date(EXPORT_LENGTH);

    let mut buffers: Vec<BufferSlot> = Vec::with_capacity(2);
    buffers.push(BufferSlot::Null);
    buffers.push(BufferSlot::Values);

    array.length = EXPORT_LENGTH as i64;
    array.null_count = 0;
    array.offset = 0;
    array.n_buffers = 2;
    array.n_children = 0;
    array.buffers = Some(buffers);
    array.children = None;
    array.dictionary = None;
    array.private_data = Some(data);
    array.release = Some(ReleaseHook);
}

} // verus!
