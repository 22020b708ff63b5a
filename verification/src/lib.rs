//! Producer side of a columnar-array exchange protocol, modeled after the
//! Arrow C Data Interface: a fixed-layout descriptor that hands a flat,
//! non-nullable vector of 32-bit values to a consumer, together with a
//! release protocol that frees the producer's allocations exactly once.

pub mod codec;
pub mod descriptor;
pub mod export;

pub use codec::ScalarFields;
pub use descriptor::ArrowArray;
pub use descriptor::BufferSlot;
pub use descriptor::ReleaseHook;
pub use descriptor::arrow_array_release;
pub use descriptor::arrow_array_release_nullable;
pub use export::EXPORT_LENGTH;
pub use export::export_int32_data;
pub use export::generate_date;
