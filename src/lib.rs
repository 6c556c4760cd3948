//! A typed overlay for reading structured data out of the address space of
//! another, 32-bit, little-endian process.
//!
//! Addresses are plain `u32` values; typed pointers scale their arithmetic by
//! the layout size of their pointee; reads go through a [`ProcessRead`]
//! collaborator and are decoded by [`PtrReadable`]; the type name of a
//! polymorphic object is recovered from its vftable's metadata chain.

mod address;
mod laws;
mod layout;
mod pointer;
mod process;
mod rtti;

pub use address::{
    address_text, decode_run, hex_digit, nibble, read_outcome, read_run_outcome, wrap32, RawPtr,
};
pub use laws::{
    address_round_trip, cast_round_trip, holds_name, offset_is_scaled, rtti_descriptor_missing,
    render_on_image, rtti_locator_missing, rtti_name_missing, rtti_name_resolves,
};
pub use layout::{le_u16, le_u32, le_u64, twos_complement, PtrReadable};
pub use pointer::{rendering_outcome, Ptr, Rendering};
pub use process::{MemoryError, MemoryImage, ProcessRead};
pub use rtti::{
    ascii_text, is_ascii_bytes, name_outcome, rtti_outcome, Vftable, ADDRESS_SPACE_BYTES,
    RTTI_DESCRIPTOR_OFFSET, RTTI_LOCATOR_OFFSET, RTTI_NAME_OFFSET,
};
