//! Ownership-transfer layer between a host and a native module that only share
//! flat values. Owned native values live in slot tables on the native side;
//! the host holds integer handles into them, so a stale or repeated handle is
//! detected instead of corrupting memory.
mod document;
mod ffi;
mod heap;
mod memory;
mod native;

pub use ffi::{
    buffer_round_trip, handle_single_use, text_round_trip, IntoFfi, IntoNative, Layout, Slice, Str,
    String, Vec,
};
pub use heap::{Box, Heap};
pub use memory::{
    alloc_release_same_layout, release_mismatched_layout, AllocError, Memory, ReleaseError,
};
pub use document::{
    export_names, import_names, none_name, pe_of, Document, Export, Import, ParseError, QueryError,
};
pub use native::{freed, published, Native};
