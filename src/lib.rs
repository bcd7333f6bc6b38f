//! Shared memory between unrelated processes, reached through a "link" file
//! on disk and guarded by a lock that lives inside the shared region.
//!
//! This crate holds the decisions of that protocol: the lifecycle of a
//! handle, the contents of a link file, the layout of the metadata record at
//! the start of a mapping, and which native lock a guard takes. The calls that
//! reserve, map and unmap memory, and the file I/O, are made by the caller
//! with the values these functions hand back.

pub mod error;
pub mod layout;
pub mod link;
pub mod lock;
pub mod memfile;

pub use error::MemFileError;
pub use layout::{data_offset, decode_meta, encode_meta, region_len, NativeSizes, DATA_ALIGN, META_LEN};
pub use link::{check_written, link_contents, parse_link};
pub use lock::{plan_lock, slice_len, Access, LockKind, MemFileCast, NativeLock};
pub use memfile::{MemFile, Teardown};
