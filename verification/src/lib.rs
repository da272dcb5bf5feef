//! Verified core of a safety layer over a handle-based distributed-filesystem
//! client in the style of `libhdfs`.
//!
//! The native client is a foreign, blocking, handle-based API: every call
//! either succeeds or reports failure through a sentinel value plus the
//! thread-local OS error. This crate holds everything around those calls that
//! can be stated and proved:
//!
//! * translation of sentinel failures into a structured error ([`error`]);
//! * the pool of native-compatible, null-terminated strings whose addresses
//!   must stay stable while the native layer holds them ([`cstr`]);
//! * seek-position arithmetic, with overflow rejected before any native call
//!   ([`seek`]);
//! * clamping of transfer sizes and interpretation of signed transfer results
//!   ([`transfer`]);
//! * marshalling of native directory listings into owned records, and the
//!   disambiguation of the listing and existence sentinels ([`entry`]);
//! * the session lifecycle itself — builder, connection, stream builder and
//!   open file, with single-use consuming operations — run against an
//!   in-memory namespace that gives the native filesystem semantics an
//!   executable, verified form ([`fs`], [`stream`], [`file`], [`builder`],
//!   with the mathematical namespace in [`namespace`] and [`path`]);
//! * the laws that hold of every input — round trips, existence after
//!   creation and deletion, the seek decisions — proved once in [`laws`].
//!
//! An unverified front end may drive the same lifecycle against the real
//! native client; every decision it has to make is a function of this crate.

pub mod builder;
pub mod cstr;
pub mod entry;
pub mod error;
pub mod file;
pub mod fs;
pub mod laws;
pub mod namespace;
pub mod path;
pub mod seek;
pub mod stream;
pub mod transfer;

pub use builder::HdfsBuilder;
pub use entry::HdfsDirectoryEntry;
pub use entry::HdfsDirectoryEntryKind;
pub use error::check_rt;
pub use error::HdfsError;
pub use error::HdfsErrorKind;
pub use file::HdfsFile;
pub use file::OpenMode;
pub use fs::HdfsConnection;
pub use seek::SeekFrom;
pub use stream::HdfsStreamBuilder;
