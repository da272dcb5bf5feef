//! The stream builder: open-time options, and the one build step.
//!
//! A stream builder is made by a connection for one path and direction,
//! accumulates open-time options, and is consumed by exactly one
//! [`HdfsStreamBuilder::build`] call — taking the builder by value, so a
//! built builder cannot be touched again; that single use is enforced by the
//! types, not checked at run time. Options that only make sense for writing
//! are rejected on a read builder instead of being silently ignored.

use vstd::prelude::*;

use crate::error::HdfsError;
use crate::error::HdfsErrorKind;
use crate::file::FileV;
use crate::file::HdfsFile;
use crate::file::OpenMode;
use crate::fs::HdfsConnection;
use crate::namespace::file_node;
use crate::namespace::node_at;
use crate::namespace::sets_node;

verus! {

/// The mathematical image of a stream builder.
pub struct StreamBuilderV {
    pub path: Seq<char>,
    pub mode: OpenMode,
    pub buffer_size: Option<i32>,
    pub block_size: Option<i64>,
    pub replication: Option<i16>,
}

/// Builder for opening one file, allowing open-time options to be set.
pub struct HdfsStreamBuilder {
    path: String,
    mode: OpenMode,
    buffer_size: Option<i32>,
    block_size: Option<i64>,
    replication: Option<i16>,
}

impl View for HdfsStreamBuilder {
    type V = StreamBuilderV;

    closed spec fn view(&self) -> StreamBuilderV {
        StreamBuilderV {
            path: self.path@,
            mode: self.mode,
            buffer_size: self.buffer_size,
            block_size: self.block_size,
            replication: self.replication,
        }
    }
}

/// The replication factor a builder's options ask for; unset means the
/// native default, recorded as zero.
pub open spec fn replication_of(v: StreamBuilderV) -> u16 {
    match v.replication {
        Some(r) => r as u16,
        None => 0,
    }
}

/// The block size a builder's options ask for; unset means the native
/// default, recorded as zero.
pub open spec fn block_size_of(v: StreamBuilderV) -> u64 {
    match v.block_size {
        Some(b) => b as u64,
        None => 0,
    }
}

impl HdfsStreamBuilder {
    /// Sets the client-side buffer size.
    pub fn buffer_size(&mut self, size: i32) -> (r: Result<(), HdfsError>)
        ensures
            r is Ok,
            final(self)@ == (StreamBuilderV { buffer_size: Some(size), ..old(self)@ }),
    {
        self.buffer_size = Some(size);
        Ok(())
    }

    /// Sets the default block size for writing the file. A read stream has
    /// no use for it, so setting it there is an error, not silence.
    pub fn default_block_size(&mut self, size: i64) -> (r: Result<(), HdfsError>)
        ensures
            old(self)@.mode == OpenMode::Read ==> r is Err && r->Err_0.kind
                == HdfsErrorKind::InvalidInput && final(self)@ == old(self)@,
            old(self)@.mode != OpenMode::Read ==> r is Ok && final(self)@ == (StreamBuilderV {
                block_size: Some(size),
                ..old(self)@
            }),
    {
        match self.mode {
            OpenMode::Read => Err(
                HdfsError::invalid_input(
                    "a block size applies only to streams opened for writing".to_owned(),
                ),
            ),
            _ => {
                self.block_size = Some(size);
                Ok(())
            },
        }
    }

    /// Sets the replication factor for writing the file. A read stream has
    /// no use for it, so setting it there is an error, not silence.
    pub fn replication(&mut self, repl: i16) -> (r: Result<(), HdfsError>)
        ensures
            old(self)@.mode == OpenMode::Read ==> r is Err && r->Err_0.kind
                == HdfsErrorKind::InvalidInput && final(self)@ == old(self)@,
            old(self)@.mode != OpenMode::Read ==> r is Ok && final(self)@ == (StreamBuilderV {
                replication: Some(repl),
                ..old(self)@
            }),
    {
        match self.mode {
            OpenMode::Read => Err(
                HdfsError::invalid_input(
                    "a replication factor applies only to streams opened for writing".to_owned(),
                ),
            ),
            _ => {
                self.replication = Some(repl);
                Ok(())
            },
        }
    }

    /// Builds the stream, opening the file in the given session. This
    /// consumes the builder — it cannot be built twice. Reading takes a
    /// snapshot of the file's content; writing registers an empty file,
    /// replacing one already there; appending starts from the existing
    /// content.
    pub fn build(self, fs: &mut HdfsConnection) -> (r: Result<HdfsFile, HdfsError>)
        requires
            old(fs).inv(),
        ensures
            final(fs).inv(),
            final(fs).spec_user() == old(fs).spec_user(),
            r is Ok ==> r->Ok_0.inv(),
            match self@.mode {
                OpenMode::Read => final(fs)@ == old(fs)@ && (match node_at(old(fs)@, self@.path) {
                    None => r is Err && r->Err_0.kind == HdfsErrorKind::NotFound,
                    Some(n) => if n.is_dir {
                        r is Err && r->Err_0.kind == HdfsErrorKind::Other
                    } else {
                        r is Ok && r->Ok_0@ == (FileV {
                            path: self@.path,
                            mode: OpenMode::Read,
                            pos: 0,
                            data: n.content,
                        })
                    },
                }),
                OpenMode::Write => match node_at(old(fs)@, self@.path) {
                    Some(n) => if n.is_dir {
                        r is Err && r->Err_0.kind == HdfsErrorKind::Other && final(fs)@ == old(fs)@
                    } else {
                        r is Ok && sets_node(
                            old(fs)@,
                            final(fs)@,
                            self@.path,
                            file_node(
                                self@.path,
                                Seq::<u8>::empty(),
                                old(fs).spec_user(),
                                replication_of(self@),
                                block_size_of(self@),
                            ),
                        ) && r->Ok_0@ == (FileV {
                            path: self@.path,
                            mode: OpenMode::Write,
                            pos: 0,
                            data: Seq::<u8>::empty(),
                        })
                    },
                    None => r is Ok && sets_node(
                        old(fs)@,
                        final(fs)@,
                        self@.path,
                        file_node(
                            self@.path,
                            Seq::<u8>::empty(),
                            old(fs).spec_user(),
                            replication_of(self@),
                            block_size_of(self@),
                        ),
                    ) && r->Ok_0@ == (FileV {
                        path: self@.path,
                        mode: OpenMode::Write,
                        pos: 0,
                        data: Seq::<u8>::empty(),
                    }),
                },
                OpenMode::Append => final(fs)@ == old(fs)@ && (match node_at(old(fs)@, self@.path) {
                    None => r is Err && r->Err_0.kind == HdfsErrorKind::NotFound,
                    Some(n) => if n.is_dir {
                        r is Err && r->Err_0.kind == HdfsErrorKind::Other
                    } else {
                        r is Ok && r->Ok_0@ == (FileV {
                            path: self@.path,
                            mode: OpenMode::Append,
                            pos: 0,
                            data: n.content,
                        })
                    },
                }),
            },
    {
        match self.mode {
            OpenMode::Read => {
                let data = fs.file_content(&self.path)?;
                Ok(HdfsFile::new_handle(self.path, OpenMode::Read, data))
            },
            OpenMode::Write => {
                let repl: u16 = match self.replication {
                    Some(r) => #[verifier::truncate] (r as u16),
                    None => 0,
                };
                let bs: u64 = match self.block_size {
                    Some(b) => #[verifier::truncate] (b as u64),
                    None => 0,
                };
                fs.create_file(&self.path, repl, bs)?;
                Ok(HdfsFile::new_handle(self.path, OpenMode::Write, Vec::new()))
            },
            OpenMode::Append => {
                let data = fs.file_content(&self.path)?;
                Ok(HdfsFile::new_handle(self.path, OpenMode::Append, data))
            },
        }
    }
}

impl HdfsConnection {
    /// A stream builder for `path` in the given direction.
    fn stream_builder(&self, path: &str, mode: OpenMode) -> (r: HdfsStreamBuilder)
        ensures
            r@ == (StreamBuilderV {
                path: path@,
                mode,
                buffer_size: None,
                block_size: None,
                replication: None,
            }),
    {
        HdfsStreamBuilder {
            path: path.to_owned(),
            mode,
            buffer_size: None,
            block_size: None,
            replication: None,
        }
    }

    /// A stream builder for opening `path` for reading.
    pub fn open_read_builder(&self, path: &str) -> (r: Result<HdfsStreamBuilder, HdfsError>)
        ensures
            r is Ok,
            r->Ok_0@ == (StreamBuilderV {
                path: path@,
                mode: OpenMode::Read,
                buffer_size: None,
                block_size: None,
                replication: None,
            }),
    {
        Ok(self.stream_builder(path, OpenMode::Read))
    }

    /// A stream builder for opening `path` for writing, creating the file
    /// or replacing its content.
    pub fn open_create_builder(&self, path: &str) -> (r: Result<HdfsStreamBuilder, HdfsError>)
        ensures
            r is Ok,
            r->Ok_0@ == (StreamBuilderV {
                path: path@,
                mode: OpenMode::Write,
                buffer_size: None,
                block_size: None,
                replication: None,
            }),
    {
        Ok(self.stream_builder(path, OpenMode::Write))
    }

    /// A stream builder for opening `path` for appending.
    pub fn open_append_builder(&self, path: &str) -> (r: Result<HdfsStreamBuilder, HdfsError>)
        ensures
            r is Ok,
            r->Ok_0@ == (StreamBuilderV {
                path: path@,
                mode: OpenMode::Append,
                buffer_size: None,
                block_size: None,
                replication: None,
            }),
    {
        Ok(self.stream_builder(path, OpenMode::Append))
    }

    /// Opens `path` for reading with the default options.
    pub fn open_read(&mut self, path: &str) -> (r: Result<HdfsFile, HdfsError>)
        requires
            old(self).inv(),
        ensures
            final(self).inv(),
            final(self)@ == old(self)@,
            final(self).spec_user() == old(self).spec_user(),
            match node_at(old(self)@, path@) {
                None => r is Err && r->Err_0.kind == HdfsErrorKind::NotFound,
                Some(n) => if n.is_dir {
                    r is Err && r->Err_0.kind == HdfsErrorKind::Other
                } else {
                    r is Ok && r->Ok_0.inv() && r->Ok_0@ == (FileV {
                        path: path@,
                        mode: OpenMode::Read,
                        pos: 0,
                        data: n.content,
                    })
                },
            },
    {
        let b = self.open_read_builder(path)?;
        b.build(self)
    }

    /// Opens `path` for writing with the default options, creating the file
    /// or replacing its content.
    pub fn open_create(&mut self, path: &str) -> (r: Result<HdfsFile, HdfsError>)
        requires
            old(self).inv(),
        ensures
            final(self).inv(),
            final(self).spec_user() == old(self).spec_user(),
            match node_at(old(self)@, path@) {
                Some(n) => if n.is_dir {
                    r is Err && r->Err_0.kind == HdfsErrorKind::Other && final(self)@ == old(self)@
                } else {
                    r is Ok && r->Ok_0.inv() && sets_node(
                        old(self)@,
                        final(self)@,
                        path@,
                        file_node(path@, Seq::<u8>::empty(), old(self).spec_user(), 0, 0),
                    ) && r->Ok_0@ == (FileV {
                        path: path@,
                        mode: OpenMode::Write,
                        pos: 0,
                        data: Seq::<u8>::empty(),
                    })
                },
                None => r is Ok && r->Ok_0.inv() && sets_node(
                    old(self)@,
                    final(self)@,
                    path@,
                    file_node(path@, Seq::<u8>::empty(), old(self).spec_user(), 0, 0),
                ) && r->Ok_0@ == (FileV {
                    path: path@,
                    mode: OpenMode::Write,
                    pos: 0,
                    data: Seq::<u8>::empty(),
                }),
            },
    {
        let b = self.open_create_builder(path)?;
        b.build(self)
    }

    /// Opens `path` for appending with the default options.
    pub fn open_append(&mut self, path: &str) -> (r: Result<HdfsFile, HdfsError>)
        requires
            old(self).inv(),
        ensures
            final(self).inv(),
            final(self)@ == old(self)@,
            final(self).spec_user() == old(self).spec_user(),
            match node_at(old(self)@, path@) {
                None => r is Err && r->Err_0.kind == HdfsErrorKind::NotFound,
                Some(n) => if n.is_dir {
                    r is Err && r->Err_0.kind == HdfsErrorKind::Other
                } else {
                    r is Ok && r->Ok_0.inv() && r->Ok_0@ == (FileV {
                        path: path@,
                        mode: OpenMode::Append,
                        pos: 0,
                        data: n.content,
                    })
                },
            },
    {
        let b = self.open_append_builder(path)?;
        b.build(self)
    }
}

} // verus!
