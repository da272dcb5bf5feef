//! An open file handle.
//!
//! A file is produced by a stream builder and works against the session it
//! was opened in. A read handle carries a snapshot of the file's content as
//! of opening and a position within it; a write or append handle accumulates
//! content and makes it visible in the namespace on flush, sync or close —
//! the way a distributed filesystem client buffers written data until it is
//! pushed. Closing is the one consuming operation; afterwards the handle is
//! gone and cannot touch the session again.
//!
//! Seeking follows the native layer's limits: only absolute and
//! current-relative addressing, resolved and overflow-checked by
//! [`crate::seek`] before anything else, and only read handles can move.

use vstd::prelude::*;
use vstd::pervasive::VecAdditionalExecFns;

use crate::error::HdfsError;
use crate::error::HdfsErrorKind;
use crate::fs::HdfsConnection;
use crate::namespace::node_at;
use crate::namespace::sets_node;
use crate::namespace::with_content;
use crate::seek::seek_plan;
use crate::seek::resolve_seek;
use crate::seek::SeekFrom;
use crate::seek::SeekPlan;
use crate::transfer::clamp_transfer_len;
use crate::transfer::MAX_TRANSFER;

verus! {

/// The direction a stream was opened in.
#[derive(Clone, Copy, PartialEq, Eq, Structural, Debug)]
pub enum OpenMode {
    /// Reading an existing file.
    Read,
    /// Writing a file, creating it or replacing its content.
    Write,
    /// Appending to an existing file.
    Append,
}

/// The mathematical image of an open file handle.
pub struct FileV {
    pub path: Seq<char>,
    pub mode: OpenMode,
    pub pos: int,
    pub data: Seq<u8>,
}

/// An open file, scoped to the session that opened it.
#[derive(Debug)]
pub struct HdfsFile {
    path: String,
    mode: OpenMode,
    pos: usize,
    data: Vec<u8>,
}

impl View for HdfsFile {
    type V = FileV;

    closed spec fn view(&self) -> FileV {
        FileV { path: self.path@, mode: self.mode, pos: self.pos as int, data: self.data@ }
    }
}

/// The position the stream reports: the read position of a read handle, the
/// bytes accumulated so far on a write or append handle.
pub open spec fn spec_tell(f: FileV) -> int {
    match f.mode {
        OpenMode::Read => f.pos,
        _ => f.data.len() as int,
    }
}

impl HdfsFile {
    /// Well-formedness: a read position stays within the snapshot; a write
    /// handle has no read position.
    pub open spec fn inv(&self) -> bool {
        match self@.mode {
            OpenMode::Read => 0 <= self@.pos <= self@.data.len(),
            _ => self@.pos == 0,
        }
    }

    /// A fresh handle.
    pub(crate) fn new_handle(path: String, mode: OpenMode, data: Vec<u8>) -> (r: HdfsFile)
        ensures
            r.inv(),
            r@ == (FileV { path: path@, mode, pos: 0, data: data@ }),
    {
        HdfsFile { path, mode, pos: 0, data }
    }

    /// Reads into the front of `buf`, returning how many bytes were read:
    /// the request is clamped to one native transfer, the count may be less
    /// than requested, and zero at end of stream is not an error. Only read
    /// handles can read.
    #[verifier::loop_isolation(false)]
    pub fn read(&mut self, buf: &mut Vec<u8>) -> (r: Result<usize, HdfsError>)
        requires
            old(self).inv(),
        ensures
            final(self).inv(),
            match old(self)@.mode {
                OpenMode::Read => ({
                    let cap = if old(buf)@.len() <= MAX_TRANSFER {
                        old(buf)@.len() as int
                    } else {
                        MAX_TRANSFER as int
                    };
                    let avail = old(self)@.data.len() - old(self)@.pos;
                    let m = if cap <= avail {
                        cap
                    } else {
                        avail
                    };
                    &&& r is Ok
                    &&& r->Ok_0 == m
                    &&& final(buf)@.len() == old(buf)@.len()
                    &&& forall|k: int| 0 <= k < m ==> final(buf)@[k] == old(self)@.data[old(
                        self,
                    )@.pos + k]
                    &&& forall|k: int|
                        m <= k < old(buf)@.len() ==> final(buf)@[k] == old(buf)@[k]
                    &&& final(self)@ == (FileV { pos: old(self)@.pos + m, ..old(self)@ })
                }),
                _ => {
                    &&& r is Err
                    &&& r->Err_0.kind == HdfsErrorKind::Other
                    &&& final(self)@ == old(self)@
                    &&& final(buf)@ == old(buf)@
                },
            },
    {
        match self.mode {
            OpenMode::Read => {
                let want = clamp_transfer_len(buf.len()) as usize;
                let avail = self.data.len() - self.pos;
                let m = if want <= avail {
                    want
                } else {
                    avail
                };
                let mut k: usize = 0;
                while k < m
                    invariant
                        k <= m,
                        buf@.len() == old(buf)@.len(),
                        forall|t: int| 0 <= t < k ==> buf@[t] == self@.data[self@.pos + t],
                        forall|t: int| k <= t < buf@.len() ==> buf@[t] == old(buf)@[t],
                    decreases m - k,
                {
                    buf.set(k, self.data[self.pos + k]);
                    k += 1;
                }
                self.pos = self.pos + m;
                Ok(m)
            },
            _ => Err(HdfsError::other("stream is not open for reading".to_owned())),
        }
    }

    /// Reads everything from the current position to the end of the
    /// snapshot, leaving the position at the end.
    #[verifier::loop_isolation(false)]
    pub fn read_to_end(&mut self) -> (r: Result<Vec<u8>, HdfsError>)
        requires
            old(self).inv(),
        ensures
            final(self).inv(),
            match old(self)@.mode {
                OpenMode::Read => {
                    &&& r is Ok
                    &&& r->Ok_0@ == old(self)@.data.subrange(
                        old(self)@.pos,
                        old(self)@.data.len() as int,
                    )
                    &&& final(self)@ == (FileV {
                        pos: old(self)@.data.len() as int,
                        ..old(self)@
                    })
                },
                _ => {
                    &&& r is Err
                    &&& r->Err_0.kind == HdfsErrorKind::Other
                    &&& final(self)@ == old(self)@
                },
            },
    {
        match self.mode {
            OpenMode::Read => {
                let mut out: Vec<u8> = Vec::new();
                let n = self.data.len();
                let mut k: usize = self.pos;
                while k < n
                    invariant
                        self@.pos <= k <= n,
                        out@ == self@.data.subrange(self@.pos, k as int),
                    decreases n - k,
                {
                    out.push(self.data[k]);
                    k += 1;
                    proof {
                        assert(out@ =~= self@.data.subrange(self@.pos, k as int));
                    }
                }
                self.pos = n;
                Ok(out)
            },
            _ => Err(HdfsError::other("stream is not open for reading".to_owned())),
        }
    }

    /// Appends the front of `buf` to the handle's accumulated content,
    /// returning how many bytes were taken: the request is clamped to one
    /// native transfer. Only write and append handles can write.
    #[verifier::loop_isolation(false)]
    pub fn write(&mut self, buf: &Vec<u8>) -> (r: Result<usize, HdfsError>)
        requires
            old(self).inv(),
        ensures
            final(self).inv(),
            match old(self)@.mode {
                OpenMode::Read => {
                    &&& r is Err
                    &&& r->Err_0.kind == HdfsErrorKind::Other
                    &&& final(self)@ == old(self)@
                },
                _ => ({
                    let m = if buf@.len() <= MAX_TRANSFER {
                        buf@.len() as int
                    } else {
                        MAX_TRANSFER as int
                    };
                    &&& r is Ok
                    &&& r->Ok_0 == m
                    &&& final(self)@ == (FileV {
                        data: old(self)@.data + buf@.subrange(0, m),
                        ..old(self)@
                    })
                }),
            },
    {
        match self.mode {
            OpenMode::Read => Err(HdfsError::other("stream is not open for writing".to_owned())),
            _ => {
                let m = clamp_transfer_len(buf.len()) as usize;
                let mut k: usize = 0;
                while k < m
                    invariant
                        k <= m,
                        self@.data == old(self)@.data + buf@.subrange(0, k as int),
                        self@.path == old(self)@.path,
                        self@.mode == old(self)@.mode,
                        self@.pos == old(self)@.pos,
                    decreases m - k,
                {
                    self.data.push(buf[k]);
                    k += 1;
                    proof {
                        assert(self@.data =~= old(self)@.data + buf@.subrange(0, k as int));
                    }
                }
                Ok(m)
            },
        }
    }

    /// Resolves and applies a seek, returning the resulting absolute
    /// position. A current-relative move of zero only reports the position;
    /// overflow and end-relative addressing are rejected before anything
    /// else; only read handles can move, and only within the snapshot.
    pub fn seek(&mut self, from: SeekFrom) -> (r: Result<u64, HdfsError>)
        requires
            old(self).inv(),
        ensures
            final(self).inv(),
            spec_tell(old(self)@) > i64::MAX ==> r is Err && r->Err_0.kind == HdfsErrorKind::Other
                && final(self)@ == old(self)@,
            spec_tell(old(self)@) <= i64::MAX ==> match seek_plan(
                from,
                spec_tell(old(self)@) as i64,
            ) {
                SeekPlan::Tell => r == Result::<u64, HdfsError>::Ok(spec_tell(old(self)@) as u64)
                    && final(self)@ == old(self)@,
                SeekPlan::MoveTo(t) => if old(self)@.mode != OpenMode::Read {
                    r is Err && r->Err_0.kind == HdfsErrorKind::Other && final(self)@ == old(self)@
                } else if 0 <= t <= old(self)@.data.len() {
                    r == Result::<u64, HdfsError>::Ok(t as u64) && final(self)@ == (FileV {
                        pos: t as int,
                        ..old(self)@
                    })
                } else {
                    r is Err && r->Err_0.kind == HdfsErrorKind::Other && final(self)@ == old(self)@
                },
                SeekPlan::RejectOverflow => r is Err && r->Err_0.kind
                    == HdfsErrorKind::InvalidInput && final(self)@ == old(self)@,
                SeekPlan::RejectUnsupported => r is Err && r->Err_0.kind
                    == HdfsErrorKind::Unsupported && final(self)@ == old(self)@,
            },
    {
        let cur_usize = match self.mode {
            OpenMode::Read => self.pos,
            _ => self.data.len(),
        };
        if cur_usize as u64 > i64::MAX as u64 {
            return Err(HdfsError::other("stream position is not representable".to_owned()));
        }
        let cur = cur_usize as i64;
        match resolve_seek(from, cur) {
            SeekPlan::Tell => Ok(cur_usize as u64),
            SeekPlan::MoveTo(t) => {
                match self.mode {
                    OpenMode::Read => {
                        if t < 0 {
                            Err(HdfsError::other("cannot seek before the start".to_owned()))
                        } else if t as u64 > self.data.len() as u64 {
                            Err(HdfsError::other("cannot seek beyond the end".to_owned()))
                        } else {
                            self.pos = t as usize;
                            Ok(t as u64)
                        }
                    },
                    _ => Err(HdfsError::other("stream is not open for reading".to_owned())),
                }
            },
            SeekPlan::RejectOverflow => Err(
                HdfsError::invalid_input("seek offset overflow".to_owned()),
            ),
            SeekPlan::RejectUnsupported => Err(
                HdfsError::unsupported("seeking relative to the end is not offered".to_owned()),
            ),
        }
    }

    /// Makes a write or append handle's accumulated content visible in the
    /// session's namespace. A read handle has nothing to push.
    pub fn flush(&mut self, fs: &mut HdfsConnection) -> (r: Result<(), HdfsError>)
        requires
            old(self).inv(),
            old(fs).inv(),
        ensures
            final(self).inv(),
            final(fs).inv(),
            final(self)@ == old(self)@,
            final(fs).spec_user() == old(fs).spec_user(),
            match old(self)@.mode {
                OpenMode::Read => r is Err && r->Err_0.kind == HdfsErrorKind::Other && final(fs)@
                    == old(fs)@,
                _ => match node_at(old(fs)@, old(self)@.path) {
                    None => r is Err && r->Err_0.kind == HdfsErrorKind::NotFound && final(fs)@
                        == old(fs)@,
                    Some(n) => if n.is_dir {
                        r is Err && r->Err_0.kind == HdfsErrorKind::Other && final(fs)@ == old(fs)@
                    } else {
                        r is Ok && sets_node(
                            old(fs)@,
                            final(fs)@,
                            old(self)@.path,
                            with_content(n, old(self)@.data),
                        )
                    },
                },
            },
    {
        match self.mode {
            OpenMode::Read => Err(HdfsError::other("stream is not open for writing".to_owned())),
            _ => fs.update_content(&self.path, &self.data),
        }
    }

    /// Like [`HdfsFile::flush`], and waits until the data is durable; the
    /// in-memory namespace makes data durable the moment it is visible.
    pub fn sync(&mut self, fs: &mut HdfsConnection) -> (r: Result<(), HdfsError>)
        requires
            old(self).inv(),
            old(fs).inv(),
        ensures
            final(self).inv(),
            final(fs).inv(),
            final(self)@ == old(self)@,
            final(fs).spec_user() == old(fs).spec_user(),
            match old(self)@.mode {
                OpenMode::Read => r is Err && r->Err_0.kind == HdfsErrorKind::Other && final(fs)@
                    == old(fs)@,
                _ => match node_at(old(fs)@, old(self)@.path) {
                    None => r is Err && r->Err_0.kind == HdfsErrorKind::NotFound && final(fs)@
                        == old(fs)@,
                    Some(n) => if n.is_dir {
                        r is Err && r->Err_0.kind == HdfsErrorKind::Other && final(fs)@ == old(fs)@
                    } else {
                        r is Ok && sets_node(
                            old(fs)@,
                            final(fs)@,
                            old(self)@.path,
                            with_content(n, old(self)@.data),
                        )
                    },
                },
            },
    {
        self.flush(fs)
    }

    /// Closes the handle, consuming it: a write or append handle pushes its
    /// accumulated content first, a read handle just goes away. After this
    /// the handle cannot touch the session again.
    pub fn close(self, fs: &mut HdfsConnection) -> (r: Result<(), HdfsError>)
        requires
            old(fs).inv(),
        ensures
            final(fs).inv(),
            final(fs).spec_user() == old(fs).spec_user(),
            match self@.mode {
                OpenMode::Read => r is Ok && final(fs)@ == old(fs)@,
                _ => match node_at(old(fs)@, self@.path) {
                    None => r is Err && r->Err_0.kind == HdfsErrorKind::NotFound && final(fs)@
                        == old(fs)@,
                    Some(n) => if n.is_dir {
                        r is Err && r->Err_0.kind == HdfsErrorKind::Other && final(fs)@ == old(fs)@
                    } else {
                        r is Ok && sets_node(
                            old(fs)@,
                            final(fs)@,
                            self@.path,
                            with_content(n, self@.data),
                        )
                    },
                },
            },
    {
        match self.mode {
            OpenMode::Read => Ok(()),
            _ => fs.update_content(&self.path, &self.data),
        }
    }
}

} // verus!
