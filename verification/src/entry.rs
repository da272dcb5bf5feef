//! Directory entries: owned records marshalled out of a native listing.
//!
//! The native listing call answers with an array of records holding raw
//! pointers and native integer widths, together with an output count. The
//! caller copies each record into plain values ([`RawFileInfo`]) and frees
//! the array exactly once; everything after that copy is verified here. The
//! listing call's ambiguous failure signal — a null array for both "empty
//! directory" and "failed" — is disambiguated by [`interpret_listing`].

use vstd::prelude::*;

use crate::namespace::NodeV;

verus! {

/// The native code for a file entry (the letter `F`).
pub const OBJECT_KIND_FILE: u32 = 70;

/// The native code for a directory entry (the letter `D`).
pub const OBJECT_KIND_DIRECTORY: u32 = 68;

/// What kind of entry a listing reports. The native enumeration is open:
/// codes outside the known set are carried through, never panicked on.
#[derive(Clone, Copy, PartialEq, Eq, Structural, Debug)]
pub enum HdfsDirectoryEntryKind {
    File,
    Directory,
    Unrecognized(u32),
}

/// The entry kind a native kind code denotes.
pub open spec fn spec_kind_from_code(code: u32) -> HdfsDirectoryEntryKind {
    if code == OBJECT_KIND_DIRECTORY {
        HdfsDirectoryEntryKind::Directory
    } else if code == OBJECT_KIND_FILE {
        HdfsDirectoryEntryKind::File
    } else {
        HdfsDirectoryEntryKind::Unrecognized(code)
    }
}

impl HdfsDirectoryEntryKind {
    /// Classifies a native kind code, carrying unknown codes through.
    pub fn from_code(code: u32) -> (r: HdfsDirectoryEntryKind)
        ensures
            r == spec_kind_from_code(code),
    {
        if code == OBJECT_KIND_DIRECTORY {
            HdfsDirectoryEntryKind::Directory
        } else if code == OBJECT_KIND_FILE {
            HdfsDirectoryEntryKind::File
        } else {
            HdfsDirectoryEntryKind::Unrecognized(code)
        }
    }
}

impl From<u32> for HdfsDirectoryEntryKind {
    fn from(value: u32) -> (r: HdfsDirectoryEntryKind) {
        HdfsDirectoryEntryKind::from_code(value)
    }
}

impl vstd::std_specs::convert::FromSpecImpl<u32> for HdfsDirectoryEntryKind {
    open spec fn obeys_from_spec() -> bool {
        true
    }

    open spec fn from_spec(value: u32) -> HdfsDirectoryEntryKind {
        spec_kind_from_code(value)
    }
}

/// One record of a native listing, already copied into plain values with
/// the native layer's own widths. No native memory is owned here.
pub struct RawFileInfo {
    /// Native kind code.
    pub kind_code: u32,
    /// Absolute name of the entry.
    pub name: String,
    /// Last modification time, in seconds since the epoch.
    pub last_modified: i64,
    /// Size of the file, in bytes.
    pub size: i64,
    /// Replication factor.
    pub replication: i16,
    /// Block size, in bytes.
    pub block_size: i64,
    /// Owning user.
    pub owner: String,
    /// Owning group.
    pub group: String,
    /// Permission bits.
    pub permissions: i16,
    /// Last access time, in seconds since the epoch.
    pub last_access: i64,
}

/// The mathematical image of a directory entry.
pub struct EntryV {
    pub kind: HdfsDirectoryEntryKind,
    pub name: Seq<char>,
    pub last_modified: u64,
    pub size: u64,
    pub replication: u16,
    pub block_size: u64,
    pub owner: Seq<char>,
    pub group: Seq<char>,
    pub permissions: u16,
    pub last_access: u64,
}

/// Entry returned by directory listing: a plain owned record.
#[derive(Clone, Debug)]
pub struct HdfsDirectoryEntry {
    /// What type of entry: file or directory.
    pub kind: HdfsDirectoryEntryKind,
    /// Absolute name of the entry.
    pub name: String,
    /// The time the entry was last modified, in seconds since the epoch.
    pub last_modified: u64,
    /// The size of the file, in bytes.
    pub size: u64,
    /// The replication factor of the file.
    pub replication: u16,
    /// The block size of the file, in bytes.
    pub block_size: u64,
    /// The owner of the entry.
    pub owner: String,
    /// The group of the entry.
    pub group: String,
    /// Permission bits on the entry.
    pub permissions: u16,
    /// The time the entry was last accessed, in seconds since the epoch.
    pub last_access: u64,
}

impl View for HdfsDirectoryEntry {
    type V = EntryV;

    open spec fn view(&self) -> EntryV {
        EntryV {
            kind: self.kind,
            name: self.name@,
            last_modified: self.last_modified,
            size: self.size,
            replication: self.replication,
            block_size: self.block_size,
            owner: self.owner@,
            group: self.group@,
            permissions: self.permissions,
            last_access: self.last_access,
        }
    }
}

impl DeepView for HdfsDirectoryEntry {
    type V = EntryV;

    open spec fn deep_view(&self) -> EntryV {
        self.view()
    }
}

/// A native time value reinterpreted as seconds since the epoch.
pub fn time_t_to_secs(v: i64) -> (r: u64)
    ensures
        r == v as u64,
{
    #[verifier::truncate] (v as u64)
}

/// The entry a raw native record marshals to: each field copied, with the
/// native signed widths reinterpreted in the record's unsigned widths.
pub open spec fn spec_entry_from_raw(raw: RawFileInfo) -> EntryV {
    EntryV {
        kind: spec_kind_from_code(raw.kind_code),
        name: raw.name@,
        last_modified: raw.last_modified as u64,
        size: raw.size as u64,
        replication: raw.replication as u16,
        block_size: raw.block_size as u64,
        owner: raw.owner@,
        group: raw.group@,
        permissions: raw.permissions as u16,
        last_access: raw.last_access as u64,
    }
}

impl HdfsDirectoryEntry {
    /// Marshals one raw native record into an owned entry.
    pub fn from_raw(raw: &RawFileInfo) -> (r: HdfsDirectoryEntry)
        ensures
            r@ == spec_entry_from_raw(*raw),
    {
        HdfsDirectoryEntry {
            kind: HdfsDirectoryEntryKind::from_code(raw.kind_code),
            name: raw.name.clone(),
            last_modified: time_t_to_secs(raw.last_modified),
            size: time_t_to_secs(raw.size),
            replication: #[verifier::truncate] (raw.replication as u16),
            block_size: time_t_to_secs(raw.block_size),
            owner: raw.owner.clone(),
            group: raw.group.clone(),
            permissions: #[verifier::truncate] (raw.permissions as u16),
            last_access: time_t_to_secs(raw.last_access),
        }
    }

    /// The entry that stands for a namespace node in a listing.
    pub open spec fn spec_of_node(n: NodeV) -> EntryV {
        EntryV {
            kind: if n.is_dir {
                HdfsDirectoryEntryKind::Directory
            } else {
                HdfsDirectoryEntryKind::File
            },
            name: n.path,
            last_modified: 0,
            size: n.content.len() as u64,
            replication: n.replication,
            block_size: n.block_size,
            owner: n.owner,
            group: n.group,
            permissions: n.permissions,
            last_access: 0,
        }
    }
}

/// Marshals a whole copied-out native listing, in order.
pub fn marshal_entries(raws: &Vec<RawFileInfo>) -> (r: Vec<HdfsDirectoryEntry>)
    ensures
        r@.len() == raws@.len(),
        forall|i: int| 0 <= i < raws@.len() ==> r@[i]@ == spec_entry_from_raw(raws@[i]),
{
    let mut r: Vec<HdfsDirectoryEntry> = Vec::new();
    let n = raws.len();
    let mut i: usize = 0;
    while i < n
        invariant
            n == raws@.len(),
            i <= n,
            r@.len() == i,
            forall|j: int| 0 <= j < i ==> r@[j]@ == spec_entry_from_raw(raws@[j]),
        decreases n - i,
    {
        r.push(HdfsDirectoryEntry::from_raw(&raws[i]));
        i += 1;
    }
    r
}

/// What a native listing call signalled.
#[derive(Clone, Copy, PartialEq, Eq, Structural, Debug)]
pub enum ListSignal {
    /// An array came back; its entries are to be marshalled and the array
    /// freed exactly once, using the returned count.
    Entries,
    /// The directory is genuinely empty: no array, and the call set the
    /// count to zero.
    EmptyDir,
    /// The call failed: no array, and the count still holds the sentinel it
    /// was initialized to.
    Failure,
}

/// The value the output count must be initialized to before the native
/// listing call. It is nonzero, so a failing call — which never touches the
/// count — can be told apart from the genuine empty case, where the call
/// clears the count to zero.
pub const LIST_COUNT_SENTINEL: i32 = 123;

/// Disambiguates the native listing result: a null array is a valid empty
/// directory exactly when the call cleared the count to zero, and a failure
/// otherwise.
pub fn interpret_listing(got_array: bool, num_entries: i32) -> (r: ListSignal)
    ensures
        got_array ==> r == ListSignal::Entries,
        !got_array && num_entries == 0 ==> r == ListSignal::EmptyDir,
        !got_array && num_entries != 0 ==> r == ListSignal::Failure,
{
    if got_array {
        ListSignal::Entries
    } else if num_entries == 0 {
        ListSignal::EmptyDir
    } else {
        ListSignal::Failure
    }
}

} // verus!
