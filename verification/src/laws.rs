//! The library's laws: what holds of every input, proved once and for all.
//!
//! Each law is stated over the same spec functions the operations' own
//! contracts use — [`seek_plan`] for the seek decisions, [`sets_node`] and
//! [`removes_node`] for the namespace transitions — so together with those
//! contracts it speaks about every call of the library.

use vstd::prelude::*;

use crate::entry::EntryV;
use crate::file::spec_tell;
use crate::file::FileV;
use crate::file::OpenMode;
use crate::fs::children_of;
use crate::fs::has_child;
use crate::fs::lemma_children_of_empty;
use crate::namespace::content_at;
use crate::namespace::has_path;
use crate::namespace::node_at;
use crate::namespace::removes_node;
use crate::namespace::sets_node;
use crate::namespace::with_content;
use crate::namespace::with_owner_group;
use crate::namespace::NodeV;
use crate::path::descendant_of;
use crate::seek::seek_plan;
use crate::seek::SeekFrom;
use crate::seek::SeekPlan;

verus! {

/// A seek of zero relative to the current position is a pure position
/// query: the plan is to report the position, never to issue a
/// position-changing call.
pub proof fn law_seek_current_zero_is_tell(current: i64)
    ensures
        seek_plan(SeekFrom::Current(0), current) == SeekPlan::Tell,
{
}

/// After a successful position-changing seek of a read handle to `t`, the
/// handle reports position `t`: together with
/// [`law_seek_current_zero_is_tell`] and the seek contract, a `Current(0)`
/// seek answers exactly the position the preceding seek established, and
/// leaves the handle as it was.
pub proof fn law_tell_after_move(f: FileV, t: int)
    requires
        f.mode == OpenMode::Read,
    ensures
        spec_tell(FileV { pos: t, ..f }) == t,
{
}

/// An absolute offset beyond the native signed range — `u64::MAX` among
/// them — is rejected as invalid input before any native call.
pub proof fn law_seek_start_overflow_rejected(offset: u64, current: i64)
    requires
        offset > i64::MAX as u64,
    ensures
        seek_plan(SeekFrom::Start(offset), current) == SeekPlan::RejectOverflow,
{
}

/// Relative position arithmetic that leaves the signed range is rejected as
/// invalid input, never wrapped.
pub proof fn law_seek_current_overflow_rejected(delta: i64, current: i64)
    requires
        delta != 0,
        current + delta > i64::MAX || current + delta < i64::MIN,
    ensures
        seek_plan(SeekFrom::Current(delta), current) == SeekPlan::RejectOverflow,
{
}

/// End-relative addressing is rejected: the native layer cannot express it.
pub proof fn law_seek_end_rejected(delta: i64, current: i64)
    ensures
        seek_plan(SeekFrom::End(delta), current) == SeekPlan::RejectUnsupported,
{
}

/// After an operation registers a node at `p` — creating a file, or closing
/// a write handle — the path is there and every other path is as it was.
/// With [`crate::fs::HdfsConnection::path_exists`] answering exactly
/// [`has_path`], an existence check after a successful create answers true
/// until something removes the path.
pub proof fn law_exists_after_set(s0: Seq<NodeV>, s1: Seq<NodeV>, p: Seq<char>, n: NodeV)
    requires
        sets_node(s0, s1, p, n),
    ensures
        has_path(s1, p),
        forall|q: Seq<char>| q != p ==> node_at(s1, q) == node_at(s0, q),
{
}

/// After a delete removes `p`, the path is gone: a subsequent existence
/// check answers false.
pub proof fn law_exists_after_delete(s0: Seq<NodeV>, s1: Seq<NodeV>, p: Seq<char>, subtree: bool)
    requires
        removes_node(s0, s1, p, subtree),
    ensures
        !has_path(s1, p),
{
}

/// A delete touches nothing outside the deleted path and — for a directory
/// — what lies below it.
pub proof fn law_delete_keeps_others(
    s0: Seq<NodeV>,
    s1: Seq<NodeV>,
    p: Seq<char>,
    q: Seq<char>,
    subtree: bool,
)
    requires
        removes_node(s0, s1, p, subtree),
        q != p,
        !(subtree && descendant_of(p, q)),
    ensures
        node_at(s1, q) == node_at(s0, q),
{
}

/// Round trip: the content a closing write handle pushes at `p` is exactly
/// what is registered there afterwards — and so exactly what a subsequent
/// open for reading snapshots and a full read returns.
pub proof fn law_round_trip(s0: Seq<NodeV>, s1: Seq<NodeV>, p: Seq<char>, n: NodeV, b: Seq<u8>)
    requires
        sets_node(s0, s1, p, with_content(n, b)),
        !n.is_dir,
    ensures
        node_at(s1, p) is Some,
        !node_at(s1, p)->Some_0.is_dir,
        content_at(s1, p) == b,
{
}

/// Reading a fresh snapshot to the end yields the snapshot whole.
pub proof fn law_read_all_of_snapshot(data: Seq<u8>)
    ensures
        data.subrange(0, data.len() as int) == data,
{
    assert(data.subrange(0, data.len() as int) =~= data);
}

/// Changing only the owner leaves the group — and everything else — alone,
/// and the other way round.
pub proof fn law_chown_partial(n: NodeV, owner: Seq<char>, group: Seq<char>)
    ensures
        with_owner_group(n, Some(owner), None) == (NodeV { owner, ..n }),
        with_owner_group(n, None, Some(group)) == (NodeV { group, ..n }),
        with_owner_group(n, None, None) == n,
{
}

/// A directory with no direct children lists as the empty sequence: an
/// empty listing, not an error.
pub proof fn law_list_dir_empty(s: Seq<NodeV>, dir: Seq<char>)
    requires
        !has_child(s, dir),
    ensures
        children_of(s, dir) == Seq::<EntryV>::empty(),
{
    lemma_children_of_empty(s, dir);
}

} // verus!
