//! The filesystem session.
//!
//! A connection owns one session and answers path operations against it.
//! Here the session's namespace is held in memory, as a vector of nodes with
//! unique absolute paths; its mathematical form is the node sequence of
//! [`crate::namespace`], and every operation's contract is stated through
//! [`node_at`]. The namespace is flat: a directory exists only where one was
//! created ([`HdfsConnection::mkdir`] or connecting, which creates the
//! root), and creating a file does not create its ancestors.
//!
//! A note on sharing: operations that change the namespace take the
//! connection exclusively, so a borrowed open file or stream builder must be
//! closed or consumed before the namespace can change under it — the
//! use-after-close this layer exists to prevent cannot be written.

use vstd::prelude::*;

use crate::entry::HdfsDirectoryEntry;
use crate::entry::EntryV;
use crate::error::HdfsError;
use crate::error::HdfsErrorKind;
use crate::namespace::dir_node;
use crate::namespace::has_path;
use crate::namespace::lemma_node_at_exists;
use crate::namespace::lemma_node_at_push;
use crate::namespace::lemma_node_at_remove;
use crate::namespace::lemma_node_at_unique;
use crate::namespace::lemma_unique_push;
use crate::namespace::node_at;
use crate::namespace::opt_view;
use crate::namespace::sets_node;
use crate::namespace::unique_paths;
use crate::namespace::file_node;
use crate::namespace::removes_node;
use crate::namespace::with_content;
use crate::namespace::with_owner_group;
use crate::namespace::with_path;
use crate::namespace::with_permissions;
use crate::namespace::NodeV;
use crate::path::descendant_of;
use crate::path::direct_child;
use crate::path::is_descendant;
use crate::path::is_direct_child;

verus! {

/// One namespace node: an absolute path and what is registered there.
pub struct FsNode {
    pub path: String,
    pub is_dir: bool,
    pub content: Vec<u8>,
    pub owner: String,
    pub group: String,
    pub permissions: u16,
    pub replication: u16,
    pub block_size: u64,
}

impl View for FsNode {
    type V = NodeV;

    open spec fn view(&self) -> NodeV {
        NodeV {
            path: self.path@,
            is_dir: self.is_dir,
            content: self.content@,
            owner: self.owner@,
            group: self.group@,
            permissions: self.permissions,
            replication: self.replication,
            block_size: self.block_size,
        }
    }
}

impl DeepView for FsNode {
    type V = NodeV;

    open spec fn deep_view(&self) -> NodeV {
        self.view()
    }
}

impl Clone for FsNode {
    fn clone(&self) -> (r: Self)
        ensures
            r@ == self@,
    {
        FsNode {
            path: self.path.clone(),
            is_dir: self.is_dir,
            content: self.content.clone(),
            owner: self.owner.clone(),
            group: self.group.clone(),
            permissions: self.permissions,
            replication: self.replication,
            block_size: self.block_size,
        }
    }
}

/// A live filesystem session.
///
/// Its view is the namespace node sequence; [`HdfsConnection::inv`] holds
/// from construction on and every operation preserves it.
pub struct HdfsConnection {
    nodes: Vec<FsNode>,
    user: String,
}

impl View for HdfsConnection {
    type V = Seq<NodeV>;

    closed spec fn view(&self) -> Seq<NodeV> {
        self.nodes.deep_view()
    }
}

impl HdfsConnection {
    /// Well-formedness: no two nodes share a path.
    pub open spec fn inv(&self) -> bool {
        unique_paths(self@)
    }

    /// The user this session acts as; new nodes are owned by it.
    pub closed spec fn spec_user(&self) -> Seq<char> {
        self.user@
    }

    /// A fresh session for `user`, holding only the root directory.
    pub(crate) fn new_with_user(user: String) -> (r: HdfsConnection)
        ensures
            r.inv(),
            r.spec_user() == user@,
            r@ == seq![dir_node(seq!['/'], user@)],
    {
        let root = FsNode {
            path: "/".to_owned(),
            is_dir: true,
            content: Vec::new(),
            owner: user.clone(),
            group: String::new(),
            permissions: 0o755,
            replication: 0,
            block_size: 0,
        };
        proof {
            reveal_strlit("/");
            assert(root@.path =~= seq!['/']);
        }
        let mut nodes: Vec<FsNode> = Vec::new();
        nodes.push(root);
        let r = HdfsConnection { nodes, user };
        proof {
            assert(r@ =~~= seq![dir_node(seq!['/'], r.user@)]);
        }
        r
    }

    /// The index of the node registered for `path`, if any.
    fn find(&self, path: &String) -> (r: Option<usize>)
        requires
            self.inv(),
        ensures
            match r {
                Some(i) => i < self@.len() && self@[i as int].path == path@ && node_at(self@, path@)
                    == Some(self@[i as int]),
                None => node_at(self@, path@) is None,
            },
    {
        let n = self.nodes.len();
        let mut i: usize = 0;
        while i < n
            invariant
                self.inv(),
                n == self@.len(),
                i <= n,
                forall|j: int| 0 <= j < i ==> self@[j].path != path@,
            decreases n - i,
        {
            if self.nodes[i].path.eq(path) {
                proof {
                    lemma_node_at_unique(self@, path@, i as int);
                }
                return Some(i);
            }
            i += 1;
        }
        proof {
            lemma_node_at_exists(self@, path@);
        }
        None
    }

    /// Whether a node is registered for `path`.
    ///
    /// Against the native layer this check must disambiguate a sentinel that
    /// covers both "absent" and "failed" ([`crate::error::interpret_exists`]);
    /// the in-memory namespace has no failing calls, so the answer is exact.
    pub fn path_exists(&self, path: &str) -> (r: Result<bool, HdfsError>)
        requires
            self.inv(),
        ensures
            r == Result::<bool, HdfsError>::Ok(has_path(self@, path@)),
    {
        let p = path.to_owned();
        match self.find(&p) {
            Some(_) => Ok(true),
            None => Ok(false),
        }
    }

    /// Creates an empty directory at `path`. An existing directory is left
    /// as it is; a file in the way is an error.
    pub fn mkdir(&mut self, path: &str) -> (r: Result<(), HdfsError>)
        requires
            old(self).inv(),
        ensures
            final(self).inv(),
            final(self).spec_user() == old(self).spec_user(),
            match node_at(old(self)@, path@) {
                Some(n) => final(self)@ == old(self)@ && (if n.is_dir {
                    r is Ok
                } else {
                    r is Err && r->Err_0.kind == HdfsErrorKind::Other
                }),
                None => r is Ok && sets_node(
                    old(self)@,
                    final(self)@,
                    path@,
                    dir_node(path@, old(self).spec_user()),
                ),
            },
    {
        let p = path.to_owned();
        match self.find(&p) {
            Some(i) => {
                if self.nodes[i].is_dir {
                    Ok(())
                } else {
                    Err(HdfsError::other("a file stands in the way of the directory".to_owned()))
                }
            },
            None => {
                let node = FsNode {
                    path: p,
                    is_dir: true,
                    content: Vec::new(),
                    owner: self.user.clone(),
                    group: String::new(),
                    permissions: 0o755,
                    replication: 0,
                    block_size: 0,
                };
                proof {
                    assert(node@ == dir_node(path@, old(self).spec_user()));
                    lemma_unique_push(self@, node@);
                    lemma_node_at_push(self@, node@, path@);
                }
                let ghost s0 = self@;
                self.nodes.push(node);
                proof {
                    assert(self@ =~~= s0.push(dir_node(path@, old(self).spec_user())));
                    assert forall|q: Seq<char>| q != path@ implies node_at(self@, q) == node_at(
                        s0,
                        q,
                    ) by {
                        lemma_node_at_push(s0, dir_node(path@, old(self).spec_user()), q);
                    }
                }
                Ok(())
            },
        }
    }

    /// Replaces the node at index `i` with `node`, re-registering it under
    /// `node`'s path.
    fn replace_at(&mut self, i: usize, node: FsNode)
        requires
            old(self).inv(),
            i < old(self)@.len(),
            node@.path == old(self)@[i as int].path,
        ensures
            final(self).inv(),
            final(self).spec_user() == old(self).spec_user(),
            sets_node(old(self)@, final(self)@, node@.path, node@),
    {
        let ghost s0 = self@;
        let ghost p = node@.path;
        let _ = self.nodes.remove(i);
        proof {
            assert(self@ =~~= s0.remove(i as int));
            lemma_node_at_remove(s0, i as int);
        }
        let ghost s1 = self@;
        proof {
            lemma_unique_push(s1, node@);
        }
        self.nodes.push(node);
        proof {
            assert(self@ =~~= s1.push(node@));
            lemma_node_at_push(s1, node@, p);
            assert forall|q: Seq<char>| q != p implies node_at(self@, q) == node_at(s0, q) by {
                lemma_node_at_push(s1, node@, q);
            }
        }
    }

    /// Changes the permission bits of the node at `path`.
    pub fn chmod(&mut self, path: &str, mode: u16) -> (r: Result<(), HdfsError>)
        requires
            old(self).inv(),
        ensures
            final(self).inv(),
            final(self).spec_user() == old(self).spec_user(),
            match node_at(old(self)@, path@) {
                Some(n) => r is Ok && sets_node(
                    old(self)@,
                    final(self)@,
                    path@,
                    with_permissions(n, mode),
                ),
                None => r is Err && r->Err_0.kind == HdfsErrorKind::NotFound && final(self)@ == old(
                    self,
                )@,
            },
    {
        let p = path.to_owned();
        match self.find(&p) {
            None => Err(HdfsError::not_found("no entry at the given path".to_owned())),
            Some(i) => {
                let mut node = self.nodes[i].clone();
                node.permissions = mode;
                self.replace_at(i, node);
                Ok(())
            },
        }
    }

    /// Changes the owner and group of the node at `path`. A `None` owner or
    /// group is left unchanged.
    pub fn chown(&mut self, path: &str, owner: Option<&str>, group: Option<&str>) -> (r: Result<
        (),
        HdfsError,
    >)
        requires
            old(self).inv(),
        ensures
            final(self).inv(),
            final(self).spec_user() == old(self).spec_user(),
            match node_at(old(self)@, path@) {
                Some(n) => r is Ok && sets_node(
                    old(self)@,
                    final(self)@,
                    path@,
                    with_owner_group(n, opt_view(owner), opt_view(group)),
                ),
                None => r is Err && r->Err_0.kind == HdfsErrorKind::NotFound && final(self)@ == old(
                    self,
                )@,
            },
    {
        let p = path.to_owned();
        match self.find(&p) {
            None => Err(HdfsError::not_found("no entry at the given path".to_owned())),
            Some(i) => {
                let mut node = self.nodes[i].clone();
                match owner {
                    Some(o) => {
                        node.owner = o.to_owned();
                    },
                    None => {},
                }
                match group {
                    Some(g) => {
                        node.group = g.to_owned();
                    },
                    None => {},
                }
                self.replace_at(i, node);
                Ok(())
            },
        }
    }
}

/// Some node of `s` is a direct child of `dir`.
pub open spec fn has_child(s: Seq<NodeV>, dir: Seq<char>) -> bool {
    exists|j: int| 0 <= j < s.len() && direct_child(dir, s[j].path)
}

/// The listing of directory `dir`: one entry for each node directly inside
/// it, in namespace order.
pub open spec fn children_of(s: Seq<NodeV>, dir: Seq<char>) -> Seq<EntryV>
    decreases s.len(),
{
    if s.len() == 0 {
        Seq::<EntryV>::empty()
    } else {
        let rest = children_of(s.drop_last(), dir);
        if direct_child(dir, s.last().path) {
            rest.push(HdfsDirectoryEntry::spec_of_node(s.last()))
        } else {
            rest
        }
    }
}

/// A directory with no direct children lists as empty.
pub proof fn lemma_children_of_empty(s: Seq<NodeV>, dir: Seq<char>)
    requires
        !has_child(s, dir),
    ensures
        children_of(s, dir) == Seq::<EntryV>::empty(),
    decreases s.len(),
{
    if s.len() > 0 {
        assert(!direct_child(dir, s.last().path)) by {
            assert(s[s.len() - 1] == s.last());
        }
        assert(!has_child(s.drop_last(), dir)) by {
            if has_child(s.drop_last(), dir) {
                let j = choose|j: int|
                    0 <= j < s.drop_last().len() && direct_child(dir, s.drop_last()[j].path);
                assert(s[j] == s.drop_last()[j]);
            }
        }
        lemma_children_of_empty(s.drop_last(), dir);
    }
}

/// An owned byte-for-byte copy.
fn copy_bytes(v: &Vec<u8>) -> (r: Vec<u8>)
    ensures
        r@ == v@,
{
    let mut r: Vec<u8> = Vec::new();
    let n = v.len();
    let mut i: usize = 0;
    while i < n
        invariant
            n == v@.len(),
            i <= n,
            r@ == v@.subrange(0, i as int),
        decreases n - i,
    {
        r.push(v[i]);
        i += 1;
        proof {
            assert(r@ =~= v@.subrange(0, i as int));
        }
    }
    proof {
        assert(v@.subrange(0, n as int) =~= v@);
    }
    r
}

/// The listing entry that stands for a node.
fn entry_of_node(node: &FsNode) -> (r: HdfsDirectoryEntry)
    ensures
        r@ == HdfsDirectoryEntry::spec_of_node(node@),
{
    HdfsDirectoryEntry {
        kind: if node.is_dir {
            crate::entry::HdfsDirectoryEntryKind::Directory
        } else {
            crate::entry::HdfsDirectoryEntryKind::File
        },
        name: node.path.clone(),
        last_modified: 0,
        size: node.content.len() as u64,
        replication: node.replication,
        block_size: node.block_size,
        owner: node.owner.clone(),
        group: node.group.clone(),
        permissions: node.permissions,
        last_access: 0,
    }
}

impl HdfsConnection {
    /// Whether some node is a direct child of `path`.
    fn has_direct_child(&self, path: &str) -> (r: bool)
        ensures
            r == has_child(self@, path@),
    {
        let n = self.nodes.len();
        let mut j: usize = 0;
        while j < n
            invariant
                n == self@.len(),
                j <= n,
                forall|k: int| 0 <= k < j ==> !direct_child(path@, self@[k].path),
            decreases n - j,
        {
            if is_direct_child(path, self.nodes[j].path.as_str()) {
                proof {
                    assert(direct_child(path@, self@[j as int].path));
                }
                return true;
            }
            j += 1;
        }
        false
    }

    /// Deletes the node at `path`. A directory with direct children is
    /// refused unless `recursive` is set; deleting a directory removes
    /// everything below it as well.
    pub fn delete(&mut self, path: &str, recursive: bool) -> (r: Result<(), HdfsError>)
        requires
            old(self).inv(),
        ensures
            final(self).inv(),
            final(self).spec_user() == old(self).spec_user(),
            match node_at(old(self)@, path@) {
                None => r is Err && r->Err_0.kind == HdfsErrorKind::NotFound && final(self)@ == old(
                    self,
                )@,
                Some(n) => if n.is_dir && !recursive && has_child(old(self)@, path@) {
                    r is Err && r->Err_0.kind == HdfsErrorKind::Other && final(self)@ == old(self)@
                } else {
                    r is Ok && removes_node(old(self)@, final(self)@, path@, n.is_dir)
                },
            },
    {
        let p = path.to_owned();
        match self.find(&p) {
            None => Err(HdfsError::not_found("no entry at the given path".to_owned())),
            Some(i) => {
                let dir = self.nodes[i].is_dir;
                if dir && !recursive && self.has_direct_child(path) {
                    return Err(HdfsError::other("directory is not empty".to_owned()));
                }
                let ghost s = self@;
                let n = self.nodes.len();
                let mut kept: Vec<FsNode> = Vec::new();
                let mut j: usize = 0;
                while j < n
                    invariant
                        self.inv(),
                        self@ == s,
                        n == s.len(),
                        j <= n,
                        p@ == path@,
                        unique_paths(kept.deep_view()),
                        forall|q: Seq<char>|
                            node_at(kept.deep_view(), q) == (if q == path@ || (dir
                                && descendant_of(path@, q)) {
                                None::<NodeV>
                            } else {
                                node_at(s.take(j as int), q)
                            }),
                    decreases n - j,
                {
                    let drop_this = self.nodes[j].path.eq(&p) || (dir && is_descendant(
                        path,
                        self.nodes[j].path.as_str(),
                    ));
                    let ghost kv0 = kept.deep_view();
                    let ghost jj = j as int;
                    if !drop_this {
                        proof {
                            assert(node_at(kv0, s[jj].path) is None) by {
                                lemma_node_at_exists(s.take(jj), s[jj].path);
                                if node_at(s.take(jj), s[jj].path) is Some {
                                    let k = choose|k: int|
                                        0 <= k < s.take(jj).len() && s.take(jj)[k].path
                                            == s[jj].path;
                                    assert(s[k].path == s[jj].path && k < jj);
                                }
                            }
                            lemma_unique_push(kv0, s[jj]);
                        }
                        kept.push(self.nodes[j].clone());
                        proof {
                            assert(kept.deep_view() =~~= kv0.push(s[jj]));
                        }
                    }
                    j += 1;
                    proof {
                        assert(s.take(jj + 1) =~= s.take(jj).push(s[jj]));
                        assert forall|q: Seq<char>|
                            node_at(kept.deep_view(), q) == (if q == path@ || (dir
                                && descendant_of(path@, q)) {
                                None::<NodeV>
                            } else {
                                node_at(s.take(jj + 1), q)
                            }) by {
                            lemma_node_at_push(s.take(jj), s[jj], q);
                            if !drop_this {
                                lemma_node_at_push(kv0, s[jj], q);
                            }
                        }
                    }
                }
                proof {
                    assert(s.take(n as int) =~= s);
                }
                self.nodes = kept;
                Ok(())
            },
        }
    }

    /// Renames the node at `src` to `dest`. Fails when `src` is absent or
    /// anything is already registered at `dest`. Children of a renamed
    /// directory keep their absolute names.
    pub fn rename(&mut self, src: &str, dest: &str) -> (r: Result<(), HdfsError>)
        requires
            old(self).inv(),
        ensures
            final(self).inv(),
            final(self).spec_user() == old(self).spec_user(),
            match node_at(old(self)@, src@) {
                None => r is Err && r->Err_0.kind == HdfsErrorKind::NotFound && final(self)@ == old(
                    self,
                )@,
                Some(n) => if has_path(old(self)@, dest@) {
                    r is Err && r->Err_0.kind == HdfsErrorKind::Other && final(self)@ == old(self)@
                } else {
                    &&& r is Ok
                    &&& node_at(final(self)@, dest@) == Some(with_path(n, dest@))
                    &&& node_at(final(self)@, src@) is None
                    &&& forall|q: Seq<char>|
                        q != src@ && q != dest@ ==> node_at(final(self)@, q) == node_at(
                            old(self)@,
                            q,
                        )
                },
            },
    {
        let s = src.to_owned();
        let d = dest.to_owned();
        match self.find(&s) {
            None => Err(HdfsError::not_found("no entry at the source path".to_owned())),
            Some(i) => {
                match self.find(&d) {
                    Some(_) => Err(
                        HdfsError::other("an entry already stands at the destination".to_owned()),
                    ),
                    None => {
                        let ghost s0 = self@;
                        let mut node = self.nodes.remove(i);
                        proof {
                            assert(self@ =~~= s0.remove(i as int));
                            lemma_node_at_remove(s0, i as int);
                        }
                        node.path = d;
                        let ghost s1 = self@;
                        proof {
                            lemma_unique_push(s1, node@);
                        }
                        self.nodes.push(node);
                        proof {
                            assert(self@ =~~= s1.push(with_path(s0[i as int], dest@)));
                            lemma_node_at_push(s1, with_path(s0[i as int], dest@), src@);
                            assert forall|q: Seq<char>| q != src@ && q != dest@ implies node_at(
                                self@,
                                q,
                            ) == node_at(s0, q) by {
                                lemma_node_at_push(s1, with_path(s0[i as int], dest@), q);
                            }
                        }
                        Ok(())
                    },
                }
            },
        }
    }

    /// Moves the node at `src` in this session to `dest` in another live
    /// session. Fails when `src` is absent here or anything is already
    /// registered at `dest` there.
    pub fn move_to(&mut self, src: &str, dest_fs: &mut HdfsConnection, dest: &str) -> (r: Result<
        (),
        HdfsError,
    >)
        requires
            old(self).inv(),
            old(dest_fs).inv(),
        ensures
            final(self).inv(),
            final(dest_fs).inv(),
            final(self).spec_user() == old(self).spec_user(),
            final(dest_fs).spec_user() == old(dest_fs).spec_user(),
            match node_at(old(self)@, src@) {
                None => r is Err && r->Err_0.kind == HdfsErrorKind::NotFound && final(self)@ == old(
                    self,
                )@ && final(dest_fs)@ == old(dest_fs)@,
                Some(n) => if has_path(old(dest_fs)@, dest@) {
                    r is Err && r->Err_0.kind == HdfsErrorKind::Other && final(self)@ == old(self)@
                        && final(dest_fs)@ == old(dest_fs)@
                } else {
                    &&& r is Ok
                    &&& removes_node(old(self)@, final(self)@, src@, false)
                    &&& sets_node(old(dest_fs)@, final(dest_fs)@, dest@, with_path(n, dest@))
                },
            },
    {
        let s = src.to_owned();
        let d = dest.to_owned();
        match self.find(&s) {
            None => Err(HdfsError::not_found("no entry at the source path".to_owned())),
            Some(i) => {
                match dest_fs.find(&d) {
                    Some(_) => Err(
                        HdfsError::other("an entry already stands at the destination".to_owned()),
                    ),
                    None => {
                        let ghost s0 = self@;
                        let ghost t0 = dest_fs@;
                        let mut node = self.nodes.remove(i);
                        proof {
                            assert(self@ =~~= s0.remove(i as int));
                            lemma_node_at_remove(s0, i as int);
                        }
                        node.path = d;
                        proof {
                            lemma_unique_push(t0, node@);
                        }
                        dest_fs.nodes.push(node);
                        proof {
                            assert(dest_fs@ =~~= t0.push(with_path(s0[i as int], dest@)));
                            lemma_node_at_push(t0, with_path(s0[i as int], dest@), dest@);
                            assert forall|q: Seq<char>| q != dest@ implies node_at(dest_fs@, q)
                                == node_at(t0, q) by {
                                lemma_node_at_push(t0, with_path(s0[i as int], dest@), q);
                            }
                        }
                        Ok(())
                    },
                }
            },
        }
    }

    /// Truncates the file at `path` to `size` bytes. A negative size is
    /// rejected before anything else; a size beyond the file's length cannot
    /// be satisfied.
    pub fn truncate(&mut self, path: &str, size: i64) -> (r: Result<(), HdfsError>)
        requires
            old(self).inv(),
        ensures
            final(self).inv(),
            final(self).spec_user() == old(self).spec_user(),
            size < 0 ==> r is Err && r->Err_0.kind == HdfsErrorKind::InvalidInput && final(self)@
                == old(self)@,
            size >= 0 ==> match node_at(old(self)@, path@) {
                None => r is Err && r->Err_0.kind == HdfsErrorKind::NotFound && final(self)@ == old(
                    self,
                )@,
                Some(n) => if n.is_dir {
                    r is Err && r->Err_0.kind == HdfsErrorKind::Other && final(self)@ == old(self)@
                } else if size > n.content.len() {
                    r is Err && r->Err_0.kind == HdfsErrorKind::Other && final(self)@ == old(self)@
                } else {
                    r is Ok && sets_node(
                        old(self)@,
                        final(self)@,
                        path@,
                        with_content(n, n.content.take(size as int)),
                    )
                },
            },
    {
        if size < 0 {
            return Err(HdfsError::invalid_input("a size cannot be negative".to_owned()));
        }
        let p = path.to_owned();
        match self.find(&p) {
            None => Err(HdfsError::not_found("no entry at the given path".to_owned())),
            Some(i) => {
                if self.nodes[i].is_dir {
                    return Err(HdfsError::other("cannot truncate a directory".to_owned()));
                }
                if size as u64 > self.nodes[i].content.len() as u64 {
                    return Err(
                        HdfsError::other("cannot truncate beyond the end of the file".to_owned()),
                    );
                }
                let mut node = self.nodes[i].clone();
                node.content.truncate(size as usize);
                proof {
                    assert(node@.content =~= old(self)@[i as int].content.take(size as int));
                }
                self.replace_at(i, node);
                Ok(())
            },
        }
    }

    /// Lists `path`: a directory lists its direct children, a file lists
    /// itself, an unregistered path is "not found".
    pub fn list_dir(&self, path: &str) -> (r: Result<Vec<HdfsDirectoryEntry>, HdfsError>)
        requires
            self.inv(),
        ensures
            match node_at(self@, path@) {
                None => r is Err && r->Err_0.kind == HdfsErrorKind::NotFound,
                Some(n) => if n.is_dir {
                    r is Ok && r->Ok_0.deep_view() == children_of(self@, path@)
                } else {
                    r is Ok && r->Ok_0.deep_view() == seq![HdfsDirectoryEntry::spec_of_node(n)]
                },
            },
    {
        let p = path.to_owned();
        match self.find(&p) {
            None => Err(HdfsError::not_found("no entry at the given path".to_owned())),
            Some(i) => {
                if !self.nodes[i].is_dir {
                    let mut out: Vec<HdfsDirectoryEntry> = Vec::new();
                    out.push(entry_of_node(&self.nodes[i]));
                    proof {
                        assert(out.deep_view() =~~= seq![
                            HdfsDirectoryEntry::spec_of_node(self@[i as int]),
                        ]);
                    }
                    return Ok(out);
                }
                let ghost s = self@;
                let n = self.nodes.len();
                let mut out: Vec<HdfsDirectoryEntry> = Vec::new();
                let mut j: usize = 0;
                while j < n
                    invariant
                        self.inv(),
                        self@ == s,
                        n == s.len(),
                        j <= n,
                        p@ == path@,
                        out.deep_view() == children_of(s.take(j as int), path@),
                    decreases n - j,
                {
                    let ghost ov0 = out.deep_view();
                    let ghost jj = j as int;
                    if is_direct_child(path, self.nodes[j].path.as_str()) {
                        out.push(entry_of_node(&self.nodes[j]));
                        proof {
                            assert(out.deep_view() =~~= ov0.push(
                                HdfsDirectoryEntry::spec_of_node(s[jj]),
                            ));
                        }
                    }
                    j += 1;
                    proof {
                        assert(s.take(jj + 1) =~= s.take(jj).push(s[jj]));
                        assert(s.take(jj + 1).drop_last() =~= s.take(jj));
                        assert(out.deep_view() == children_of(s.take(jj + 1), path@));
                    }
                }
                proof {
                    assert(s.take(n as int) =~= s);
                }
                Ok(out)
            },
        }
    }

    /// The content of the file at `path`, copied out.
    pub(crate) fn file_content(&self, path: &String) -> (r: Result<Vec<u8>, HdfsError>)
        requires
            self.inv(),
        ensures
            match node_at(self@, path@) {
                None => r is Err && r->Err_0.kind == HdfsErrorKind::NotFound,
                Some(n) => if n.is_dir {
                    r is Err && r->Err_0.kind == HdfsErrorKind::Other
                } else {
                    r is Ok && r->Ok_0@ == n.content
                },
            },
    {
        match self.find(path) {
            None => Err(HdfsError::not_found("no entry at the given path".to_owned())),
            Some(i) => {
                if self.nodes[i].is_dir {
                    Err(HdfsError::other("cannot read a directory".to_owned()))
                } else {
                    Ok(copy_bytes(&self.nodes[i].content))
                }
            },
        }
    }

    /// Registers an empty file at `path`, replacing a file already there.
    /// A directory in the way is an error.
    pub(crate) fn create_file(&mut self, path: &String, replication: u16, block_size: u64) -> (r:
        Result<(), HdfsError>)
        requires
            old(self).inv(),
        ensures
            final(self).inv(),
            final(self).spec_user() == old(self).spec_user(),
            match node_at(old(self)@, path@) {
                Some(n) => if n.is_dir {
                    r is Err && r->Err_0.kind == HdfsErrorKind::Other && final(self)@ == old(self)@
                } else {
                    r is Ok && sets_node(
                        old(self)@,
                        final(self)@,
                        path@,
                        file_node(
                            path@,
                            Seq::<u8>::empty(),
                            old(self).spec_user(),
                            replication,
                            block_size,
                        ),
                    )
                },
                None => r is Ok && sets_node(
                    old(self)@,
                    final(self)@,
                    path@,
                    file_node(
                        path@,
                        Seq::<u8>::empty(),
                        old(self).spec_user(),
                        replication,
                        block_size,
                    ),
                ),
            },
    {
        let node = FsNode {
            path: path.clone(),
            is_dir: false,
            content: Vec::new(),
            owner: self.user.clone(),
            group: String::new(),
            permissions: 0o644,
            replication,
            block_size,
        };
        proof {
            assert(node@.content =~= Seq::<u8>::empty());
            assert(node@.group =~= Seq::<char>::empty());
        }
        match self.find(path) {
            Some(i) => {
                if self.nodes[i].is_dir {
                    Err(HdfsError::other("a directory stands at the given path".to_owned()))
                } else {
                    self.replace_at(i, node);
                    Ok(())
                }
            },
            None => {
                let ghost s0 = self@;
                proof {
                    lemma_unique_push(s0, node@);
                }
                self.nodes.push(node);
                proof {
                    assert(self@ =~~= s0.push(
                        file_node(
                            path@,
                            Seq::<u8>::empty(),
                            old(self).spec_user(),
                            replication,
                            block_size,
                        ),
                    ));
                    lemma_node_at_push(
                        s0,
                        file_node(
                            path@,
                            Seq::<u8>::empty(),
                            old(self).spec_user(),
                            replication,
                            block_size,
                        ),
                        path@,
                    );
                    assert forall|q: Seq<char>| q != path@ implies node_at(self@, q) == node_at(
                        s0,
                        q,
                    ) by {
                        lemma_node_at_push(
                            s0,
                            file_node(
                                path@,
                                Seq::<u8>::empty(),
                                old(self).spec_user(),
                                replication,
                                block_size,
                            ),
                            q,
                        );
                    }
                }
                Ok(())
            },
        }
    }

    /// Replaces the content of the file at `path`.
    pub(crate) fn update_content(&mut self, path: &String, content: &Vec<u8>) -> (r: Result<
        (),
        HdfsError,
    >)
        requires
            old(self).inv(),
        ensures
            final(self).inv(),
            final(self).spec_user() == old(self).spec_user(),
            match node_at(old(self)@, path@) {
                None => r is Err && r->Err_0.kind == HdfsErrorKind::NotFound && final(self)@ == old(
                    self,
                )@,
                Some(n) => if n.is_dir {
                    r is Err && r->Err_0.kind == HdfsErrorKind::Other && final(self)@ == old(self)@
                } else {
                    r is Ok && sets_node(old(self)@, final(self)@, path@, with_content(n, content@))
                },
            },
    {
        match self.find(path) {
            None => Err(HdfsError::not_found("no entry at the given path".to_owned())),
            Some(i) => {
                if self.nodes[i].is_dir {
                    Err(HdfsError::other("cannot write to a directory".to_owned()))
                } else {
                    let mut node = self.nodes[i].clone();
                    node.content = copy_bytes(content);
                    self.replace_at(i, node);
                    Ok(())
                }
            },
        }
    }
}

} // verus!
