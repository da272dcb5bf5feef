//! The mathematical model of a filesystem namespace.
//!
//! A namespace is a sequence of nodes, each carrying an absolute path, a
//! kind (file or directory), file content and ownership metadata. The path
//! of each node is unique; [`node_at`] is the resulting partial lookup, and
//! everything the session types promise is stated through it.

use vstd::prelude::*;

use crate::path::descendant_of;

verus! {

/// The record a namespace keeps for one absolute path.
pub struct NodeV {
    pub path: Seq<char>,
    pub is_dir: bool,
    pub content: Seq<u8>,
    pub owner: Seq<char>,
    pub group: Seq<char>,
    pub permissions: u16,
    pub replication: u16,
    pub block_size: u64,
}

/// The node registered for path `p`, if any. Later nodes win, though under
/// [`unique_paths`] at most one node can match.
pub open spec fn node_at(s: Seq<NodeV>, p: Seq<char>) -> Option<NodeV>
    decreases s.len(),
{
    if s.len() == 0 {
        None
    } else if s.last().path == p {
        Some(s.last())
    } else {
        node_at(s.drop_last(), p)
    }
}

/// Whether any node is registered for path `p`.
pub open spec fn has_path(s: Seq<NodeV>, p: Seq<char>) -> bool {
    node_at(s, p) is Some
}

/// The content of the file registered at `p` (arbitrary if there is none).
pub open spec fn content_at(s: Seq<NodeV>, p: Seq<char>) -> Seq<u8> {
    node_at(s, p)->Some_0.content
}

/// No two nodes share a path.
pub open spec fn unique_paths(s: Seq<NodeV>) -> bool {
    forall|i: int, j: int| 0 <= i < j < s.len() ==> s[i].path != s[j].path
}

/// A fresh file node: empty content unless written, default permissions.
pub open spec fn file_node(
    p: Seq<char>,
    content: Seq<u8>,
    owner: Seq<char>,
    replication: u16,
    block_size: u64,
) -> NodeV {
    NodeV {
        path: p,
        is_dir: false,
        content,
        owner,
        group: Seq::<char>::empty(),
        permissions: 0o644,
        replication,
        block_size,
    }
}

/// A fresh directory node.
pub open spec fn dir_node(p: Seq<char>, owner: Seq<char>) -> NodeV {
    NodeV {
        path: p,
        is_dir: true,
        content: Seq::<u8>::empty(),
        owner,
        group: Seq::<char>::empty(),
        permissions: 0o755,
        replication: 0,
        block_size: 0,
    }
}

/// `n` with its permission bits replaced.
pub open spec fn with_permissions(n: NodeV, mode: u16) -> NodeV {
    NodeV { permissions: mode, ..n }
}

/// `n` with owner and group each replaced where a new value is given and
/// kept where none is.
pub open spec fn with_owner_group(
    n: NodeV,
    owner: Option<Seq<char>>,
    group: Option<Seq<char>>,
) -> NodeV {
    NodeV {
        owner: if owner is Some {
            owner->0
        } else {
            n.owner
        },
        group: if group is Some {
            group->0
        } else {
            n.group
        },
        ..n
    }
}

/// `n` registered under a new path.
pub open spec fn with_path(n: NodeV, p: Seq<char>) -> NodeV {
    NodeV { path: p, ..n }
}

/// `n` with its content replaced.
pub open spec fn with_content(n: NodeV, content: Seq<u8>) -> NodeV {
    NodeV { content, ..n }
}

/// The view of an optional borrowed string.
pub open spec fn opt_view(o: Option<&str>) -> Option<Seq<char>> {
    match o {
        Some(s) => Some(s@),
        None => None,
    }
}

/// `s1` is `s0` with the node at `p` set to `n` (`n.path == p`) and every
/// other path untouched.
pub open spec fn sets_node(s0: Seq<NodeV>, s1: Seq<NodeV>, p: Seq<char>, n: NodeV) -> bool {
    &&& n.path == p
    &&& node_at(s1, p) == Some(n)
    &&& forall|q: Seq<char>| q != p ==> node_at(s1, q) == node_at(s0, q)
}

/// `s1` is `s0` with the node at `p` gone — and, when `subtree` is set,
/// everything below `p` gone too — and every other path untouched.
pub open spec fn removes_node(s0: Seq<NodeV>, s1: Seq<NodeV>, p: Seq<char>, subtree: bool) -> bool {
    forall|q: Seq<char>|
        node_at(s1, q) == (if q == p || (subtree && descendant_of(p, q)) {
            None::<NodeV>
        } else {
            node_at(s0, q)
        })
}

/// Pushing a node makes it the one registered for its path and leaves every
/// other path alone.
pub proof fn lemma_node_at_push(s: Seq<NodeV>, n: NodeV, p: Seq<char>)
    ensures
        node_at(s.push(n), p) == (if n.path == p {
            Some(n)
        } else {
            node_at(s, p)
        }),
{
    assert(s.push(n).drop_last() =~= s);
    assert(s.push(n).last() == n);
}

/// A path is registered exactly when some node carries it, and the lookup
/// answers with such a node.
pub proof fn lemma_node_at_exists(s: Seq<NodeV>, p: Seq<char>)
    ensures
        (node_at(s, p) is Some) <==> (exists|i: int| 0 <= i < s.len() && s[i].path == p),
        node_at(s, p) is Some ==> exists|i: int|
            0 <= i < s.len() && s[i].path == p && s[i] == node_at(s, p)->Some_0,
    decreases s.len(),
{
    if s.len() == 0 {
    } else if s.last().path == p {
        assert(s[s.len() - 1].path == p && s[s.len() - 1] == node_at(s, p)->Some_0);
    } else {
        lemma_node_at_exists(s.drop_last(), p);
        if node_at(s, p) is Some {
            let i = choose|i: int|
                0 <= i < s.drop_last().len() && s.drop_last()[i].path == p && s.drop_last()[i]
                    == node_at(s.drop_last(), p)->Some_0;
            assert(0 <= i < s.len() && s[i].path == p && s[i] == node_at(s, p)->Some_0);
        } else {
            assert forall|i: int| 0 <= i < s.len() implies s[i].path != p by {
                if i < s.len() - 1 {
                    assert(s.drop_last()[i] == s[i]);
                }
            }
        }
    }
}

/// Under unique paths, the lookup answers with the node at any index that
/// carries the path.
pub proof fn lemma_node_at_unique(s: Seq<NodeV>, p: Seq<char>, i: int)
    requires
        unique_paths(s),
        0 <= i < s.len(),
        s[i].path == p,
    ensures
        node_at(s, p) == Some(s[i]),
    decreases s.len(),
{
    if i == s.len() - 1 {
    } else {
        assert(s.last().path != p);
        assert(unique_paths(s.drop_last())) by {
            assert(forall|a: int, b: int|
                0 <= a < b < s.drop_last().len() ==> s.drop_last()[a] == s[a] && s.drop_last()[b]
                    == s[b]);
        }
        assert(s.drop_last()[i] == s[i]);
        lemma_node_at_unique(s.drop_last(), p, i);
    }
}

/// Removing the node at index `i` unregisters its path, keeps every other
/// path as it was, and preserves uniqueness.
pub proof fn lemma_node_at_remove(s: Seq<NodeV>, i: int)
    requires
        unique_paths(s),
        0 <= i < s.len(),
    ensures
        unique_paths(s.remove(i)),
        node_at(s.remove(i), s[i].path) is None,
        forall|q: Seq<char>| q != s[i].path ==> node_at(s.remove(i), q) == node_at(s, q),
{
    let t = s.remove(i);
    assert(forall|k: int| 0 <= k < i ==> t[k] == s[k]);
    assert(forall|k: int| i <= k < t.len() ==> t[k] == s[k + 1]);
    assert(unique_paths(t)) by {
        assert forall|a: int, b: int| 0 <= a < b < t.len() implies t[a].path != t[b].path by {
            let a0 = if a < i {
                a
            } else {
                a + 1
            };
            let b0 = if b < i {
                b
            } else {
                b + 1
            };
            assert(t[a] == s[a0] && t[b] == s[b0] && a0 < b0);
        }
    }
    lemma_node_at_exists(t, s[i].path);
    if node_at(t, s[i].path) is Some {
        let k = choose|k: int| 0 <= k < t.len() && t[k].path == s[i].path;
        let k0 = if k < i {
            k
        } else {
            k + 1
        };
        assert(s[k0].path == s[i].path && k0 != i);
        assert(false);
    }
    assert forall|q: Seq<char>| q != s[i].path implies node_at(t, q) == node_at(s, q) by {
        lemma_node_at_exists(t, q);
        lemma_node_at_exists(s, q);
        if node_at(s, q) is Some {
            let k = choose|k: int| 0 <= k < s.len() && s[k].path == q && s[k] == node_at(s, q)->Some_0;
            let k1 = if k < i {
                k
            } else {
                k - 1
            };
            assert(k != i);
            assert(t[k1] == s[k]);
            lemma_node_at_unique(t, q, k1);
        } else {
            if node_at(t, q) is Some {
                let k = choose|k: int| 0 <= k < t.len() && t[k].path == q;
                let k0 = if k < i {
                    k
                } else {
                    k + 1
                };
                assert(s[k0].path == q);
                assert(false);
            }
        }
    }
}

/// Appending a node for an unregistered path preserves uniqueness.
pub proof fn lemma_unique_push(s: Seq<NodeV>, n: NodeV)
    requires
        unique_paths(s),
        !has_path(s, n.path),
    ensures
        unique_paths(s.push(n)),
{
    lemma_node_at_exists(s, n.path);
    assert forall|a: int, b: int| 0 <= a < b < s.push(n).len() implies s.push(n)[a].path != s.push(
        n,
    )[b].path by {
        if b < s.len() {
            assert(s.push(n)[a] == s[a] && s.push(n)[b] == s[b]);
        } else {
            assert(s.push(n)[a] == s[a] && s.push(n)[b] == n);
        }
    }
}

} // verus!
