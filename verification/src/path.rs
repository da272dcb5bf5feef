//! Absolute-path relations used by directory listing and recursive delete.
//!
//! Paths are absolute: a leading slash, then slash-separated components.
//! Listing a directory must pick out exactly the entries one level below it;
//! recursive deletion must pick out everything strictly below it.

use vstd::prelude::*;
use vstd::string::StrSliceExecFns;

verus! {

/// `p` names an entry directly inside directory `dir`: `dir`, a slash, then
/// at least one character with no further slash.
pub open spec fn direct_child(dir: Seq<char>, p: Seq<char>) -> bool {
    if dir == seq!['/'] {
        &&& p.len() >= 2
        &&& p[0] == '/'
        &&& forall|k: int| 1 <= k < p.len() ==> p[k] != '/'
    } else {
        &&& p.len() >= dir.len() + 2
        &&& p.subrange(0, dir.len() as int) == dir
        &&& p[dir.len() as int] == '/'
        &&& forall|k: int| dir.len() + 1 <= k < p.len() ==> p[k] != '/'
    }
}

/// `p` lies strictly below directory `dir`: `dir`, a slash, then at least
/// one more character.
pub open spec fn descendant_of(dir: Seq<char>, p: Seq<char>) -> bool {
    if dir == seq!['/'] {
        p.len() >= 2 && p[0] == '/'
    } else {
        &&& p.len() >= dir.len() + 2
        &&& p.subrange(0, dir.len() as int) == dir
        &&& p[dir.len() as int] == '/'
    }
}

/// Decides [`direct_child`] for string paths.
#[verifier::loop_isolation(false)]
pub fn is_direct_child(dir: &str, p: &str) -> (r: bool)
    ensures
        r == direct_child(dir@, p@),
{
    let dlen = dir.unicode_len();
    let plen = p.unicode_len();
    if dlen == 1 && dir.get_char(0) == '/' {
        proof {
            assert(dir@ =~= seq!['/']);
        }
        if plen < 2 {
            return false;
        }
        if p.get_char(0) != '/' {
            return false;
        }
        let mut k: usize = 1;
        while k < plen
            invariant
                1 <= k <= plen,
                plen == p@.len(),
                forall|j: int| 1 <= j < k ==> p@[j] != '/',
            decreases plen - k,
        {
            if p.get_char(k) == '/' {
                return false;
            }
            k += 1;
        }
        true
    } else {
        proof {
            assert(dir@ != seq!['/']) by {
                if dir@ == seq!['/'] {
                    assert(dir@.len() == 1 && dir@[0] == '/');
                }
            }
        }
        if plen <= dlen {
            return false;
        }
        if plen - dlen < 2 {
            return false;
        }
        let mut j: usize = 0;
        while j < dlen
            invariant
                j <= dlen,
                dlen == dir@.len(),
                plen == p@.len(),
                plen >= dlen + 2,
                forall|t: int| 0 <= t < j ==> p@[t] == dir@[t],
            decreases dlen - j,
        {
            if p.get_char(j) != dir.get_char(j) {
                proof {
                    assert(p@.subrange(0, dir@.len() as int)[j as int] != dir@[j as int]);
                }
                return false;
            }
            j += 1;
        }
        if p.get_char(dlen) != '/' {
            return false;
        }
        let mut k: usize = dlen + 1;
        while k < plen
            invariant
                dlen + 1 <= k <= plen,
                dlen == dir@.len(),
                plen == p@.len(),
                forall|t: int| dlen + 1 <= t < k ==> p@[t] != '/',
            decreases plen - k,
        {
            if p.get_char(k) == '/' {
                return false;
            }
            k += 1;
        }
        proof {
            assert(p@.subrange(0, dir@.len() as int) =~= dir@);
        }
        true
    }
}

/// Decides [`descendant_of`] for string paths.
#[verifier::loop_isolation(false)]
pub fn is_descendant(dir: &str, p: &str) -> (r: bool)
    ensures
        r == descendant_of(dir@, p@),
{
    let dlen = dir.unicode_len();
    let plen = p.unicode_len();
    if dlen == 1 && dir.get_char(0) == '/' {
        proof {
            assert(dir@ =~= seq!['/']);
        }
        plen >= 2 && p.get_char(0) == '/'
    } else {
        proof {
            assert(dir@ != seq!['/']) by {
                if dir@ == seq!['/'] {
                    assert(dir@.len() == 1 && dir@[0] == '/');
                }
            }
        }
        if plen <= dlen {
            return false;
        }
        if plen - dlen < 2 {
            return false;
        }
        let mut j: usize = 0;
        while j < dlen
            invariant
                j <= dlen,
                dlen == dir@.len(),
                plen == p@.len(),
                plen >= dlen + 2,
                forall|t: int| 0 <= t < j ==> p@[t] == dir@[t],
            decreases dlen - j,
        {
            if p.get_char(j) != dir.get_char(j) {
                proof {
                    assert(p@.subrange(0, dir@.len() as int)[j as int] != dir@[j as int]);
                }
                return false;
            }
            j += 1;
        }
        if p.get_char(dlen) != '/' {
            return false;
        }
        proof {
            assert(p@.subrange(0, dir@.len() as int) =~= dir@);
        }
        true
    }
}

} // verus!
