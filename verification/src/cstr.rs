//! Native-compatible strings and the pool that keeps them alive.
//!
//! The native layer takes null-terminated byte strings and, for builder
//! configuration, records the raw addresses of those strings instead of
//! copying them. Two obligations follow. A string holding a terminator byte
//! cannot be expressed at all and must be rejected before any native call.
//! And every string whose address was handed to the native layer must stay
//! alive and in place for as long as the native object does: the pool below
//! is append-only — entries are only ever added, never moved, changed or
//! dropped, so an address handed out for entry `i` stays valid.

use vstd::prelude::*;
use vstd::string::StringSliceAdditionalSpecFns;

use crate::error::HdfsError;
use crate::error::HdfsErrorKind;

verus! {

/// No terminator byte anywhere in `bytes`.
pub open spec fn nul_free(bytes: Seq<u8>) -> bool {
    forall|i: int| 0 <= i < bytes.len() ==> bytes[i] != 0
}

/// The native form of `s`: its bytes followed by one terminator byte.
pub open spec fn c_bytes_of(s: &str) -> Seq<u8> {
    s.spec_bytes().push(0)
}

/// Whether `s` holds a terminator byte, which the native representation
/// cannot express.
pub fn contains_nul(s: &str) -> (r: bool)
    ensures
        r == !nul_free(s.spec_bytes()),
{
    let bytes = s.as_bytes();
    let n = bytes.len();
    let mut i: usize = 0;
    while i < n
        invariant
            n == s.spec_bytes().len(),
            bytes@ == s.spec_bytes(),
            i <= n,
            forall|j: int| 0 <= j < i ==> s.spec_bytes()[j] != 0,
        decreases n - i,
    {
        if bytes[i] == 0 {
            return true;
        }
        i += 1;
    }
    false
}

/// Builds the native null-terminated copy of `s`, rejecting strings that the
/// native representation cannot express.
pub fn try_to_c_bytes(s: &str) -> (r: Result<Vec<u8>, HdfsError>)
    ensures
        r is Ok <==> nul_free(s.spec_bytes()),
        r is Ok ==> r->Ok_0@ == c_bytes_of(s),
        r is Err ==> r->Err_0.kind == HdfsErrorKind::InvalidInput,
{
    let bytes = s.as_bytes();
    let n = bytes.len();
    let mut out: Vec<u8> = Vec::new();
    let mut i: usize = 0;
    while i < n
        invariant
            n == s.spec_bytes().len(),
            bytes@ == s.spec_bytes(),
            i <= n,
            out@ == s.spec_bytes().subrange(0, i as int),
            nul_free(s.spec_bytes().subrange(0, i as int)),
        decreases n - i,
    {
        let b = bytes[i];
        if b == 0 {
            return Err(HdfsError::invalid_input("string contains a terminator byte".to_owned()));
        }
        out.push(b);
        i += 1;
        proof {
            assert(out@ =~= s.spec_bytes().subrange(0, i as int));
        }
    }
    proof {
        assert(s.spec_bytes().subrange(0, n as int) =~= s.spec_bytes());
    }
    out.push(0);
    Ok(out)
}

/// Builds the native null-terminated copy of `s`. The caller must already
/// know that `s` can be expressed; a string with an embedded terminator is
/// outside this function's domain.
pub fn str_to_cstr(s: &str) -> (r: Vec<u8>)
    requires
        nul_free(s.spec_bytes()),
    ensures
        r@ == c_bytes_of(s),
{
    match try_to_c_bytes(s) {
        Ok(v) => v,
        Err(_) => {
            proof {
                assert(false);
            }
            Vec::new()
        },
    }
}

/// An append-only pool of native strings.
///
/// The view is the sequence of entries, each a null-terminated byte string.
/// Every operation promises that existing entries are left exactly as they
/// are: the native layer may hold raw addresses into them.
pub struct StringPool {
    entries: Vec<Vec<u8>>,
}

impl View for StringPool {
    type V = Seq<Seq<u8>>;

    closed spec fn view(&self) -> Seq<Seq<u8>> {
        self.entries.deep_view()
    }
}

impl StringPool {
    /// Every entry is a well-formed native string: terminated, with no
    /// terminator byte before the end.
    pub open spec fn wf(&self) -> bool {
        forall|i: int| 0 <= i < self@.len() ==> {
            &&& self@[i].len() >= 1
            &&& self@[i].last() == 0u8
            &&& nul_free(self@[i].drop_last())
        }
    }

    /// A fresh, empty pool.
    pub fn new() -> (r: StringPool)
        ensures
            r@ == Seq::<Seq<u8>>::empty(),
            r.wf(),
    {
        let r = StringPool { entries: Vec::new() };
        proof {
            assert(r@ =~= Seq::<Seq<u8>>::empty());
        }
        r
    }

    /// How many entries the pool holds.
    pub fn len(&self) -> (r: usize)
        ensures
            r == self@.len(),
    {
        self.entries.len()
    }

    /// The entry at index `i`, for handing its address to the native layer.
    pub fn entry(&self, i: usize) -> (r: &Vec<u8>)
        requires
            i < self@.len(),
        ensures
            r@ == self@[i as int],
    {
        &self.entries[i]
    }

    /// Interns `s`: appends its native form and returns the new entry's
    /// index. Rejects a string with an embedded terminator, leaving the pool
    /// unchanged. Either way, every existing entry is untouched, so addresses
    /// the native layer already recorded stay valid.
    pub fn intern(&mut self, s: &str) -> (r: Result<usize, HdfsError>)
        requires
            old(self).wf(),
        ensures
            final(self).wf(),
            r is Ok <==> nul_free(s.spec_bytes()),
            r is Ok ==> final(self)@ == old(self)@.push(c_bytes_of(s)) && r->Ok_0
                == old(self)@.len(),
            r is Err ==> final(self)@ == old(self)@ && r->Err_0.kind == HdfsErrorKind::InvalidInput,
            forall|i: int| 0 <= i < old(self)@.len() ==> final(self)@[i] == old(self)@[i],
    {
        match try_to_c_bytes(s) {
            Ok(v) => {
                let idx = self.entries.len();
                self.entries.push(v);
                proof {
                    assert(self@ =~~= old(self)@.push(c_bytes_of(s)));
                    assert(self@.last() == c_bytes_of(s));
                    assert(c_bytes_of(s).drop_last() =~= s.spec_bytes());
                }
                Ok(idx)
            },
            Err(e) => Err(e),
        }
    }

    /// Interns `s`, whose native form the caller already knows to exist.
    /// This is the pooled counterpart of [`str_to_cstr`].
    pub fn str_to_cstr_pooled(&mut self, s: &str) -> (r: usize)
        requires
            old(self).wf(),
            nul_free(s.spec_bytes()),
        ensures
            final(self).wf(),
            final(self)@ == old(self)@.push(c_bytes_of(s)),
            r == old(self)@.len(),
            forall|i: int| 0 <= i < old(self)@.len() ==> final(self)@[i] == old(self)@[i],
    {
        match self.intern(s) {
            Ok(idx) => idx,
            Err(_) => {
                proof {
                    assert(false);
                }
                0
            },
        }
    }

    /// Interns an optional string, following the native optional-argument
    /// convention: an absent value stands for the null pointer and adds no
    /// entry; a present value is interned like [`StringPool::intern`].
    pub fn intern_opt(&mut self, s: Option<&str>) -> (r: Result<Option<usize>, HdfsError>)
        requires
            old(self).wf(),
        ensures
            final(self).wf(),
            s is None ==> r == Result::<Option<usize>, HdfsError>::Ok(None) && final(self)@ == old(
                self,
            )@,
            s is Some ==> {
                &&& (r is Ok <==> nul_free(s->0.spec_bytes()))
                &&& r is Ok ==> final(self)@ == old(self)@.push(c_bytes_of(s->0)) && r->Ok_0
                    == Some(old(self)@.len() as usize)
                &&& r is Err ==> final(self)@ == old(self)@ && r->Err_0.kind
                    == HdfsErrorKind::InvalidInput
            },
            forall|i: int| 0 <= i < old(self)@.len() ==> final(self)@[i] == old(self)@[i],
    {
        match s {
            None => Ok(None),
            Some(st) => {
                match self.intern(st) {
                    Ok(idx) => Ok(Some(idx)),
                    Err(e) => Err(e),
                }
            },
        }
    }
}

} // verus!
