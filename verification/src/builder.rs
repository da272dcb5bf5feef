//! The connection builder.
//!
//! A builder accumulates session configuration — name-node target, user
//! name, arbitrary key/value pairs, a forced-new-instance flag — and is
//! consumed by exactly one [`HdfsBuilder::connect`] call, which takes it by
//! value: a connected builder cannot be touched again, by the types rather
//! than by a run-time check.
//!
//! The native builder records the raw addresses of the strings it is given
//! instead of copying them, so every configured string is interned in the
//! builder's own [`StringPool`]: the pool's contract keeps each entry alive
//! and in place for as long as the builder, exactly what the native layer
//! needs, and its view shows every string ever handed over, in order.

use vstd::prelude::*;
use vstd::string::StringSliceAdditionalSpecFns;

use crate::cstr::c_bytes_of;
use crate::cstr::contains_nul;
use crate::cstr::nul_free;
use crate::cstr::StringPool;
use crate::error::HdfsError;
use crate::error::HdfsErrorKind;
use crate::fs::HdfsConnection;
use crate::namespace::dir_node;

verus! {

/// The mathematical image of a builder: every pooled native string, and the
/// configuration gathered so far.
pub struct BuilderV {
    pub pool: Seq<Seq<u8>>,
    pub name_node: Option<Seq<char>>,
    pub user: Option<Seq<char>>,
    pub conf: Seq<(Seq<char>, Seq<char>)>,
    pub force_new: bool,
}

/// Builds a filesystem session.
pub struct HdfsBuilder {
    pool: StringPool,
    name_node: Option<String>,
    user: Option<String>,
    conf: Vec<(String, String)>,
    force_new: bool,
}

impl View for HdfsBuilder {
    type V = BuilderV;

    closed spec fn view(&self) -> BuilderV {
        BuilderV {
            pool: self.pool@,
            name_node: match self.name_node {
                Some(s) => Some(s@),
                None => None,
            },
            user: match self.user {
                Some(s) => Some(s@),
                None => None,
            },
            conf: self.conf.deep_view(),
            force_new: self.force_new,
        }
    }
}

/// The user a builder's configuration selects: the configured name, or the
/// empty name when none was set.
pub open spec fn user_of(v: BuilderV) -> Seq<char> {
    match v.user {
        Some(u) => u,
        None => Seq::<char>::empty(),
    }
}

impl HdfsBuilder {
    /// Well-formedness: the pool holds well-formed native strings.
    pub closed spec fn inv(&self) -> bool {
        self.pool.wf()
    }

    /// A fresh builder with nothing configured.
    pub fn new() -> (r: HdfsBuilder)
        ensures
            r.inv(),
            r@ == (BuilderV {
                pool: Seq::<Seq<u8>>::empty(),
                name_node: None,
                user: None,
                conf: Seq::<(Seq<char>, Seq<char>)>::empty(),
                force_new: false,
            }),
    {
        let r = HdfsBuilder {
            pool: StringPool::new(),
            name_node: None,
            user: None,
            conf: Vec::new(),
            force_new: false,
        };
        proof {
            assert(r.conf.deep_view() =~~= Seq::<(Seq<char>, Seq<char>)>::empty());
        }
        r
    }

    /// Records a configuration property. Both strings are interned — their
    /// native forms stay alive and in place for the builder's whole life —
    /// and a string the native representation cannot express is rejected
    /// before anything is recorded.
    pub fn conf_set(&mut self, key: &str, value: &str) -> (r: Result<(), HdfsError>)
        requires
            old(self).inv(),
        ensures
            final(self).inv(),
            r is Ok <==> nul_free(key.spec_bytes()) && nul_free(value.spec_bytes()),
            r is Ok ==> final(self)@ == (BuilderV {
                pool: old(self)@.pool.push(c_bytes_of(key)).push(c_bytes_of(value)),
                conf: old(self)@.conf.push((key@, value@)),
                ..old(self)@
            }),
            r is Err ==> final(self)@ == old(self)@ && r->Err_0.kind == HdfsErrorKind::InvalidInput,
    {
        if contains_nul(key) || contains_nul(value) {
            return Err(
                HdfsError::invalid_input(
                    "configuration strings cannot hold a terminator byte".to_owned(),
                ),
            );
        }
        let _ = self.pool.str_to_cstr_pooled(key);
        let _ = self.pool.str_to_cstr_pooled(value);
        self.conf.push((key.to_owned(), value.to_owned()));
        proof {
            assert(self.conf.deep_view() =~~= old(self).conf.deep_view().push((key@, value@)));
        }
        Ok(())
    }

    /// Asks for a fresh native instance instead of a cached one.
    pub fn force_new_instance(&mut self)
        requires
            old(self).inv(),
        ensures
            final(self).inv(),
            final(self)@ == (BuilderV { force_new: true, ..old(self)@ }),
    {
        self.force_new = true;
    }

    /// Selects the name node: `None` is the local filesystem, `Some` names
    /// the site default or a `host[:port]`. A given name is interned like
    /// every other configured string, and must be expressible.
    pub fn name_node(&mut self, host: Option<&str>)
        requires
            old(self).inv(),
            host is Some ==> nul_free(host->0.spec_bytes()),
        ensures
            final(self).inv(),
            final(self)@ == (BuilderV {
                name_node: match host {
                    Some(h) => Some(h@),
                    None => None,
                },
                pool: match host {
                    Some(h) => old(self)@.pool.push(c_bytes_of(h)),
                    None => old(self)@.pool,
                },
                ..old(self)@
            }),
    {
        match host {
            Some(h) => {
                let _ = self.pool.str_to_cstr_pooled(h);
                self.name_node = Some(h.to_owned());
            },
            None => {
                self.name_node = None;
            },
        }
    }

    /// Selects the user to connect as. The name is interned like every
    /// other configured string, and must be expressible.
    pub fn user_name(&mut self, name: &str)
        requires
            old(self).inv(),
            nul_free(name.spec_bytes()),
        ensures
            final(self).inv(),
            final(self)@ == (BuilderV {
                user: Some(name@),
                pool: old(self)@.pool.push(c_bytes_of(name)),
                ..old(self)@
            }),
    {
        let _ = self.pool.str_to_cstr_pooled(name);
        self.user = Some(name.to_owned());
    }

    /// Connects, consuming the builder — it cannot be connected twice, by
    /// the types rather than by a run-time check. The session starts with
    /// only the root directory, owned by the configured user.
    pub fn connect(self) -> (r: Result<HdfsConnection, HdfsError>)
        ensures
            r is Ok,
            r->Ok_0.inv(),
            r->Ok_0.spec_user() == user_of(self@),
            r->Ok_0@ == seq![dir_node(seq!['/'], user_of(self@))],
    {
        let user = match self.user {
            Some(u) => u,
            None => String::new(),
        };
        proof {
            assert(user@ == user_of(self@));
        }
        Ok(HdfsConnection::new_with_user(user))
    }
}

impl HdfsConnection {
    /// A builder for creating a session; the same as [`HdfsBuilder::new`].
    pub fn builder() -> (r: HdfsBuilder)
        ensures
            r.inv(),
            r@ == (BuilderV {
                pool: Seq::<Seq<u8>>::empty(),
                name_node: None,
                user: None,
                conf: Seq::<(Seq<char>, Seq<char>)>::empty(),
                force_new: false,
            }),
    {
        HdfsBuilder::new()
    }
}

} // verus!
