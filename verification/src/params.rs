//! The parameter registry.
//!
//! A plugin declares its parameters once, in a fixed order, each under a
//! string identifier. The registry gives each the 32-bit identifier by which
//! the host addresses it, remembers the value it had when it was declared,
//! and finds a parameter again by its identifier. It never changes after it
//! was built.

use crate::hash::{
    bypass_hash, bypass_id, bypass_param_hash, hash_of, hash_param_id, is_bypass_id, str_equal,
};
use std::collections::HashMap;
use vstd::prelude::*;

verus! {

broadcast use vstd::std_specs::hash::group_hash_axioms;

/// One parameter as the plugin declares it.
#[derive(Debug, Clone)]
pub struct ParamDecl {
    /// The string identifier, which the plugin never changes.
    pub id: String,
    /// The name shown to the user.
    pub name: String,
    /// The number of steps of a discrete parameter; `None` for a continuous one.
    pub step_count: Option<u32>,
    /// The normalized value at declaration, as the bits of a single-precision float.
    pub normalized: u32,
}

/// Why a set of declared parameters was refused.
#[derive(Debug, Clone, Copy, PartialEq, Eq, Structural)]
pub enum RegistryError {
    /// The parameter at this position is declared under the identifier that
    /// is reserved for the bypass parameter.
    ReservedId { index: usize },
    /// The identifier of the parameter at this position hashes to the number
    /// that is reserved for the bypass parameter.
    ReservedHash { index: usize },
    /// There are more parameters than the host can count.
    TooMany,
}

/// The largest number of parameters an instance can declare. The host
/// enumerates them, and the bypass parameter behind them, by a signed 32-bit
/// index.
pub const MAX_PARAMS: usize = 0x7FFF_FFFE;

/// Whether the parameter at `index` is the first whose hash is the one
/// reserved for the bypass parameter.
pub open spec fn first_reserved(declared: Seq<ParamDecl>, index: int) -> bool {
    &&& 0 <= index < declared.len()
    &&& hash_of(declared[index].id@) == bypass_hash()
    &&& forall|j: int| 0 <= j < index ==> hash_of(#[trigger] declared[j].id@) != bypass_hash()
}

/// Whether a set of declared parameters can be registered: there are not too
/// many, and none has the hash reserved for the bypass parameter.
pub open spec fn acceptable(declared: Seq<ParamDecl>) -> bool {
    &&& declared.len() <= MAX_PARAMS
    &&& forall|j: int| 0 <= j < declared.len() ==> hash_of(#[trigger] declared[j].id@) != bypass_hash()
}

/// Whether `error` is the reason for which a set of declared parameters is
/// refused.
pub open spec fn refused_with(declared: Seq<ParamDecl>, error: RegistryError) -> bool {
    match error {
        RegistryError::TooMany => declared.len() > MAX_PARAMS,
        RegistryError::ReservedId { index } => {
            &&& declared.len() <= MAX_PARAMS
            &&& first_reserved(declared, index as int)
            &&& declared[index as int].id@ == bypass_id()
        },
        RegistryError::ReservedHash { index } => {
            &&& declared.len() <= MAX_PARAMS
            &&& first_reserved(declared, index as int)
            &&& declared[index as int].id@ != bypass_id()
        },
    }
}

/// A set of declared parameters is refused for at most one reason, and only
/// where it cannot be registered. One that holds the reserved identifier
/// cannot be registered.
pub proof fn lemma_refusal_is_exact(declared: Seq<ParamDecl>, a: RegistryError, b: RegistryError)
    ensures
        refused_with(declared, a) ==> !acceptable(declared),
        refused_with(declared, a) && refused_with(declared, b) ==> a == b,
        (exists|i: int| 0 <= i < declared.len() && (#[trigger] declared[i]).id@ == bypass_id())
            ==> !acceptable(declared),
{
    if refused_with(declared, a) && refused_with(declared, b) {
        match (a, b) {
            (RegistryError::TooMany, _) => {},
            (_, RegistryError::TooMany) => {},
            _ => {
                let i = match a {
                    RegistryError::ReservedId { index } => index,
                    RegistryError::ReservedHash { index } => index,
                    RegistryError::TooMany => 0,
                };
                let j = match b {
                    RegistryError::ReservedId { index } => index,
                    RegistryError::ReservedHash { index } => index,
                    RegistryError::TooMany => 0,
                };
                if i < j {
                    assert(hash_of(declared[i as int].id@) != bypass_hash());
                }
                if j < i {
                    assert(hash_of(declared[j as int].id@) != bypass_hash());
                }
            },
        }
    }
    if exists|i: int| 0 <= i < declared.len() && (#[trigger] declared[i]).id@ == bypass_id() {
        let i = choose|i: int| 0 <= i < declared.len() && (#[trigger] declared[i]).id@ == bypass_id();
        assert(hash_of(declared[i].id@) == bypass_hash());
    }
}

/// The position of the last of `hashes` that equals `hash`.
pub open spec fn last_index(hashes: Seq<u32>, hash: u32) -> Option<int>
    decreases hashes.len(),
{
    if hashes.len() == 0 {
        None
    } else if hashes.last() == hash {
        Some(hashes.len() - 1)
    } else {
        last_index(hashes.drop_last(), hash)
    }
}

/// The identifier hashes of declared parameters, in their order.
pub open spec fn hashes_of(declared: Seq<ParamDecl>) -> Seq<u32> {
    Seq::new(declared.len(), |i: int| hash_of(declared[i].id@))
}

/// What `last_index` finds is a position of the hash, and none lies behind it.
pub proof fn lemma_last_index(hashes: Seq<u32>, hash: u32)
    ensures
        match last_index(hashes, hash) {
            Some(i) => 0 <= i < hashes.len() && hashes[i] == hash && forall|j: int|
                i < j < hashes.len() ==> hashes[j] != hash,
            None => forall|j: int| 0 <= j < hashes.len() ==> hashes[j] != hash,
        },
    decreases hashes.len(),
{
    if hashes.len() > 0 && hashes.last() != hash {
        let front = hashes.drop_last();
        lemma_last_index(front, hash);
        assert forall|j: int| 0 <= j < front.len() implies front[j] == hashes[j] by {}
        match last_index(front, hash) {
            Some(i) => {
                assert forall|j: int| i < j < hashes.len() implies hashes[j] != hash by {
                    if j < front.len() {
                        assert(front[j] != hash);
                    }
                }
            },
            None => {
                assert forall|j: int| 0 <= j < hashes.len() implies hashes[j] != hash by {
                    if j < front.len() {
                        assert(front[j] != hash);
                    }
                }
            },
        }
    }
}

/// The position of the first of the declarations that has this identifier.
pub open spec fn position_of(declared: Seq<ParamDecl>, id: Seq<char>) -> Option<int>
    decreases declared.len(),
{
    if declared.len() == 0 {
        None
    } else if declared[0].id@ == id {
        Some(0)
    } else {
        match position_of(declared.drop_first(), id) {
            Some(k) => Some(k + 1),
            None => None,
        }
    }
}

/// What `position_of` finds has the identifier, and nothing before it has.
pub proof fn lemma_position_of(declared: Seq<ParamDecl>, id: Seq<char>)
    ensures
        match position_of(declared, id) {
            Some(k) => 0 <= k < declared.len() && declared[k].id@ == id && forall|j: int|
                0 <= j < k ==> (#[trigger] declared[j]).id@ != id,
            None => forall|j: int| 0 <= j < declared.len() ==> (#[trigger] declared[j]).id@ != id,
        },
    decreases declared.len(),
{
    if declared.len() > 0 && declared[0].id@ != id {
        let rest = declared.drop_first();
        lemma_position_of(rest, id);
        assert forall|j: int| 0 <= j < rest.len() implies rest[j] == declared[j + 1] by {}
        match position_of(rest, id) {
            Some(k) => {
                assert forall|j: int| 0 <= j < k + 1 implies (#[trigger] declared[j]).id@ != id by {
                    if j > 0 {
                        assert(rest[j - 1].id@ != id);
                    }
                }
            },
            None => {
                assert forall|j: int| 0 <= j < declared.len() implies (#[trigger] declared[j]).id@
                    != id by {
                    if j > 0 {
                        assert(rest[j - 1].id@ != id);
                    }
                }
            },
        }
    }
}

/// The declarations that the identifiers name, in the order of the
/// identifiers. An identifier that names no declaration is passed over.
pub open spec fn in_order(declared: Seq<ParamDecl>, ids: Seq<String>) -> Seq<ParamDecl>
    decreases ids.len(),
{
    if ids.len() == 0 {
        Seq::empty()
    } else {
        match position_of(declared, ids.last()@) {
            Some(k) => in_order(declared, ids.drop_last()).push(declared[k]),
            None => in_order(declared, ids.drop_last()),
        }
    }
}

/// Finds the first declaration with an identifier.
pub fn find_declared(declared: &Vec<ParamDecl>, id: &str) -> (found: Option<usize>)
    ensures
        match found {
            Some(k) => position_of(declared@, id@) == Some(k as int) && k < declared@.len(),
            None => position_of(declared@, id@) is None,
        },
{
    let mut i: usize = 0;
    while i < declared.len()
        invariant
            i <= declared@.len(),
            forall|j: int| 0 <= j < i ==> (#[trigger] declared@[j]).id@ != id@,
        decreases declared@.len() - i,
    {
        if str_equal(declared[i].id.as_str(), id) {
            proof {
                lemma_position_of(declared@, id@);
            }
            return Some(i);
        }
        i += 1;
    }
    proof {
        lemma_position_of(declared@, id@);
    }
    None
}

/// Lists the declarations that the identifiers name, in the order of the
/// identifiers.
pub fn declared_in_order(declared: &Vec<ParamDecl>, ids: &Vec<String>) -> (ordered: Vec<ParamDecl>)
    ensures
        ordered@ == in_order(declared@, ids@),
{
    let mut ordered: Vec<ParamDecl> = Vec::new();
    let mut i: usize = 0;
    while i < ids.len()
        invariant
            i <= ids@.len(),
            ordered@ == in_order(declared@, ids@.take(i as int)),
        decreases ids@.len() - i,
    {
        proof {
            assert(ids@.take(i + 1).drop_last() =~= ids@.take(i as int));
        }
        match find_declared(declared, ids[i].as_str()) {
            Some(k) => {
                let decl = &declared[k];
                ordered.push(
                    ParamDecl {
                        id: decl.id.clone(),
                        name: decl.name.clone(),
                        step_count: decl.step_count,
                        normalized: decl.normalized,
                    },
                );
            },
            None => {},
        }
        i += 1;
    }
    proof {
        assert(ids@.take(i as int) =~= ids@);
    }
    ordered
}

/// Whether the plugin's declarations, taken in the order of the
/// identifiers, are refused for this reason. A declaration under the
/// reserved identifier is refused even where the identifiers do not name it;
/// the error then gives its position among the declarations.
pub open spec fn map_refused_with(
    declared: Seq<ParamDecl>,
    ids: Seq<String>,
    error: RegistryError,
) -> bool {
    match position_of(declared, bypass_id()) {
        Some(k) => error == (RegistryError::ReservedId { index: k as usize }),
        None => refused_with(in_order(declared, ids), error),
    }
}

/// Whether the plugin's declarations, taken in the order of the
/// identifiers, can be registered.
pub open spec fn map_acceptable(declared: Seq<ParamDecl>, ids: Seq<String>) -> bool {
    position_of(declared, bypass_id()) is None && acceptable(in_order(declared, ids))
}

/// A plugin that declares a parameter under the reserved identifier is
/// refused, whatever the order of the identifiers, and for that reason.
pub proof fn lemma_declared_bypass_is_refused(
    declared: Seq<ParamDecl>,
    ids: Seq<String>,
    i: int,
    error: RegistryError,
)
    requires
        0 <= i < declared.len(),
        declared[i].id@ == bypass_id(),
    ensures
        !map_acceptable(declared, ids),
        position_of(declared, bypass_id()) is Some,
        map_refused_with(declared, ids, error) <==> error == (RegistryError::ReservedId {
            index: position_of(declared, bypass_id())->Some_0 as usize,
        }),
{
    lemma_position_of(declared, bypass_id());
}

/// The parameters of one plugin instance, addressed by identifier hash.
#[derive(Debug)]
pub struct Registry {
    params: Vec<ParamDecl>,
    param_hashes: Vec<u32>,
    param_by_hash: HashMap<u32, usize>,
}

impl Registry {
    /// The declared parameters, in declaration order.
    pub closed spec fn view(&self) -> Seq<ParamDecl> {
        self.params@
    }

    /// The identifier hashes, in declaration order.
    pub open spec fn hashes(&self) -> Seq<u32> {
        hashes_of(self@)
    }

    /// The position of the parameter that a hash addresses. Where two
    /// identifiers share a hash, it addresses the one declared last.
    pub open spec fn index_of(&self, hash: u32) -> Option<int> {
        last_index(self.hashes(), hash)
    }

    /// The stored hashes and the lookup table agree with the declarations,
    /// and no parameter has the hash of the bypass parameter.
    pub closed spec fn wf(&self) -> bool {
        &&& self.param_hashes@ == hashes_of(self.params@)
        &&& acceptable(self.params@)
        &&& forall|h: u32| #[trigger]
            self.param_by_hash@.contains_key(h) <==> last_index(self.param_hashes@, h) is Some
        &&& forall|h: u32| #[trigger]
            self.param_by_hash@.contains_key(h) ==> Some(self.param_by_hash@[h] as int)
                == last_index(self.param_hashes@, h)
    }

    /// In a well-formed registry no parameter is addressed by the hash of the
    /// bypass parameter, and none is declared under its identifier.
    pub proof fn lemma_bypass_is_free(&self)
        requires
            self.wf(),
        ensures
            acceptable(self@),
            self@.len() <= MAX_PARAMS,
            self.index_of(bypass_hash()) is None,
            forall|i: int| 0 <= i < self@.len() ==> self.hashes()[i] != bypass_hash(),
            forall|i: int| 0 <= i < self@.len() ==> self@[i].id@ != bypass_id(),
    {
        lemma_last_index(self.hashes(), bypass_hash());
        assert forall|i: int| 0 <= i < self@.len() implies self.hashes()[i] != bypass_hash() by {
            assert(hash_of(self.params@[i].id@) != bypass_hash());
        }
        assert forall|i: int| 0 <= i < self@.len() implies self@[i].id@ != bypass_id() by {
            assert(hash_of(self.params@[i].id@) != bypass_hash());
        }
    }

    /// Builds the registry of the declared parameters. The declaration is
    /// refused where a parameter has the hash of the bypass parameter; the
    /// error names the first such parameter and tells whether it was declared
    /// under the reserved identifier itself.
    pub fn new(declared: Vec<ParamDecl>) -> (r: Result<Registry, RegistryError>)
        ensures
            match r {
                Ok(registry) => acceptable(declared@) && registry.wf() && registry@ == declared@,
                Err(error) => refused_with(declared@, error),
            },
    {
        if declared.len() > MAX_PARAMS {
            return Err(RegistryError::TooMany);
        }
        let reserved = bypass_param_hash();
        let mut param_hashes: Vec<u32> = Vec::new();
        let mut param_by_hash: HashMap<u32, usize> = HashMap::new();
        let mut i: usize = 0;
        while i < declared.len()
            invariant
                i <= declared@.len(),
                declared@.len() <= MAX_PARAMS,
                reserved == bypass_hash(),
                param_hashes@ == hashes_of(declared@.take(i as int)),
                forall|j: int| 0 <= j < i ==> hash_of(#[trigger] declared@[j].id@) != bypass_hash(),
                forall|h: u32| #[trigger]
                    param_by_hash@.contains_key(h) <==> last_index(param_hashes@, h) is Some,
                forall|h: u32| #[trigger]
                    param_by_hash@.contains_key(h) ==> Some(param_by_hash@[h] as int)
                        == last_index(param_hashes@, h),
            decreases declared@.len() - i,
        {
            let hash = hash_param_id(declared[i].id.as_str());
            if hash == reserved {
                if is_bypass_id(declared[i].id.as_str()) {
                    return Err(RegistryError::ReservedId { index: i });
                } else {
                    return Err(RegistryError::ReservedHash { index: i });
                }
            }
            proof {
                let before = param_hashes@;
                let after = before.push(hash);
                assert(after.drop_last() =~= before);
                assert(after =~= hashes_of(declared@.take(i + 1)));
                assert forall|h: u32| h != hash implies last_index(after, h) == last_index(
                    before,
                    h,
                ) by {}
                assert(last_index(after, hash) == Some(i as int));
            }
            param_hashes.push(hash);
            param_by_hash.insert(hash, i);
            i += 1;
        }
        proof {
            assert(declared@.take(i as int) =~= declared@);
        }
        Ok(Registry { params: declared, param_hashes, param_by_hash })
    }

    /// Builds the registry from the plugin's declarations and the order of
    /// their identifiers. The host enumerates the parameters in that order.
    pub fn from_map(declared: &Vec<ParamDecl>, ids: &Vec<String>) -> (r: Result<
        Registry,
        RegistryError,
    >)
        ensures
            match r {
                Ok(registry) => map_acceptable(declared@, ids@) && registry.wf() && registry@
                    == in_order(declared@, ids@),
                Err(error) => map_refused_with(declared@, ids@, error),
            },
    {
        match find_declared(declared, crate::hash::BYPASS_PARAM_ID) {
            Some(index) => Err(RegistryError::ReservedId { index }),
            None => Registry::new(declared_in_order(declared, ids)),
        }
    }

    /// The number of declared parameters.
    pub fn len(&self) -> (n: usize)
        ensures
            n == self@.len(),
    {
        self.params.len()
    }

    /// The identifier hashes of the parameters, in declaration order. The
    /// host enumerates the parameters in this order.
    pub fn param_hashes(&self) -> (hashes: &Vec<u32>)
        requires
            self.wf(),
        ensures
            hashes@ == self.hashes(),
    {
        &self.param_hashes
    }

    /// The identifier hash of the parameter declared under a string
    /// identifier, for storing and restoring state by identifier.
    pub fn hash_of_id(&self, id: &str) -> (hash: Option<u32>)
        requires
            self.wf(),
        ensures
            hash == match position_of(self@, id@) {
                Some(_) => Some(hash_of(id@)),
                None => None,
            },
    {
        match find_declared(&self.params, id) {
            Some(index) => {
                proof {
                    lemma_position_of(self@, id@);
                }
                Some(self.param_hashes[index])
            },
            None => None,
        }
    }

    /// Finds the position of the parameter that a hash addresses.
    pub fn lookup(&self, hash: u32) -> (found: Option<usize>)
        requires
            self.wf(),
        ensures
            match found {
                Some(index) => self.index_of(hash) == Some(index as int) && index < self@.len(),
                None => self.index_of(hash) is None,
            },
    {
        proof {
            lemma_last_index(self.hashes(), hash);
        }
        match self.param_by_hash.get(&hash) {
            Some(index) => Some(*index),
            None => None,
        }
    }

    /// The parameter at a position.
    pub fn param(&self, index: usize) -> (decl: &ParamDecl)
        requires
            index < self@.len(),
        ensures
            *decl == self@[index as int],
    {
        &self.params[index]
    }

    /// The normalized value that the parameter addressed by a hash had when
    /// it was declared.
    pub fn default_normalized(&self, hash: u32) -> (value: Option<u32>)
        requires
            self.wf(),
        ensures
            value == match self.index_of(hash) {
                Some(index) => Some(self@[index].normalized),
                None => None,
            },
    {
        match self.lookup(hash) {
            Some(index) => Some(self.params[index].normalized),
            None => None,
        }
    }
}

} // verus!
