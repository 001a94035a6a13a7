//! The collision-detection registry: for one namespace, a growing map from
//! hash to the canonical interned name, which refuses a second name under an
//! already-bound hash.

use vstd::prelude::*;
use core::marker::PhantomData;
use std::collections::HashMap;
use crate::text::str_eq;

verus! {

broadcast use vstd::std_specs::hash::group_hash_axioms;

/// A refused registration: `id` is already bound to `existing`, whose
/// contents differ from those of `rejected`.
pub struct Collision {
    /// The hash both names share.
    pub id: u64,
    /// The canonical name the registry already holds for `id`.
    pub existing: &'static str,
    /// The name whose registration was refused.
    pub rejected: &'static str,
}

/// The diagnostic a collision carries: the shared hash and both conflicting
/// names, spelled out.
pub open spec fn collision_message(id: u64, rejected: Seq<char>, existing: Seq<char>) -> Seq<char> {
    "duplicate hash value 0x"@ + crate::text::hex16(id) + " for strings "@ + rejected + " and "@
        + existing
}

impl Collision {
    /// The diagnostic line, naming the shared hash and both conflicting
    /// names.
    pub fn message(&self) -> (m: String)
        ensures
            m@ == collision_message(self.id, self.rejected@, self.existing@),
    {
        let mut m = String::new();
        m.append("duplicate hash value 0x");
        let hex = crate::text::hex16_string(self.id);
        m.append(hex.as_str());
        m.append(" for strings ");
        m.append(self.rejected);
        m.append(" and ");
        m.append(self.existing);
        m
    }
}

/// The registry of one namespace `Domain`: hash -> canonical interned name.
/// Entries are only ever added, never changed or removed.
pub struct Registry<Domain> {
    table: HashMap<u64, &'static str>,
    _marker: PhantomData<Domain>,
}

impl<Domain> View for Registry<Domain> {
    type V = Map<u64, Seq<char>>;

    closed spec fn view(&self) -> Map<u64, Seq<char>> {
        self.table@.map_values(|s: &'static str| s@)
    }
}

/// Whether registering `name` under `id` succeeds against registry contents
/// `m`: the hash must be free, or already bound to these same contents.
pub open spec fn can_intern(m: Map<u64, Seq<char>>, id: u64, name: Seq<char>) -> bool {
    m.contains_key(id) ==> m[id] == name
}

impl<Domain> Registry<Domain> {
    /// An empty registry.
    pub fn new() -> (r: Self)
        ensures
            r@ == Map::<u64, Seq<char>>::empty(),
    {
        let r = Registry { table: HashMap::new(), _marker: PhantomData };
        proof {
            assert(r@ =~= Map::<u64, Seq<char>>::empty());
        }
        r
    }

    /// How many hashes are bound.
    pub fn len(&self) -> (n: usize)
        ensures
            n == self@.len(),
    {
        proof {
            assert(self@.dom() =~= self.table@.dom());
        }
        self.table.len()
    }

    /// Find-or-insert: bind `id` to `name` if `id` is free; return the
    /// canonical stored name if `id` is already bound to equal contents; and
    /// report the collision, changing nothing, if `id` is bound to different
    /// contents.
    pub fn try_intern(&mut self, id: u64, name: &'static str) -> (r: Result<&'static str, Collision>)
        ensures
            match r {
                Ok(canonical) => {
                    &&& can_intern(old(self)@, id, name@)
                    &&& canonical@ == name@
                    &&& final(self)@ == old(self)@.insert(id, name@)
                },
                Err(c) => {
                    &&& !can_intern(old(self)@, id, name@)
                    &&& final(self)@ == old(self)@
                    &&& c.id == id
                    &&& c.rejected@ == name@
                    &&& c.existing@ == old(self)@[id]
                },
            },
    {
        let stored: Option<&'static str> = match self.table.get(&id) {
            Some(s) => Some(*s),
            None => None,
        };
        match stored {
            Some(existing) => {
                if str_eq(existing, name) {
                    proof {
                        assert(self@ =~= old(self)@.insert(id, name@));
                    }
                    Ok(existing)
                } else {
                    Err(Collision { id, existing, rejected: name })
                }
            },
            None => {
                self.table.insert(id, name);
                proof {
                    assert(self@ =~= old(self)@.insert(id, name@));
                }
                Ok(name)
            },
        }
    }

    /// Find-or-insert where the caller knows no collision can occur; returns
    /// the canonical name outright.
    pub fn intern(&mut self, id: u64, name: &'static str) -> (canonical: &'static str)
        requires
            can_intern(old(self)@, id, name@),
        ensures
            canonical@ == name@,
            final(self)@ == old(self)@.insert(id, name@),
    {
        match self.try_intern(id, name) {
            Ok(canonical) => canonical,
            Err(_) => vstd::pervasive::unreached(),
        }
    }
}

/// A registration never removes or changes an existing entry: every hash
/// bound before an accepted registration is bound to the same name after it.
pub proof fn lemma_registry_entries_permanent(m: Map<u64, Seq<char>>, id: u64, name: Seq<char>)
    requires
        can_intern(m, id, name),
    ensures
        forall|k: u64|
            m.contains_key(k) ==> #[trigger] m.insert(id, name).contains_key(k)
                && m.insert(id, name)[k] == m[k],
{
}

/// Registering the same name under the same hash again changes nothing and
/// is accepted again: repeated registrations converge on one canonical entry.
pub proof fn lemma_intern_idempotent(m: Map<u64, Seq<char>>, id: u64, name: Seq<char>)
    requires
        can_intern(m, id, name),
    ensures
        can_intern(m.insert(id, name), id, name),
        m.insert(id, name).insert(id, name) == m.insert(id, name),
{
    assert(m.insert(id, name).insert(id, name) =~= m.insert(id, name));
}

} // verus!
