//! The two label types: a compile-time-style constant form that is not yet
//! registered, and the canonical runtime form whose hash has been checked
//! against the namespace's registry.

use vstd::prelude::*;
use core::marker::PhantomData;
use crate::fnv::{fnv1a_hash_str_64, label_hash};
use crate::registry::{can_intern, Collision, Registry};
use vstd::std_specs::cmp::PartialEqSpec;

verus! {

/// A label fixed ahead of time: a name and its hash, computed with no
/// registry interaction. Registration happens when it is upgraded.
#[derive(Debug)]
pub struct ConstLabel<Domain> {
    id: u64,
    name: &'static str,
    _marker: PhantomData<Domain>,
}

/// The canonical label of namespace `Domain`: a hash, the interned name it
/// stands for, and the namespace tag. Equality is hash equality; labels of
/// different namespaces cannot be compared at all.
#[derive(Debug)]
pub struct Label<Domain> {
    id: u64,
    name: &'static str,
    _marker: PhantomData<Domain>,
}

impl<Domain> ConstLabel<Domain> {
    /// The label's hash.
    pub closed spec fn spec_id(&self) -> u64 {
        self.id
    }

    /// The label's name, as its character contents.
    pub closed spec fn spec_name(&self) -> Seq<char> {
        self.name@
    }

    /// A well-formed label's hash is the hash of its name.
    pub open spec fn wf(&self) -> bool {
        self.spec_id() == label_hash(self.spec_name())
    }

    /// Build a constant label: hash the name, touch no registry.
    pub fn new(name: &'static str) -> (r: Self)
        ensures
            r.wf(),
            r.spec_name() == name@,
            r.spec_id() == label_hash(name@),
    {
        ConstLabel { id: fnv1a_hash_str_64(name), name, _marker: PhantomData }
    }

    /// The hash this label was built with.
    pub fn id(&self) -> (r: u64)
        ensures
            r == self.spec_id(),
    {
        self.id
    }

    /// The name this label was built with.
    pub fn name(&self) -> (r: &str)
        ensures
            r@ == self.spec_name(),
    {
        self.name
    }

    /// Upgrade to a runtime label, registering the hash eagerly; on a
    /// collision the registry is left unchanged and the conflict reported.
    pub fn try_label(self, registry: &mut Registry<Domain>) -> (r: Result<Label<Domain>, Collision>)
        ensures
            match r {
                Ok(l) => {
                    &&& can_intern(old(registry)@, self.spec_id(), self.spec_name())
                    &&& l.spec_id() == self.spec_id()
                    &&& l.spec_name() == self.spec_name()
                    &&& final(registry)@ == old(registry)@.insert(self.spec_id(), self.spec_name())
                },
                Err(c) => {
                    &&& !can_intern(old(registry)@, self.spec_id(), self.spec_name())
                    &&& final(registry)@ == old(registry)@
                    &&& c.id == self.spec_id()
                    &&& c.rejected@ == self.spec_name()
                    &&& c.existing@ == old(registry)@[self.spec_id()]
                },
            },
    {
        match registry.try_intern(self.id, self.name) {
            Ok(canonical) => Ok(Label { id: self.id, name: canonical, _marker: PhantomData }),
            Err(c) => Err(c),
        }
    }

    /// Upgrade to a runtime label where the caller knows the hash is free or
    /// already bound to this same name.
    pub fn label(self, registry: &mut Registry<Domain>) -> (l: Label<Domain>)
        requires
            can_intern(old(registry)@, self.spec_id(), self.spec_name()),
        ensures
            l.spec_id() == self.spec_id(),
            l.spec_name() == self.spec_name(),
            self.wf() ==> l.wf(),
            final(registry)@ == old(registry)@.insert(self.spec_id(), self.spec_name()),
    {
        match self.try_label(registry) {
            Ok(l) => l,
            Err(_) => vstd::pervasive::unreached(),
        }
    }
}

impl<Domain> Label<Domain> {
    /// The label's hash: the sole basis of its equality.
    pub closed spec fn spec_id(&self) -> u64 {
        self.id
    }

    /// The label's name, as its character contents.
    pub closed spec fn spec_name(&self) -> Seq<char> {
        self.name@
    }

    /// A well-formed label's hash is the hash of its name.
    pub open spec fn wf(&self) -> bool {
        self.spec_id() == label_hash(self.spec_name())
    }

    /// Build a label from a name with process lifetime: hash it and register
    /// the hash; on a collision the registry is left unchanged and the
    /// conflict reported.
    pub fn try_new(registry: &mut Registry<Domain>, name: &'static str) -> (r: Result<Self, Collision>)
        ensures
            match r {
                Ok(l) => {
                    &&& can_intern(old(registry)@, label_hash(name@), name@)
                    &&& l.wf()
                    &&& l.spec_name() == name@
                    &&& l.spec_id() == label_hash(name@)
                    &&& final(registry)@ == old(registry)@.insert(label_hash(name@), name@)
                },
                Err(c) => {
                    &&& !can_intern(old(registry)@, label_hash(name@), name@)
                    &&& final(registry)@ == old(registry)@
                    &&& c.id == label_hash(name@)
                    &&& c.rejected@ == name@
                    &&& c.existing@ == old(registry)@[label_hash(name@)]
                },
            },
    {
        let id = fnv1a_hash_str_64(name);
        match registry.try_intern(id, name) {
            Ok(canonical) => Ok(Label { id, name: canonical, _marker: PhantomData }),
            Err(c) => Err(c),
        }
    }

    /// Build a label from a name with process lifetime, where the caller
    /// knows the hash is free or already bound to this same name.
    pub fn new(registry: &mut Registry<Domain>, name: &'static str) -> (l: Self)
        requires
            can_intern(old(registry)@, label_hash(name@), name@),
        ensures
            l.wf(),
            l.spec_name() == name@,
            l.spec_id() == label_hash(name@),
            final(registry)@ == old(registry)@.insert(label_hash(name@), name@),
    {
        match Self::try_new(registry, name) {
            Ok(l) => l,
            Err(_) => vstd::pervasive::unreached(),
        }
    }

    /// Build a label from an owned name: the string is promoted to
    /// process-lifetime storage, then registered as `try_new` does.
    pub fn try_new_owned(registry: &mut Registry<Domain>, name: String) -> (r: Result<Self, Collision>)
        ensures
            match r {
                Ok(l) => {
                    &&& can_intern(old(registry)@, label_hash(name@), name@)
                    &&& l.wf()
                    &&& l.spec_name() == name@
                    &&& l.spec_id() == label_hash(name@)
                    &&& final(registry)@ == old(registry)@.insert(label_hash(name@), name@)
                },
                Err(c) => {
                    &&& !can_intern(old(registry)@, label_hash(name@), name@)
                    &&& final(registry)@ == old(registry)@
                    &&& c.id == label_hash(name@)
                    &&& c.rejected@ == name@
                    &&& c.existing@ == old(registry)@[label_hash(name@)]
                },
            },
    {
        let leaked = crate::text::leak_str(name);
        Self::try_new(registry, leaked)
    }

    /// Build a label from an owned name, where the caller knows the hash is
    /// free or already bound to these same contents.
    pub fn new_owned(registry: &mut Registry<Domain>, name: String) -> (l: Self)
        requires
            can_intern(old(registry)@, label_hash(name@), name@),
        ensures
            l.wf(),
            l.spec_name() == name@,
            l.spec_id() == label_hash(name@),
            final(registry)@ == old(registry)@.insert(label_hash(name@), name@),
    {
        match Self::try_new_owned(registry, name) {
            Ok(l) => l,
            Err(_) => vstd::pervasive::unreached(),
        }
    }

    /// The label's hash; pure and constant-time.
    pub fn id(&self) -> (r: u64)
        ensures
            r == self.spec_id(),
    {
        self.id
    }

    /// The interned name; pure and constant-time.
    pub fn name(&self) -> (r: &str)
        ensures
            r@ == self.spec_name(),
    {
        self.name
    }
}

impl<Domain> Clone for ConstLabel<Domain> {
    /// Duplication copies the hash and the name reference; it re-derives
    /// nothing.
    fn clone(&self) -> (r: Self)
        ensures
            r == *self,
    {
        ConstLabel { id: self.id, name: self.name, _marker: PhantomData }
    }
}

impl<Domain> Copy for ConstLabel<Domain> {}

impl<Domain> Clone for Label<Domain> {
    /// Duplication copies the hash and the name reference; it re-derives
    /// nothing and touches no registry.
    fn clone(&self) -> (r: Self)
        ensures
            r == *self,
    {
        Label { id: self.id, name: self.name, _marker: PhantomData }
    }
}

impl<Domain> Copy for Label<Domain> {}

impl<Domain> PartialEq for Label<Domain> {
    /// Labels of one namespace are equal exactly when their hashes are.
    fn eq(&self, other: &Self) -> (r: bool) {
        self.id == other.id
    }
}

impl<Domain> Eq for Label<Domain> {}

impl<Domain> vstd::std_specs::cmp::PartialEqSpecImpl for Label<Domain> {
    open spec fn obeys_eq_spec() -> bool {
        true
    }

    open spec fn eq_spec(&self, other: &Self) -> bool {
        self.spec_id() == other.spec_id()
    }
}

/// Two labels of one namespace whose names have equal contents are equal,
/// with equal hashes; built over well-formed labels, as every constructor
/// returns them.
pub proof fn lemma_equal_content_equal_labels<Domain>(l1: Label<Domain>, l2: Label<Domain>)
    requires
        l1.wf(),
        l2.wf(),
        l1.spec_name() == l2.spec_name(),
    ensures
        l1.spec_id() == l2.spec_id(),
        l1.eq_spec(&l2),
{
}

/// Two labels of one namespace whose names do not collide under the hash
/// are distinct: their hashes differ, so they compare unequal.
pub proof fn lemma_distinct_hash_distinct_labels<Domain>(l1: Label<Domain>, l2: Label<Domain>)
    requires
        l1.wf(),
        l2.wf(),
        label_hash(l1.spec_name()) != label_hash(l2.spec_name()),
    ensures
        l1.spec_id() != l2.spec_id(),
        !l1.eq_spec(&l2),
{
}

} // verus!
