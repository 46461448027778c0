//! A participant binding as the host hands it over: who is bound, under
//! which contract and link name, and a map of free-form settings.

use vstd::prelude::*;
use vstd::string::*;
use crate::assoc::distinct_keys;
use crate::assoc::lookup;
use crate::assoc::position;
use crate::assoc::position_absent;
use crate::assoc::position_found;
use crate::assoc::put;
use crate::assoc::put_facts;

verus! {

/// One setting: a key and its value, as characters.
pub type Setting = (Seq<char>, Seq<char>);

/// The settings of a binding: a small map from text to text that remembers
/// the order in which keys were first stored. Built with [`LinkValues::new`]
/// and [`LinkValues::insert`], it never holds a key twice.
#[derive(Debug)]
pub struct LinkValues {
    entries: Vec<(String, String)>,
}

impl View for LinkValues {
    type V = Seq<Setting>;

    closed spec fn view(&self) -> Seq<Setting> {
        Seq::new(self.entries@.len(), |i: int| (self.entries@[i].0@, self.entries@[i].1@))
    }
}

impl LinkValues {
    /// A map without settings.
    pub fn new() -> (r: Self)
        ensures
            r@ == Seq::<Setting>::empty(),
    {
        let r = LinkValues { entries: Vec::new() };
        assert(r@ =~= Seq::<Setting>::empty());
        r
    }

    /// How many settings are stored.
    pub fn len(&self) -> (n: usize)
        ensures
            n == self@.len(),
    {
        self.entries.len()
    }

    /// The key of the `i`-th setting.
    pub fn key_at(&self, i: usize) -> (r: &String)
        requires
            i < self@.len(),
        ensures
            r@ == self@[i as int].0,
    {
        &self.entries[i].0
    }

    /// The value of the `i`-th setting.
    pub fn value_at(&self, i: usize) -> (r: &String)
        requires
            i < self@.len(),
        ensures
            r@ == self@[i as int].1,
    {
        &self.entries[i].1
    }

    fn find(&self, key: &str) -> (r: Option<usize>)
        ensures
            match r {
                Some(i) => position(self@, key@) == Some(i as int) && i < self@.len(),
                None => position(self@, key@) is None,
            },
    {
        let mut i: usize = self.entries.len();
        while i > 0
            invariant
                i <= self.entries.len(),
                self@.len() == self.entries.len(),
                forall|j: int| i <= j < self@.len() ==> (#[trigger] self@[j]).0 != key@,
            decreases i,
        {
            i = i - 1;
            if crate::text::same_text(self.entries[i].0.as_str(), key) {
                proof {
                    assert(self@[i as int].0 == key@);
                    position_found(self@, key@, i as int);
                }
                return Some(i);
            }
        }
        proof {
            position_absent(self@, key@);
        }
        None
    }

    /// The value stored under `key`, if any.
    pub fn get(&self, key: &str) -> (r: Option<&String>)
        ensures
            match r {
                Some(value) => lookup(self@, key@) == Some(value@),
                None => lookup(self@, key@) is None,
            },
    {
        match self.find(key) {
            Some(i) => Some(&self.entries[i].1),
            None => None,
        }
    }

    /// Whether a value is stored under `key`.
    pub fn contains_key(&self, key: &str) -> (r: bool)
        ensures
            r == lookup(self@, key@).is_some(),
    {
        self.find(key).is_some()
    }

    /// Stores `value` under `key`, overwriting what was there. A map whose
    /// keys were distinct keeps them distinct.
    pub fn insert(&mut self, key: String, value: String)
        ensures
            final(self)@ == put(old(self)@, key@, value@),
            distinct_keys(old(self)@) ==> distinct_keys(final(self)@),
    {
        proof {
            if distinct_keys(self@) {
                put_facts(self@, key@, value@);
            }
        }
        let ghost before = self@;
        match self.find(key.as_str()) {
            Some(i) => {
                self.entries.set(i, (key, value));
                assert(self@ =~= before.update(i as int, (key@, value@)));
            },
            None => {
                self.entries.push((key, value));
                assert(self@ =~= before.push((key@, value@)));
            },
        }
    }
}

impl Clone for LinkValues {
    fn clone(&self) -> (r: Self)
        ensures
            r@ == self@,
    {
        let mut entries: Vec<(String, String)> = Vec::new();
        let mut i: usize = 0;
        while i < self.entries.len()
            invariant
                i <= self.entries.len(),
                entries.len() == i,
                forall|j: int|
                    0 <= j < i ==> (#[trigger] entries@[j]).0@ == self.entries@[j].0@
                        && entries@[j].1@ == self.entries@[j].1@,
            decreases self.entries.len() - i,
        {
            let pair = (self.entries[i].0.clone(), self.entries[i].1.clone());
            entries.push(pair);
            i = i + 1;
        }
        let r = LinkValues { entries };
        assert(r@ =~= self@);
        r
    }
}

/// A binding between a participant and this runtime.
#[derive(Debug)]
pub struct LinkDefinition {
    /// The participant, as the host identifies it.
    pub actor_id: String,
    /// The provider that the participant is bound to.
    pub provider_id: String,
    /// The name of the link.
    pub link_name: String,
    /// The contract under which the two are bound.
    pub contract_id: String,
    /// The settings given with the binding.
    pub values: LinkValues,
}

/// A binding, as characters.
pub struct LinkDefinitionView {
    pub actor_id: Seq<char>,
    pub provider_id: Seq<char>,
    pub link_name: Seq<char>,
    pub contract_id: Seq<char>,
    pub values: Seq<Setting>,
}

impl View for LinkDefinition {
    type V = LinkDefinitionView;

    open spec fn view(&self) -> LinkDefinitionView {
        LinkDefinitionView {
            actor_id: self.actor_id@,
            provider_id: self.provider_id@,
            link_name: self.link_name@,
            contract_id: self.contract_id@,
            values: self.values@,
        }
    }
}

/// The binding that names nobody and sets nothing.
pub open spec fn empty_link() -> LinkDefinitionView {
    LinkDefinitionView {
        actor_id: Seq::empty(),
        provider_id: Seq::empty(),
        link_name: Seq::empty(),
        contract_id: Seq::empty(),
        values: Seq::empty(),
    }
}

impl Default for LinkDefinition {
    fn default() -> (r: Self)
        ensures
            r@ == empty_link(),
    {
        LinkDefinition {
            actor_id: String::new(),
            provider_id: String::new(),
            link_name: String::new(),
            contract_id: String::new(),
            values: LinkValues::new(),
        }
    }
}

impl Clone for LinkDefinition {
    fn clone(&self) -> (r: Self)
        ensures
            r@ == self@,
    {
        LinkDefinition {
            actor_id: self.actor_id.clone(),
            provider_id: self.provider_id.clone(),
            link_name: self.link_name.clone(),
            contract_id: self.contract_id.clone(),
            values: self.values.clone(),
        }
    }
}

} // verus!
