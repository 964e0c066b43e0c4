//! Account properties.
//!
//! The service writes the properties of an account as a list of entries,
//! each with a name and a value:
//!
//! ```json
//! [
//!     { "name": "preferredLanguage", "value": "en" },
//!     { "name": "twitch_access_token", "value": "twitch oauth token" }
//! ]
//! ```
//!
//! Read into [`Properties`], the list becomes a map from names to values.

use vstd::hash_map::StringHashMap;
use vstd::prelude::*;

verus! {

/// One entry of the list: a name and its value.
#[derive(Clone, Debug, PartialEq, Eq)]
pub struct Property {
    pub name: String,
    pub value: String,
}

impl View for Property {
    type V = (Seq<char>, Seq<char>);

    open spec fn view(&self) -> (Seq<char>, Seq<char>) {
        (self.name@, self.value@)
    }
}

/// The entries of a list, each as the pair of its name and its value.
pub open spec fn entries_view(entries: Seq<Property>) -> Seq<(Seq<char>, Seq<char>)> {
    Seq::new(entries.len(), |i: int| entries[i]@)
}

/// What a list of entries says: each name that occurs, with the value of the
/// last entry of that name.
pub open spec fn properties_of(entries: Seq<(Seq<char>, Seq<char>)>) -> Map<Seq<char>, Seq<char>>
    decreases entries.len(),
{
    if entries.len() == 0 {
        Map::empty()
    } else {
        properties_of(entries.drop_last()).insert(entries.last().0, entries.last().1)
    }
}

/// The properties of an account: a value for each name. The view is the map
/// from names to values.
pub struct Properties {
    map: StringHashMap<String>,
}

impl View for Properties {
    type V = Map<Seq<char>, Seq<char>>;

    closed spec fn view(&self) -> Map<Seq<char>, Seq<char>> {
        Map::new(|name: Seq<char>| self.map@.contains_key(name), |name: Seq<char>| self.map@[name]@)
    }
}

impl Properties {
    /// No properties.
    pub fn new() -> (properties: Properties)
        ensures
            properties@ == Map::<Seq<char>, Seq<char>>::empty(),
    {
        let properties = Properties { map: StringHashMap::new() };
        assert(properties@ =~= Map::<Seq<char>, Seq<char>>::empty());
        properties
    }

    /// Sets the property `name` to `value`, whether it had a value or not.
    pub fn insert(&mut self, name: String, value: String)
        ensures
            final(self)@ == old(self)@.insert(name@, value@),
    {
        let ghost before = self@;
        self.map.insert(name, value);
        assert(self@ =~= before.insert(name@, value@));
    }

    /// The value of the property `name`, if it has one.
    pub fn get(&self, name: &str) -> (value: Option<&String>)
        ensures
            match value {
                Some(value) => self@.contains_key(name@) && value@ == self@[name@],
                None => !self@.contains_key(name@),
            },
    {
        self.map.get(name)
    }

    /// Whether the property `name` has a value.
    pub fn contains_key(&self, name: &str) -> (found: bool)
        ensures
            found == self@.contains_key(name@),
    {
        self.map.contains_key(name)
    }
}

/// Reads a list of entries into a map. Where a name occurs more than once,
/// its last entry counts.
pub fn properties_parser(entries: &Vec<Property>) -> (properties: Properties)
    ensures
        properties@ == properties_of(entries_view(entries@)),
{
    let mut properties = Properties::new();
    let mut i: usize = 0;
    while i < entries.len()
        invariant
            i <= entries.len(),
            properties@ == properties_of(entries_view(entries@).subrange(0, i as int)),
        decreases entries.len() - i,
    {
        let name = entries[i].name.clone();
        let value = entries[i].value.clone();
        proof {
            let all = entries_view(entries@);
            let next = all.subrange(0, i + 1);
            assert(next.drop_last() =~= all.subrange(0, i as int));
            assert(next.last() == (name@, value@));
        }
        properties.insert(name, value);
        i = i + 1;
    }
    assert(entries_view(entries@).subrange(0, i as int) =~= entries_view(entries@));
    properties
}

/// A name has the value of its last entry: of an entry after which no entry
/// of the same name comes.
pub proof fn lemma_last_entry_counts(entries: Seq<(Seq<char>, Seq<char>)>, at: int)
    requires
        0 <= at < entries.len(),
        forall|later: int| at < later < entries.len() ==> entries[later].0 != entries[at].0,
    ensures
        properties_of(entries).contains_key(entries[at].0),
        properties_of(entries)[entries[at].0] == entries[at].1,
    decreases entries.len(),
{
    if at < entries.len() - 1 {
        let shorter = entries.drop_last();
        assert(shorter[at] == entries[at]);
        assert forall|later: int| at < later < shorter.len() implies shorter[later].0
            != shorter[at].0 by {
            assert(shorter[later] == entries[later]);
        }
        lemma_last_entry_counts(shorter, at);
        assert(entries.last().0 != entries[at].0);
    }
}

/// The map has a name exactly where the list has an entry of that name.
pub proof fn lemma_names_are_those_listed(entries: Seq<(Seq<char>, Seq<char>)>, name: Seq<char>)
    ensures
        properties_of(entries).contains_key(name) <==> exists|at: int|
            0 <= at < entries.len() && #[trigger] entries[at].0 == name,
    decreases entries.len(),
{
    if entries.len() > 0 {
        let shorter = entries.drop_last();
        lemma_names_are_those_listed(shorter, name);
        if properties_of(entries).contains_key(name) {
            if entries.last().0 == name {
                assert(entries[entries.len() - 1].0 == name);
            } else {
                let at = choose|at: int| 0 <= at < shorter.len() && #[trigger] shorter[at].0 == name;
                assert(entries[at].0 == name);
            }
        }
        if exists|at: int| 0 <= at < entries.len() && #[trigger] entries[at].0 == name {
            let at = choose|at: int| 0 <= at < entries.len() && #[trigger] entries[at].0 == name;
            if at < entries.len() - 1 {
                assert(shorter[at].0 == name);
            }
        }
    }
}

} // verus!
