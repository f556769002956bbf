//! The names of meetings, remembered by identifier.

use std::collections::HashMap;

use vstd::prelude::*;

verus! {

broadcast use vstd::std_specs::hash::group_hash_axioms;

/// The name the map gives, or `Meeting`.
pub open spec fn name_or_default(names: Map<u128, Seq<char>>, id: u128) -> Seq<char> {
    if names.contains_key(id) {
        names[id]
    } else {
        "Meeting"@
    }
}

/// Meeting names by identifier.
#[derive(Debug)]
pub struct MeetingNames {
    /// The name of each meeting.
    pub entries: HashMap<u128, String>,
}

impl MeetingNames {
    /// The names.
    pub open spec fn names(&self) -> Map<u128, Seq<char>> {
        self.entries@.map_values(|s: String| s@)
    }

    /// No names.
    pub fn new() -> (r: Self)
        ensures
            r.names() == Map::<u128, Seq<char>>::empty(),
    {
        let r = MeetingNames { entries: HashMap::new() };
        assert(r.names() =~= Map::<u128, Seq<char>>::empty());
        r
    }

    /// Remembers the name of meeting `id`, replacing an earlier one.
    pub fn insert(&mut self, id: u128, name: String)
        ensures
            final(self).names() == old(self).names().insert(id, name@),
    {
        let ghost n = name@;
        self.entries.insert(id, name);
        assert(self.names() =~= old(self).names().insert(id, n));
    }

    /// The name of meeting `id`, or `Meeting`.
    pub fn name_of(&self, id: u128) -> (r: String)
        ensures
            r@ == name_or_default(self.names(), id),
    {
        match self.entries.get(&id) {
            Some(name) => name.clone(),
            None => "Meeting".to_owned(),
        }
    }

    /// Forgets the name of meeting `id`.
    pub fn forget(&mut self, id: u128)
        ensures
            final(self).names() == old(self).names().remove(id),
    {
        self.entries.remove(&id);
        assert(self.names() =~= old(self).names().remove(id));
    }

    /// The name of meeting `id`, or `Meeting`, which is then forgotten.
    pub fn take(&mut self, id: u128) -> (r: String)
        ensures
            r@ == name_or_default(old(self).names(), id),
            final(self).names() == old(self).names().remove(id),
    {
        let name = self.name_of(id);
        self.forget(id);
        name
    }
}

} // verus!
