//! Labels by key: what a tab, or an agent's state, is called on screen.
use vstd::hash_map::StringHashMap;
use vstd::prelude::*;

verus! {

/// A map from keys to the labels shown for them.
pub struct Labels {
    entries: StringHashMap<String>,
}

impl View for Labels {
    type V = Map<Seq<char>, Seq<char>>;

    closed spec fn view(&self) -> Map<Seq<char>, Seq<char>> {
        self.entries@.map_values(|label: String| label@)
    }
}

impl DeepView for Labels {
    type V = Map<Seq<char>, Seq<char>>;

    open spec fn deep_view(&self) -> Map<Seq<char>, Seq<char>> {
        self@
    }
}

/// The label of `key`, or `None` for a key without one.
pub open spec fn label_of(labels: Map<Seq<char>, Seq<char>>, key: Seq<char>) -> Option<Seq<char>> {
    if labels.contains_key(key) {
        Some(labels[key])
    } else {
        None
    }
}

impl Labels {
    /// No labels at all.
    pub fn new() -> (res: Labels)
        ensures
            res@ == Map::<Seq<char>, Seq<char>>::empty(),
    {
        Labels { entries: StringHashMap::new() }
    }

    /// Labels `key`, in place of any label it had.
    pub fn insert(&mut self, key: String, label: String)
        ensures
            final(self)@ == old(self)@.insert(key@, label@),
    {
        self.entries.insert(key, label);
        assert(self@ =~= old(self)@.insert(key@, label@));
    }

    /// The label of `key`.
    pub fn get(&self, key: &str) -> (res: Option<&String>)
        ensures
            res.deep_view() == label_of(self@, key@),
    {
        self.entries.get(key)
    }
}

} // verus!
