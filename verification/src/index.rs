//! Lookup of a title by name, whatever the case it is written in.

use crate::error::BotError;
use crate::text::{lowercase, to_lowercase};
use crate::types::{title_view, TitleEntry, TitleModel};
use vstd::hash_map::StringHashMap;
use vstd::prelude::*;

verus! {

/// A record bears a key when the lower-case form of its primary title or of its
/// original title is the key, character for character.
pub open spec fn bears(record: TitleModel, key: Seq<char>) -> bool {
    lowercase(record.primary_title) == key || lowercase(record.original_title) == key
}

/// The position of the first record that bears the key, if any does.
pub open spec fn first_bearing(records: Seq<TitleModel>, key: Seq<char>) -> Option<int>
    decreases records.len(),
{
    if records.len() == 0 {
        None
    } else {
        match first_bearing(records.drop_last(), key) {
            Some(i) => Some(i),
            None => if bears(records.last(), key) {
                Some(records.len() - 1)
            } else {
                None
            },
        }
    }
}

/// What a lookup of `query` in `records` finds: nothing for the empty query,
/// and else the first record that bears the lower-case form of the query.
pub open spec fn found(records: Seq<TitleModel>, query: Seq<char>) -> Option<TitleModel> {
    if query.len() == 0 {
        None
    } else {
        match first_bearing(records, lowercase(query)) {
            Some(i) => Some(records[i]),
            None => None,
        }
    }
}

/// [`first_bearing`] does what its name says: the position it gives is in
/// range, the record there bears the key and none before it does; and it gives
/// none only where no record bears the key.
pub proof fn lemma_first_bearing(records: Seq<TitleModel>, key: Seq<char>)
    ensures
        match first_bearing(records, key) {
            Some(i) => 0 <= i < records.len() && bears(records[i], key) && forall|j: int|
                0 <= j < i ==> !bears(#[trigger] records[j], key),
            None => forall|j: int| 0 <= j < records.len() ==> !bears(#[trigger] records[j], key),
        },
    decreases records.len(),
{
    if records.len() > 0 {
        let earlier = records.drop_last();
        lemma_first_bearing(earlier, key);
        assert(forall|j: int| 0 <= j < earlier.len() ==> earlier[j] == records[j]);
    }
}

/// What a map from keys to positions holds under a key.
pub open spec fn position_under(positions: Map<Seq<char>, usize>, key: Seq<char>) -> Option<int> {
    if positions.contains_key(key) {
        Some(positions[key] as int)
    } else {
        None
    }
}

/// The title dataset with an index over the lower-case forms of its titles.
/// It is built once and never changed.
pub struct TitleIndex {
    records: Vec<TitleEntry>,
    positions: StringHashMap<usize>,
}

impl View for TitleIndex {
    type V = Seq<TitleModel>;

    closed spec fn view(&self) -> Seq<TitleModel> {
        self.records.deep_view()
    }
}

impl TitleIndex {
    /// The index holds, under every key, the position of the first record that
    /// bears it, and nothing else.
    #[verifier::type_invariant]
    spec fn well_formed(self) -> bool {
        forall|key: Seq<char>|
            position_under(self.positions@, key) == #[trigger] first_bearing(
                self.records.deep_view(),
                key,
            )
    }

    /// Builds the index over `records`, which keep their order. Each record is
    /// indexed under the lower-case forms of its primary and of its original
    /// title; where several records bear one key, the first of them is found.
    pub fn build(records: Vec<TitleEntry>) -> (index: TitleIndex)
        ensures
            index@ == records.deep_view(),
    {
        let ghost all = records.deep_view();
        let mut positions: StringHashMap<usize> = StringHashMap::new();
        let mut i: usize = 0;
        while i < records.len()
            invariant
                i <= records.len(),
                all == records.deep_view(),
                forall|key: Seq<char>|
                    position_under(positions@, key) == #[trigger] first_bearing(
                        all.take(i as int),
                        key,
                    ),
            decreases records.len() - i,
        {
            let ghost before = positions@;
            let primary = to_lowercase(records[i].primary_title.as_str());
            if !positions.contains_key(primary.as_str()) {
                positions.insert(primary, i);
            }
            let original = to_lowercase(records[i].original_title.as_str());
            if !positions.contains_key(original.as_str()) {
                positions.insert(original, i);
            }
            proof {
                assert(all.take(i + 1).drop_last() == all.take(i as int));
                assert forall|key: Seq<char>|
                    position_under(positions@, key) == #[trigger] first_bearing(
                        all.take(i + 1),
                        key,
                    ) by {
                    assert(position_under(before, key) == first_bearing(all.take(i as int), key));
                }
            }
            i += 1;
        }
        proof {
            assert(all.take(records.len() as int) == all);
        }
        TitleIndex { records, positions }
    }

    /// The number of records.
    pub fn len(&self) -> (n: usize)
        ensures
            n == self@.len(),
    {
        self.records.len()
    }

    /// Looks `title` up, whatever the case it is written in: gives a copy of the
    /// first record whose primary or original title has the same lower-case
    /// form as `title`, and nothing where there is no such record or `title`
    /// is empty. Only the whole title matches, never a part of it.
    pub fn find(&self, title: &str) -> (hit: Option<TitleEntry>)
        ensures
            title_view(hit) == found(self@, title@),
    {
        if title.is_empty() {
            return None;
        }
        let key = to_lowercase(title);
        proof {
            use_type_invariant(self);
            lemma_first_bearing(self@, key@);
        }
        match self.positions.get(key.as_str()) {
            Some(position) => {
                let i: usize = *position;
                Some(self.records[i].clone())
            },
            None => None,
        }
    }

    /// Looks `title` up as [`TitleIndex::find`] does, and gives
    /// [`BotError::NotFound`] where nothing is found.
    pub fn get(&self, title: &str) -> (outcome: Result<TitleEntry, BotError>)
        ensures
            match outcome {
                Ok(record) => found(self@, title@) == Some(record@),
                Err(e) => found(self@, title@) is None && e == BotError::NotFound,
            },
    {
        match self.find(title) {
            Some(record) => Ok(record),
            None => Err(BotError::NotFound),
        }
    }
}

/// A lookup does not care about case: two queries with the same lower-case
/// form, both empty or both not, find the same.
pub proof fn lemma_find_ignores_case(records: Seq<TitleModel>, query: Seq<char>, other: Seq<char>)
    requires
        lowercase(query) == lowercase(other),
        query.len() == 0 <==> other.len() == 0,
    ensures
        found(records, query) == found(records, other),
{
}

/// A lookup matches whole titles only. It finds a record exactly where the
/// query is not empty and some record bears its lower-case form; what it finds
/// is then the first such record. In an empty dataset it finds nothing.
pub proof fn lemma_find_is_exact(records: Seq<TitleModel>, query: Seq<char>)
    ensures
        found(records, query) is Some <==> query.len() > 0 && exists|i: int|
            0 <= i < records.len() && bears(#[trigger] records[i], lowercase(query)),
        found(records, query) matches Some(record) ==> bears(record, lowercase(query)),
        records.len() == 0 ==> found(records, query) is None,
{
    lemma_first_bearing(records, lowercase(query));
}

} // verus!
