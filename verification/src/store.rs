//! The store that owns the watchlist.
//!
//! The store is changed through `&mut self` only, so two appends never work on
//! the same base list: each one sees what the one before it installed.

use crate::error::BotError;
use crate::watchlist::{titles_of, EntryModel, Watchlist, WatchlistEntry};
use vstd::prelude::*;

verus! {

/// The list after one append: the entry joins at the end if it is titled, and
/// the list stays as it is if it is not.
pub open spec fn appended(list: Seq<EntryModel>, entry: EntryModel) -> Seq<EntryModel> {
    if entry.is_titled() {
        list.push(entry)
    } else {
        list
    }
}

/// The list after the entries were appended one after the other, first to last.
pub open spec fn appended_all(list: Seq<EntryModel>, entries: Seq<EntryModel>) -> Seq<EntryModel>
    decreases entries.len(),
{
    if entries.len() == 0 {
        list
    } else {
        appended(appended_all(list, entries.drop_last()), entries.last())
    }
}

/// Tells whether every entry is titled.
pub open spec fn all_titled(entries: Seq<EntryModel>) -> bool {
    forall|i: int| 0 <= i < entries.len() ==> (#[trigger] entries[i]).is_titled()
}

/// Tells whether no two entries bear the same title.
pub open spec fn distinct_titles(entries: Seq<EntryModel>) -> bool {
    forall|i: int, j: int|
        0 <= i < entries.len() && 0 <= j < entries.len() && i != j ==> (#[trigger] entries[i]).title
            != (#[trigger] entries[j]).title
}

/// The number of entries of the list that bear the title.
pub open spec fn times_listed(list: Seq<EntryModel>, title: Seq<char>) -> nat {
    titles_of(list).to_multiset().count(title)
}

/// Appending titled entries loses nothing and reorders nothing: the list
/// afterwards is the list before, followed by the entries in the order in which
/// they were appended.
pub proof fn lemma_appends_join_in_order(list: Seq<EntryModel>, entries: Seq<EntryModel>)
    requires
        all_titled(entries),
    ensures
        appended_all(list, entries) == list + entries,
        appended_all(list, entries).len() == list.len() + entries.len(),
    decreases entries.len(),
{
    if entries.len() > 0 {
        lemma_appends_join_in_order(list, entries.drop_last());
    }
}

/// An entry that is not titled changes nothing, wherever it stands among the appends.
pub proof fn lemma_untitled_append_changes_nothing(list: Seq<EntryModel>, entry: EntryModel)
    requires
        !entry.is_titled(),
    ensures
        appended(list, entry) == list,
        appended(list, entry).len() == list.len(),
{
}

/// After titled entries with titles that differ from one another were appended,
/// the list has grown by their number, and each of their titles is listed once
/// more than it was before: once, where it was not listed before.
pub proof fn lemma_each_title_listed_once(list: Seq<EntryModel>, entries: Seq<EntryModel>)
    requires
        all_titled(entries),
        distinct_titles(entries),
    ensures
        appended_all(list, entries).len() == list.len() + entries.len(),
        forall|i: int|
            0 <= i < entries.len() ==> times_listed(
                appended_all(list, entries),
                (#[trigger] entries[i]).title,
            ) == times_listed(list, entries[i].title) + 1,
{
    broadcast use vstd::multiset::group_multiset_axioms;

    lemma_appends_join_in_order(list, entries);
    let old_titles = titles_of(list);
    let new_titles = titles_of(entries);
    assert(titles_of(list + entries) =~= old_titles + new_titles);
    vstd::seq_lib::lemma_multiset_commutative(old_titles, new_titles);
    new_titles.lemma_multiset_has_no_duplicates();
    assert forall|i: int| 0 <= i < entries.len() implies times_listed(
        appended_all(list, entries),
        (#[trigger] entries[i]).title,
    ) == times_listed(list, entries[i].title) + 1 by {
        let title = entries[i].title;
        assert(new_titles[i] == title);
        vstd::seq_lib::to_multiset_contains(new_titles, title);
    }
}

/// The order in which titled entries are appended decides where they stand,
/// not whether they are there: two runs that append the same entries in two
/// orders end with the same entries, each as often as in the other.
pub proof fn lemma_order_keeps_entries(
    list: Seq<EntryModel>,
    first_order: Seq<EntryModel>,
    second_order: Seq<EntryModel>,
)
    requires
        all_titled(first_order),
        all_titled(second_order),
        first_order.to_multiset() == second_order.to_multiset(),
    ensures
        appended_all(list, first_order).to_multiset() == appended_all(
            list,
            second_order,
        ).to_multiset(),
        appended_all(list, first_order).len() == appended_all(list, second_order).len(),
{
    lemma_appends_join_in_order(list, first_order);
    lemma_appends_join_in_order(list, second_order);
    vstd::seq_lib::lemma_multiset_commutative(list, first_order);
    vstd::seq_lib::lemma_multiset_commutative(list, second_order);
    vstd::seq_lib::to_multiset_len(first_order);
    vstd::seq_lib::to_multiset_len(second_order);
}

/// The one owner of the watchlist.
#[derive(Debug)]
pub struct WatchlistStore {
    current: Watchlist,
}

impl View for WatchlistStore {
    type V = Seq<EntryModel>;

    closed spec fn view(&self) -> Seq<EntryModel> {
        self.current@
    }
}

impl WatchlistStore {
    /// A store that starts with the given list.
    pub fn new(initial: Watchlist) -> (store: WatchlistStore)
        ensures
            store@ == initial@,
    {
        WatchlistStore { current: initial }
    }

    /// A copy of the list as it is now.
    pub fn snapshot(&self) -> (list: Watchlist)
        ensures
            list@ == self@,
    {
        self.current.clone()
    }

    /// Appends `entry` to the list and returns a copy of the new list. An entry
    /// whose title is blank is refused with [`BotError::Validation`], and the
    /// list stays as it was.
    pub fn append(&mut self, entry: WatchlistEntry) -> (outcome: Result<Watchlist, BotError>)
        ensures
            final(self)@ == appended(old(self)@, entry@),
            entry@.is_titled() ==> outcome is Ok && outcome->Ok_0@ == old(self)@.push(entry@),
            !entry@.is_titled() ==> outcome == Err::<Watchlist, BotError>(BotError::Validation),
    {
        if !entry.is_titled() {
            return Err(BotError::Validation);
        }
        let mut next = self.current.clone();
        next.watchlist.push(entry);
        let installed = next.clone();
        self.current = next;
        Ok(installed)
    }
}

} // verus!
