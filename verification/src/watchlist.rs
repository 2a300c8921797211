//! The shared watchlist and the store that owns it.

use crate::error::BotError;
use crate::text::{is_blank, str_is_blank};
use vstd::prelude::*;

verus! {

/// One film that a user asked for.
#[derive(Debug, PartialEq, Eq)]
pub struct WatchlistEntry {
    pub title: String,
    pub year: String,
    pub director: String,
    pub added_by: String,
}

/// What a [`WatchlistEntry`] holds, as plain values.
pub struct EntryModel {
    pub title: Seq<char>,
    pub year: Seq<char>,
    pub director: Seq<char>,
    pub added_by: Seq<char>,
}

impl EntryModel {
    /// An entry can join the watchlist when its title is not blank.
    pub open spec fn is_titled(self) -> bool {
        !is_blank(self.title)
    }
}

impl View for WatchlistEntry {
    type V = EntryModel;

    open spec fn view(&self) -> EntryModel {
        EntryModel {
            title: self.title@,
            year: self.year@,
            director: self.director@,
            added_by: self.added_by@,
        }
    }
}

impl DeepView for WatchlistEntry {
    type V = EntryModel;

    open spec fn deep_view(&self) -> EntryModel {
        self@
    }
}

impl Clone for WatchlistEntry {
    fn clone(&self) -> (copy: Self)
        ensures
            copy == *self,
    {
        WatchlistEntry {
            title: self.title.clone(),
            year: self.year.clone(),
            director: self.director.clone(),
            added_by: self.added_by.clone(),
        }
    }
}

impl Default for WatchlistEntry {
    fn default() -> (entry: WatchlistEntry)
        ensures
            entry@ == (EntryModel {
                title: Seq::empty(),
                year: Seq::empty(),
                director: Seq::empty(),
                added_by: Seq::empty(),
            }),
    {
        WatchlistEntry::titled(String::new())
    }
}

impl WatchlistEntry {
    /// An entry with the given title and every other field empty.
    pub fn titled(title: String) -> (entry: WatchlistEntry)
        ensures
            entry@ == (EntryModel {
                title: title@,
                year: Seq::empty(),
                director: Seq::empty(),
                added_by: Seq::empty(),
            }),
    {
        WatchlistEntry {
            title,
            year: String::new(),
            director: String::new(),
            added_by: String::new(),
        }
    }

    /// Tells whether the entry can join the watchlist.
    pub fn is_titled(&self) -> (b: bool)
        ensures
            b == self@.is_titled(),
    {
        !str_is_blank(self.title.as_str())
    }
}

/// The films that were asked for, in the order in which they were added. A film
/// may be on the list more than once.
#[derive(Debug, PartialEq, Eq)]
pub struct Watchlist {
    pub watchlist: Vec<WatchlistEntry>,
}

impl View for Watchlist {
    type V = Seq<EntryModel>;

    open spec fn view(&self) -> Seq<EntryModel> {
        self.watchlist.deep_view()
    }
}

impl Clone for Watchlist {
    fn clone(&self) -> (copy: Self)
        ensures
            copy@ == self@,
    {
        let copy = Watchlist { watchlist: self.watchlist.clone() };
        proof {
            broadcast use vstd::std_specs::vec::vec_clone_deep_view_proof;
        }
        copy
    }
}

impl Default for Watchlist {
    fn default() -> (list: Watchlist)
        ensures
            list@ == Seq::<EntryModel>::empty(),
    {
        Watchlist::new()
    }
}

/// The titles of a list of entries, in order.
pub open spec fn titles_of(entries: Seq<EntryModel>) -> Seq<Seq<char>> {
    Seq::new(entries.len(), |i: int| entries[i].title)
}

impl Watchlist {
    /// The list with nothing on it.
    pub fn new() -> (list: Watchlist)
        ensures
            list@ == Seq::<EntryModel>::empty(),
    {
        let list = Watchlist { watchlist: Vec::new() };
        list
    }

    /// The number of entries.
    pub fn len(&self) -> (n: usize)
        ensures
            n == self@.len(),
    {
        self.watchlist.len()
    }

    /// Tells whether nothing is on the list.
    pub fn is_empty(&self) -> (b: bool)
        ensures
            b == (self@.len() == 0),
    {
        self.watchlist.len() == 0
    }

    /// The titles on the list, in order.
    pub fn titles(&self) -> (titles: Vec<String>)
        ensures
            titles.deep_view() == titles_of(self@),
    {
        let mut titles: Vec<String> = Vec::new();
        let mut i: usize = 0;
        while i < self.watchlist.len()
            invariant
                i <= self.watchlist.len(),
                titles.len() == i,
                forall|k: int| 0 <= k < i ==> (#[trigger] titles[k])@ == self.watchlist[k].title@,
            decreases self.watchlist.len() - i,
        {
            titles.push(self.watchlist[i].title.clone());
            i += 1;
        }
        titles
    }
}

} // verus!
