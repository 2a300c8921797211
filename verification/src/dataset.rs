//! Reading the title dataset from its tab-separated text.
//!
//! The text holds one row to a line, the first line being the header, and in
//! each row the cells with a tab between each two.

use crate::types::{title_of_row, TitleEntry, TitleModel};
use vstd::prelude::*;

verus! {

/// The pieces that `sep` cuts `s` into. There is one piece more than `s` holds
/// separators, so the empty string gives one empty piece; a piece is empty
/// where two separators meet, or one stands first or last.
pub open spec fn pieces(s: Seq<char>, sep: char) -> Seq<Seq<char>>
    decreases s.len(),
{
    if s.len() == 0 {
        seq![Seq::<char>::empty()]
    } else {
        let earlier = pieces(s.drop_last(), sep);
        if s.last() == sep {
            earlier.push(Seq::<char>::empty())
        } else {
            earlier.drop_last().push(earlier.last().push(s.last()))
        }
    }
}

/// Cuts `s` at each `sep`.
pub fn split(s: &str, sep: char) -> (parts: Vec<String>)
    ensures
        parts.deep_view() == pieces(s@, sep),
{
    broadcast use vstd::string::group_string_axioms;

    let mut done: Vec<String> = Vec::new();
    let mut piece = String::new();
    for c in it: s.chars()
        invariant
            it.seq() == s@,
            pieces(s@.take(it.index()), sep).len() >= 1,
            done.deep_view() == pieces(s@.take(it.index()), sep).drop_last(),
            piece@ == pieces(s@.take(it.index()), sep).last(),
    {
        let ghost k = it.index();
        assert(s@.take(k + 1).drop_last() == s@.take(k));
        if c == sep {
            let ghost finished = done.deep_view().push(piece@);
            done.push(piece);
            piece = String::new();
            assert(done.deep_view() =~= finished);
        } else {
            piece.push(c);
        }
    }
    proof {
        assert(s@.take(s@.len() as int) == s@);
        let all = pieces(s@, sep);
        assert(all.drop_last().push(all.last()) =~= all);
    }
    done.push(piece);
    done
}

/// The records that rows of text stand for, in order. A row whose cells do not
/// make a record is passed over.
pub open spec fn titles_in(rows: Seq<Seq<char>>) -> Seq<TitleModel>
    decreases rows.len(),
{
    if rows.len() == 0 {
        Seq::empty()
    } else {
        let earlier = titles_in(rows.drop_last());
        match title_of_row(pieces(rows.last(), '\t')) {
            Some(record) => earlier.push(record),
            None => earlier,
        }
    }
}

/// The records that the text of a dataset holds: those of its lines, but for
/// the first, which is the header.
pub open spec fn titles_of_text(text: Seq<char>) -> Seq<TitleModel> {
    titles_in(pieces(text, '\n').skip(1))
}

/// Reads the records out of the text of a dataset.
pub fn parse_titles(text: &str) -> (records: Vec<TitleEntry>)
    ensures
        records.deep_view() == titles_of_text(text@),
{
    let lines = split(text, '\n');
    let ghost rows = lines.deep_view().skip(1);
    let mut records: Vec<TitleEntry> = Vec::new();
    let mut i: usize = 1;
    while i < lines.len()
        invariant
            1 <= i <= lines.len(),
            rows == lines.deep_view().skip(1),
            records.deep_view() == titles_in(rows.take(i - 1)),
        decreases lines.len() - i,
    {
        let cells = split(lines[i].as_str(), '\t');
        let mut items: Vec<&str> = Vec::new();
        let mut j: usize = 0;
        while j < cells.len()
            invariant
                j <= cells.len(),
                items.len() == j,
                forall|k: int| 0 <= k < j ==> (#[trigger] items[k])@ == cells[k]@,
            decreases cells.len() - j,
        {
            items.push(cells[j].as_str());
            j += 1;
        }
        assert(rows.take(i as int).drop_last() == rows.take(i - 1));
        if let Some(record) = TitleEntry::from_items(items) {
            records.push(record);
        }
        i += 1;
    }
    assert(rows.take(lines.len() - 1) == rows);
    records
}

} // verus!
