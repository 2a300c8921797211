//! The records of the movie dataset.

use crate::text::{decimal, parse_u32, parsed_u32, push_decimal, str_eq};
use vstd::string::StringExecFns;
use vstd::prelude::*;

verus! {

/// One row of the title dataset.
#[derive(Debug, PartialEq, Eq)]
pub struct TitleEntry {
    pub tconst: String,
    pub title_type: String,
    pub primary_title: String,
    pub original_title: String,
    pub is_adult: bool,
    pub start_year: u32,
    pub end_year: String,
    pub runtime_minutes: String,
    pub genres: String,
}

/// What a [`TitleEntry`] holds, as plain values.
pub struct TitleModel {
    pub tconst: Seq<char>,
    pub title_type: Seq<char>,
    pub primary_title: Seq<char>,
    pub original_title: Seq<char>,
    pub is_adult: bool,
    pub start_year: u32,
    pub end_year: Seq<char>,
    pub runtime_minutes: Seq<char>,
    pub genres: Seq<char>,
}

impl View for TitleEntry {
    type V = TitleModel;

    open spec fn view(&self) -> TitleModel {
        TitleModel {
            tconst: self.tconst@,
            title_type: self.title_type@,
            primary_title: self.primary_title@,
            original_title: self.original_title@,
            is_adult: self.is_adult,
            start_year: self.start_year,
            end_year: self.end_year@,
            runtime_minutes: self.runtime_minutes@,
            genres: self.genres@,
        }
    }
}

impl DeepView for TitleEntry {
    type V = TitleModel;

    open spec fn deep_view(&self) -> TitleModel {
        self@
    }
}

impl Clone for TitleEntry {
    fn clone(&self) -> (copy: Self)
        ensures
            copy == *self,
    {
        TitleEntry {
            tconst: self.tconst.clone(),
            title_type: self.title_type.clone(),
            primary_title: self.primary_title.clone(),
            original_title: self.original_title.clone(),
            is_adult: self.is_adult,
            start_year: self.start_year,
            end_year: self.end_year.clone(),
            runtime_minutes: self.runtime_minutes.clone(),
            genres: self.genres.clone(),
        }
    }
}

/// The number of cells in a row of the title dataset.
pub const TITLE_FIELDS: usize = 9;

/// The year that a cell writes, or `0` where it writes none.
pub open spec fn year_of(cell: Seq<char>) -> u32 {
    match parsed_u32(cell) {
        Some(year) => year,
        None => 0,
    }
}

/// The record that a row of cells stands for. A row of any other length than
/// [`TITLE_FIELDS`] stands for none.
pub open spec fn title_of_row(cells: Seq<Seq<char>>) -> Option<TitleModel> {
    if cells.len() == TITLE_FIELDS {
        Some(
            TitleModel {
                tconst: cells[0],
                title_type: cells[1],
                primary_title: cells[2],
                original_title: cells[3],
                is_adult: cells[4] == seq!['1'],
                start_year: year_of(cells[5]),
                end_year: cells[6],
                runtime_minutes: cells[7],
                genres: cells[8],
            },
        )
    } else {
        None
    }
}

/// The view of an optional record.
pub open spec fn title_view(entry: Option<TitleEntry>) -> Option<TitleModel> {
    match entry {
        Some(e) => Some(e@),
        None => None,
    }
}

impl TitleEntry {
    /// Builds a record from the cells of one dataset row: identifier, type,
    /// primary title, original title, adult flag (`1` for adult), start year,
    /// end year, runtime and genres. A start year that is no number becomes `0`.
    /// A row with another number of cells gives no record.
    pub fn from_items(items: Vec<&str>) -> (entry: Option<TitleEntry>)
        ensures
            title_view(entry) == title_of_row(items.deep_view()),
    {
        if items.len() == TITLE_FIELDS {
            let start_year = match parse_u32(items[5]) {
                Some(year) => year,
                None => 0,
            };
            let entry = TitleEntry {
                tconst: items[0].to_owned(),
                title_type: items[1].to_owned(),
                primary_title: items[2].to_owned(),
                original_title: items[3].to_owned(),
                is_adult: str_eq(items[4], "1"),
                start_year,
                end_year: items[6].to_owned(),
                runtime_minutes: items[7].to_owned(),
                genres: items[8].to_owned(),
            };
            proof {
                reveal_strlit("1");
                assert("1"@ =~= seq!['1']);
            }
            Some(entry)
        } else {
            None
        }
    }
}

/// One person of the name dataset.
#[allow(non_snake_case)]
#[derive(Debug, PartialEq, Eq)]
pub struct NameEntry {
    pub nconst: String,
    pub primaryName: String,
    pub birthYear: u32,
    pub deathyear: String,
    pub primaryProfession: Vec<String>,
    pub knownForTitles: Vec<String>,
}

/// What a [`NameEntry`] holds, as plain values.
pub struct NameModel {
    pub nconst: Seq<char>,
    pub primary_name: Seq<char>,
    pub birth_year: u32,
    pub death_year: Seq<char>,
    pub primary_profession: Seq<Seq<char>>,
    pub known_for_titles: Seq<Seq<char>>,
}

impl View for NameEntry {
    type V = NameModel;

    open spec fn view(&self) -> NameModel {
        NameModel {
            nconst: self.nconst@,
            primary_name: self.primaryName@,
            birth_year: self.birthYear,
            death_year: self.deathyear@,
            primary_profession: self.primaryProfession.deep_view(),
            known_for_titles: self.knownForTitles.deep_view(),
        }
    }
}

impl DeepView for NameEntry {
    type V = NameModel;

    open spec fn deep_view(&self) -> NameModel {
        self@
    }
}

impl Clone for NameEntry {
    fn clone(&self) -> (copy: Self)
        ensures
            copy@ == self@,
    {
        let copy = NameEntry {
            nconst: self.nconst.clone(),
            primaryName: self.primaryName.clone(),
            birthYear: self.birthYear,
            deathyear: self.deathyear.clone(),
            primaryProfession: self.primaryProfession.clone(),
            knownForTitles: self.knownForTitles.clone(),
        };
        proof {
            broadcast use vstd::std_specs::vec::vec_clone_deep_view_proof;
        }
        copy
    }
}

/// The record of a person of whom only the identifier is known: every text
/// field is empty, the birth year is `0`, and the two lists hold one empty string.
pub open spec fn unnamed(nconst: Seq<char>) -> NameModel {
    NameModel {
        nconst,
        primary_name: Seq::empty(),
        birth_year: 0,
        death_year: Seq::empty(),
        primary_profession: seq![Seq::<char>::empty()],
        known_for_titles: seq![Seq::<char>::empty()],
    }
}

/// The crew of one title: the identifiers of its directors and writers.
#[derive(Debug, PartialEq, Eq)]
pub struct CrewEntry {
    pub tconst: String,
    pub directors: Vec<String>,
    pub writers: Vec<String>,
}

/// What a [`CrewEntry`] holds, as plain values.
pub struct CrewModel {
    pub tconst: Seq<char>,
    pub directors: Seq<Seq<char>>,
    pub writers: Seq<Seq<char>>,
}

impl View for CrewEntry {
    type V = CrewModel;

    open spec fn view(&self) -> CrewModel {
        CrewModel {
            tconst: self.tconst@,
            directors: self.directors.deep_view(),
            writers: self.writers.deep_view(),
        }
    }
}

impl Clone for CrewEntry {
    fn clone(&self) -> (copy: Self)
        ensures
            copy@ == self@,
    {
        let copy = CrewEntry {
            tconst: self.tconst.clone(),
            directors: self.directors.clone(),
            writers: self.writers.clone(),
        };
        proof {
            broadcast use vstd::std_specs::vec::vec_clone_deep_view_proof;
        }
        copy
    }
}

/// The people that the directors of a crew expand to: one [`unnamed`] record
/// for each director, in the same order.
pub open spec fn expanded(directors: Seq<Seq<char>>) -> Seq<NameModel> {
    Seq::new(directors.len(), |i: int| unnamed(directors[i]))
}

impl CrewEntry {
    /// Gives one person record for each director of the crew, in order. Only the
    /// identifier is filled in; the writers are not expanded.
    pub fn expand(self) -> (names: Vec<NameEntry>)
        ensures
            names.deep_view() == expanded(self@.directors),
            names.len() == self.directors.len(),
    {
        let mut names: Vec<NameEntry> = Vec::new();
        let mut i: usize = 0;
        while i < self.directors.len()
            invariant
                i <= self.directors.len(),
                names.len() == i,
                forall|k: int| 0 <= k < i ==> (#[trigger] names[k])@ == unnamed(self.directors[k]@),
            decreases self.directors.len() - i,
        {
            let blank_professions: Vec<String> = vec![String::new()];
            let blank_titles: Vec<String> = vec![String::new()];
            let person = NameEntry {
                nconst: self.directors[i].clone(),
                primaryName: String::new(),
                birthYear: 0,
                deathyear: String::new(),
                primaryProfession: blank_professions,
                knownForTitles: blank_titles,
            };
            assert(person@.primary_profession == seq![Seq::<char>::empty()]);
            assert(person@.known_for_titles == seq![Seq::<char>::empty()]);
            names.push(person);
            i += 1;
        }
        names
    }
}

/// What the bot says of one title: the identifier, the title, the year, the
/// runtime and the director.
#[derive(Debug, PartialEq, Eq)]
pub struct BotEntry {
    pub tconst: String,
    pub title: String,
    pub year: u32,
    pub runtime: String,
    pub director: String,
}

/// What a [`BotEntry`] holds, as plain values.
pub struct BotModel {
    pub tconst: Seq<char>,
    pub title: Seq<char>,
    pub year: u32,
    pub runtime: Seq<char>,
    pub director: Seq<char>,
}

impl View for BotEntry {
    type V = BotModel;

    open spec fn view(&self) -> BotModel {
        BotModel {
            tconst: self.tconst@,
            title: self.title@,
            year: self.year,
            runtime: self.runtime@,
            director: self.director@,
        }
    }
}

/// What stands for the director of a title: the dataset names none.
pub open spec fn unknown_director() -> Seq<char> {
    "<unknown>"@
}

/// What the bot says of a record of the dataset: its original title, its start
/// year and its runtime, with no director known.
pub open spec fn answer_for(record: TitleModel) -> BotModel {
    BotModel {
        tconst: record.tconst,
        title: record.original_title,
        year: record.start_year,
        runtime: record.runtime_minutes,
        director: unknown_director(),
    }
}

/// The line that presents an answer: the title, the year in brackets, and the director.
pub open spec fn answer_line(answer: BotModel) -> Seq<char> {
    answer.title + " ("@ + decimal(answer.year as nat) + ") -- directed by "@ + answer.director
}

impl BotEntry {
    /// What the bot says of `record`.
    pub fn for_title(record: &TitleEntry) -> (answer: BotEntry)
        ensures
            answer@ == answer_for(record@),
    {
        BotEntry {
            tconst: record.tconst.clone(),
            title: record.original_title.clone(),
            year: record.start_year,
            runtime: record.runtime_minutes.clone(),
            director: "<unknown>".to_owned(),
        }
    }

    /// The line that presents this answer.
    pub fn line(&self) -> (text: String)
        ensures
            text@ == answer_line(self@),
    {
        let mut text = self.title.clone();
        text.append(" (");
        push_decimal(&mut text, self.year);
        text.append(") -- directed by ");
        text.append(self.director.as_str());
        text
    }
}

} // verus!
