//! What the bot answers to each command.
//!
//! A command arrives as the words that follow its name. Each function here
//! computes the reply, and for `add` the change of the watchlist; receiving the
//! message, sending the reply and writing the file are the caller's part.

use crate::error::BotError;
use crate::index::{found, TitleIndex};
use crate::markup::{code_block, code_block_message, plain_message};
use crate::store::{appended, WatchlistStore};
use crate::text::{is_blank, join, joined, lowercase, starts_with, to_lowercase};
use crate::types::{answer_for, answer_line, BotEntry, TitleModel};
use crate::watchlist::{titles_of, EntryModel, Watchlist, WatchlistEntry};
use vstd::prelude::*;
use vstd::string::StringExecFns;

verus! {

/// The reply to `ping`.
pub fn ping() -> (reply: String)
    ensures
        reply@ == "pong!"@,
{
    "pong!".to_owned()
}

/// The title that the words of a command name: the words with one space between
/// each two, in lower case.
pub open spec fn title_of(words: Seq<Seq<char>>) -> Seq<char> {
    lowercase(joined(words, " "@))
}

/// The title that the words of a command name.
pub fn title_from_args(words: &Vec<String>) -> (title: String)
    ensures
        title@ == title_of(words.deep_view()),
{
    let spaced = join(words, " ");
    to_lowercase(spaced.as_str())
}

/// The entry that `add` makes of a title: the title, and every other field empty.
pub open spec fn entry_for(title: Seq<char>) -> EntryModel {
    EntryModel { title, year: Seq::empty(), director: Seq::empty(), added_by: Seq::empty() }
}

/// What `add` did.
#[derive(Debug)]
pub struct AddOutcome {
    /// What to answer.
    pub reply: String,
    /// The new watchlist, which is to be written to disk; none where nothing changed.
    pub to_persist: Option<Watchlist>,
}

/// The command `add`: appends the title that the words name to the watchlist.
/// Where the title is blank, the list stays as it is, the reply says why, and
/// there is nothing to write.
pub fn add(store: &mut WatchlistStore, words: &Vec<String>) -> (outcome: AddOutcome)
    ensures
        final(store)@ == appended(old(store)@, entry_for(title_of(words.deep_view()))),
        !is_blank(title_of(words.deep_view())) ==> {
            &&& outcome.reply@ == "added"@
            &&& outcome.to_persist is Some
            &&& outcome.to_persist->Some_0@ == old(store)@.push(
                entry_for(title_of(words.deep_view())),
            )
        },
        is_blank(title_of(words.deep_view())) ==> {
            &&& outcome.reply@ == BotError::Validation.message_text()
            &&& outcome.to_persist is None
        },
{
    let title = title_from_args(words);
    match store.append(WatchlistEntry::titled(title)) {
        Ok(list) => AddOutcome { reply: "added".to_owned(), to_persist: Some(list) },
        Err(_) => AddOutcome { reply: BotError::Validation.message(), to_persist: None },
    }
}

/// The reply to `list` for a watchlist: the titles, one to a line, as a code
/// block; for a list with nothing on it, the word `(empty)`.
pub open spec fn list_text(list: Seq<EntryModel>) -> Seq<char> {
    if list.len() == 0 {
        "(empty)"@
    } else {
        code_block(joined(titles_of(list), "\n"@))
    }
}

/// The command `list`.
pub fn list(watchlist: &Watchlist) -> (reply: String)
    ensures
        reply@ == list_text(watchlist@),
{
    if watchlist.is_empty() {
        "(empty)".to_owned()
    } else {
        let titles = watchlist.titles();
        let lines = join(&titles, "\n");
        code_block_message(lines.as_str())
    }
}

/// The reply to `lookup` for a title: the line that presents the record found,
/// or the words `couldn't find` and the title.
pub open spec fn lookup_text(records: Seq<TitleModel>, title: Seq<char>) -> Seq<char> {
    match found(records, title) {
        Some(record) => answer_line(answer_for(record)),
        None => "couldn't find "@ + title,
    }
}

/// The command `lookup`: looks the title that the words name up in the dataset.
pub fn lookup(index: &TitleIndex, words: &Vec<String>) -> (reply: String)
    ensures
        reply@ == lookup_text(index@, title_of(words.deep_view())),
{
    let title = title_from_args(words);
    match index.get(title.as_str()) {
        Ok(record) => BotEntry::for_title(&record).line(),
        Err(_) => {
            let mut reply = "couldn't find ".to_owned();
            reply.append(title.as_str());
            reply
        },
    }
}

/// What the bot says to a message that is no command: a greeting where the
/// message, in lower case, begins with `hello`, and nothing else.
pub open spec fn greeting_text(content: Seq<char>) -> Option<Seq<char>> {
    if "hello"@.is_prefix_of(lowercase(content)) {
        Some("もしもし"@)
    } else {
        None
    }
}

/// The reply to a message that is no command, if it calls for one.
pub fn greeting(content: &str) -> (reply: Option<String>)
    ensures
        match reply {
            Some(text) => greeting_text(content@) == Some(text@),
            None => greeting_text(content@) is None,
        },
{
    let lower = to_lowercase(content);
    if starts_with(lower.as_str(), "hello") {
        Some(plain_message("もしもし"))
    } else {
        None
    }
}

} // verus!
