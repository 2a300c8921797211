//! The decisions around the files: what to make of what was read at start, and
//! of a write that failed.
//!
//! Reading, decoding and writing are the caller's part. It tells these
//! functions what happened and does what they answer.

use crate::error::BotError;
use crate::index::TitleIndex;
use crate::types::TitleEntry;
use crate::watchlist::{EntryModel, Watchlist};
use vstd::prelude::*;

verus! {

/// What reading a file gave.
#[derive(Debug)]
pub enum FileRead {
    /// There is no such file.
    Missing,
    /// The file is there, and this is what it holds.
    Contents(String),
}

/// What to do with the watchlist file once it was read.
#[derive(Debug)]
pub enum LoadStep {
    /// Nothing is left to do: start with this list.
    Ready(Watchlist),
    /// Decode this text, and hand the result to [`finish_load`].
    Decode(String),
}

/// Tells whether the watchlist file holds a list that has to be decoded: it is
/// there and not empty.
pub open spec fn holds_a_list(read: FileRead) -> bool {
    read matches FileRead::Contents(text) && text@.len() > 0
}

/// The first step of loading the watchlist. A file that is missing or empty
/// stands for the empty list, so that a bot that never ran can start. Any other
/// file has to be decoded.
pub fn begin_load(read: FileRead) -> (step: LoadStep)
    ensures
        match step {
            LoadStep::Ready(list) => !holds_a_list(read) && list@ == Seq::<EntryModel>::empty(),
            LoadStep::Decode(text) => holds_a_list(read) && read == FileRead::Contents(text),
        },
{
    match read {
        FileRead::Missing => LoadStep::Ready(Watchlist::new()),
        FileRead::Contents(text) => {
            if text.as_str().is_empty() {
                LoadStep::Ready(Watchlist::new())
            } else {
                LoadStep::Decode(text)
            }
        },
    }
}

/// The last step of loading the watchlist: `decoded` is the list that the file
/// holds, or nothing where its text could not be decoded. Such a file is
/// corrupt, and the bot must not start on it.
pub fn finish_load(decoded: Option<Watchlist>) -> (outcome: Result<Watchlist, BotError>)
    ensures
        match decoded {
            Some(list) => outcome == Ok::<Watchlist, BotError>(list),
            None => outcome == Err::<Watchlist, BotError>(BotError::CorruptState),
        },
{
    match decoded {
        Some(list) => Ok(list),
        None => Err(BotError::CorruptState),
    }
}

/// Makes the title index of the dataset that was read at start: `decoded` holds
/// its records, or nothing where the file is missing or could not be decoded,
/// on which the bot must not start.
pub fn load_dataset(decoded: Option<Vec<TitleEntry>>) -> (outcome: Result<TitleIndex, BotError>)
    ensures
        match decoded {
            Some(records) => (outcome matches Ok(index) && index@ == records.deep_view()),
            None => (outcome matches Err(e) && e == BotError::DatasetLoad),
        },
{
    match decoded {
        Some(records) => Ok(TitleIndex::build(records)),
        None => Err(BotError::DatasetLoad),
    }
}

/// What to report once the list was written after an append: nothing where the
/// write went well, and [`BotError::PersistenceWrite`] where it failed. The
/// append stands either way, and this error never stops the bot.
pub fn after_write(written: bool) -> (report: Option<BotError>)
    ensures
        written ==> report.is_none(),
        !written ==> report == Some(BotError::PersistenceWrite),
        report matches Some(e) ==> !e.is_fatal(),
{
    if written {
        None
    } else {
        Some(BotError::PersistenceWrite)
    }
}

} // verus!
