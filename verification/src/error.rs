//! The ways in which the bot's operations fail.

use vstd::prelude::*;

verus! {

/// What went wrong. Only the last two stop the bot; the others become a reply
/// or a line in the error log.
#[derive(Clone, Copy, Debug, PartialEq, Eq, Structural)]
pub enum BotError {
    /// What the user sent breaks a rule: a title that is empty or blank.
    Validation,
    /// No title of the dataset bears the name that was looked up.
    NotFound,
    /// The watchlist was changed in memory, but writing it to disk failed.
    PersistenceWrite,
    /// The watchlist file is there, but what it holds cannot be read as a watchlist.
    CorruptState,
    /// The title dataset is missing or cannot be read.
    DatasetLoad,
}

impl BotError {
    /// Tells whether the bot must stop on this error.
    pub open spec fn is_fatal(self) -> bool {
        self == BotError::CorruptState || self == BotError::DatasetLoad
    }

    /// Tells whether the bot must stop on this error.
    #[verifier::when_used_as_spec(is_fatal)]
    pub fn fatal(self) -> (b: bool)
        ensures
            b == self.is_fatal(),
    {
        match self {
            BotError::CorruptState | BotError::DatasetLoad => true,
            _ => false,
        }
    }

    /// The text that describes this error.
    pub open spec fn message_text(self) -> Seq<char> {
        match self {
            BotError::Validation => "a title cannot be empty"@,
            BotError::NotFound => "no such title"@,
            BotError::PersistenceWrite => "the watchlist could not be written to disk"@,
            BotError::CorruptState => "the watchlist file is corrupt"@,
            BotError::DatasetLoad => "the title dataset could not be loaded"@,
        }
    }

    /// The text that describes this error.
    pub fn message(self) -> (text: String)
        ensures
            text@ == self.message_text(),
    {
        match self {
            BotError::Validation => "a title cannot be empty".to_owned(),
            BotError::NotFound => "no such title".to_owned(),
            BotError::PersistenceWrite => "the watchlist could not be written to disk".to_owned(),
            BotError::CorruptState => "the watchlist file is corrupt".to_owned(),
            BotError::DatasetLoad => "the title dataset could not be loaded".to_owned(),
        }
    }
}

} // verus!
