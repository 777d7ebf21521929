//! The errors the library reports.

use vstd::prelude::*;

verus! {

/// The kind of a chrono parse error (`chrono::format::ParseErrorKind`), which
/// is all that a chrono `ParseError` holds.
#[derive(PartialEq, Eq, Structural, Clone, Copy, Debug)]
pub enum ParseFailure {
    OutOfRange,
    Impossible,
    NotEnough,
    Invalid,
    TooShort,
    TooLong,
    BadFormat,
    /// A kind that this chrono version hides from its users.
    Other,
}

/// What went wrong. The errors of the Telegram, database, environment and
/// HTTP layers are carried as their messages; chrono's parse error by its kind.
#[derive(Debug)]
pub enum Error {
    TelegramError(String),
    SqlxError(String),
    EnvError(String),
    ReqwestError(String),
    ChronoError(ParseFailure),
    /// A date computation left the range of dates that chrono represents.
    DateOutOfRange,
}

} // verus!
