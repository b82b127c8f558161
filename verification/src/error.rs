//! The errors of the bot.

use vstd::prelude::*;
use vstd::string::StringExecFns;

use crate::decimal::IntErrorKind;

verus! {

/// Everything that can go wrong. Failures reported by other libraries (I/O,
/// JSON, Discord, the databases, HTTP, uuids) are kept as the text they
/// describe themselves with.
#[derive(Debug)]
pub enum Error {
    IoError(String),
    DeserializationError(String),
    BotError(String),
    SerenityError(String),
    ParseIntError(IntErrorKind),
    DatabaseError(String),
    MigrationError(String),
    ReqwestError(String),
    InvalidUuidError(String),
    TypeAuthdError(String),
}

/// How an integer parsing failure describes itself.
pub open spec fn int_error_text(kind: IntErrorKind) -> Seq<char> {
    match kind {
        IntErrorKind::Empty => "cannot parse integer from empty string"@,
        IntErrorKind::InvalidDigit => "invalid digit found in string"@,
        IntErrorKind::PosOverflow => "number too large to fit in target type"@,
    }
}

/// How an error describes itself.
pub open spec fn error_text(e: Error) -> Seq<char> {
    match e {
        Error::IoError(m) => "I/O error: "@ + m@,
        Error::DeserializationError(m) => "Deserialize error: "@ + m@,
        Error::BotError(m) => "Discord bot error: "@ + m@,
        Error::SerenityError(m) => "Discord API error: "@ + m@,
        Error::ParseIntError(k) => "Type mismatch error: "@ + int_error_text(k),
        Error::DatabaseError(m) => "Database error: "@ + m@,
        Error::MigrationError(m) => "Migration error: "@ + m@,
        Error::ReqwestError(m) => "Reqwest error: "@ + m@,
        Error::InvalidUuidError(m) => "Invalid uuid error: "@ + m@,
        Error::TypeAuthdError(m) => "TypeAuthD Error: "@ + m@,
    }
}

fn prefixed(prefix: &str, detail: &str) -> (r: String)
    ensures
        r@ == prefix@ + detail@,
{
    let mut out = String::from_str(prefix);
    out.append(detail);
    out
}

impl Error {
    /// An error of the bot itself.
    pub fn bot(s: &str) -> (e: Self)
        ensures
            e matches Error::BotError(m) && m@ == s@,
    {
        Error::BotError(String::from_str(s))
    }

    /// An error reported by the authentication service.
    pub fn auth(s: &str) -> (e: Self)
        ensures
            e matches Error::TypeAuthdError(m) && m@ == s@,
    {
        Error::TypeAuthdError(String::from_str(s))
    }

    /// The text the error describes itself with.
    pub fn message(&self) -> (r: String)
        ensures
            r@ == error_text(*self),
    {
        match self {
            Error::IoError(m) => prefixed("I/O error: ", m.as_str()),
            Error::DeserializationError(m) => prefixed("Deserialize error: ", m.as_str()),
            Error::BotError(m) => prefixed("Discord bot error: ", m.as_str()),
            Error::SerenityError(m) => prefixed("Discord API error: ", m.as_str()),
            Error::ParseIntError(k) => {
                let detail = match k {
                    IntErrorKind::Empty => "cannot parse integer from empty string",
                    IntErrorKind::InvalidDigit => "invalid digit found in string",
                    IntErrorKind::PosOverflow => "number too large to fit in target type",
                };
                prefixed("Type mismatch error: ", detail)
            },
            Error::DatabaseError(m) => prefixed("Database error: ", m.as_str()),
            Error::MigrationError(m) => prefixed("Migration error: ", m.as_str()),
            Error::ReqwestError(m) => prefixed("Reqwest error: ", m.as_str()),
            Error::InvalidUuidError(m) => prefixed("Invalid uuid error: ", m.as_str()),
            Error::TypeAuthdError(m) => prefixed("TypeAuthD Error: ", m.as_str()),
        }
    }
}

} // verus!
