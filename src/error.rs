use vstd::prelude::*;

verus! {

/// Every way a registry or lifecycle operation can fail.
#[derive(Clone, Debug)]
pub enum GameError {
    /// No registry record exists for the requested name.
    NotFound,
    /// A record file exists but does not decode as a record.
    CorruptRecord,
    /// No valid credential is available.
    AuthRequired,
    /// The catalog does not know the requested game.
    GameNotFound,
    /// The catalog reported some other failure, with its message.
    CatalogError(String),
    /// A filesystem operation failed, with its message.
    IoError(String),
    /// The executable a record points to does not exist (the path looked for).
    ExecutableMissing(String),
    /// The process could not be created, with the message.
    LaunchFailed(String),
}

/// The mathematical value of a `GameError`.
pub enum ErrorKind {
    NotFound,
    CorruptRecord,
    AuthRequired,
    GameNotFound,
    CatalogError(Seq<char>),
    IoError(Seq<char>),
    ExecutableMissing(Seq<char>),
    LaunchFailed(Seq<char>),
}

impl View for GameError {
    type V = ErrorKind;

    open spec fn view(&self) -> ErrorKind {
        match self {
            GameError::NotFound => ErrorKind::NotFound,
            GameError::CorruptRecord => ErrorKind::CorruptRecord,
            GameError::AuthRequired => ErrorKind::AuthRequired,
            GameError::GameNotFound => ErrorKind::GameNotFound,
            GameError::CatalogError(m) => ErrorKind::CatalogError(m@),
            GameError::IoError(m) => ErrorKind::IoError(m@),
            GameError::ExecutableMissing(p) => ErrorKind::ExecutableMissing(p@),
            GameError::LaunchFailed(m) => ErrorKind::LaunchFailed(m@),
        }
    }
}

} // verus!
