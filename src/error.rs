//! The failures of base-chain processing, and their text.

use vstd::prelude::*;
use vstd::string::to_string_from_display_ensures;
use crate::types::{bits_text, hex_of, BurnchainHeaderHash, PoxId};

verus! {

/// A failure of the storage layer.
#[derive(Debug)]
pub enum DbError {
    NotFoundError,
    ExistsError,
    TypeError,
    Corruption,
    ParseError,
    Overflow,
    NoDBError,
    ReadOnly,
    TooBig,
    IOError(std::io::Error),
    Other(String),
}

impl DbError {
    /// Whether `text` is the display text of this error.
    pub open spec fn displays_as(&self, text: String) -> bool {
        match self {
            DbError::NotFoundError => text@ == "Object not found"@,
            DbError::ExistsError => text@ == "Object exists"@,
            DbError::TypeError => text@ == "Invalid or unrepresentable database type"@,
            DbError::Corruption => text@ == "Database is corrupt"@,
            DbError::ParseError => text@ == "Parse error"@,
            DbError::Overflow => text@ == "Numeric overflow"@,
            DbError::NoDBError => text@ == "Database does not exist"@,
            DbError::ReadOnly => text@ == "Database is opened read-only"@,
            DbError::TooBig => text@ == "Too much data"@,
            DbError::IOError(e) => to_string_from_display_ensures::<std::io::Error>(e, text),
            DbError::Other(m) => text@ == m@,
        }
    }

    /// The display text of the error.
    pub fn to_string(&self) -> (r: String)
        ensures
            self.displays_as(r),
    {
        match self {
            DbError::NotFoundError => String::from_str("Object not found"),
            DbError::ExistsError => String::from_str("Object exists"),
            DbError::TypeError => String::from_str("Invalid or unrepresentable database type"),
            DbError::Corruption => String::from_str("Database is corrupt"),
            DbError::ParseError => String::from_str("Parse error"),
            DbError::Overflow => String::from_str("Numeric overflow"),
            DbError::NoDBError => String::from_str("Database does not exist"),
            DbError::ReadOnly => String::from_str("Database is opened read-only"),
            DbError::TooBig => String::from_str("Too much data"),
            DbError::IOError(e) => e.to_string(),
            DbError::Other(m) => m.clone(),
        }
    }
}

/// The failure of one operation's structural or semantic validation.
#[derive(Clone, Debug, PartialEq, Eq)]
pub struct OpError {
    /// Why the operation was rejected.
    pub reason: String,
}

/// The ways processing of the base chain fails.
#[derive(Debug)]
pub enum Error {
    /// The chain and network pair is not supported.
    UnsupportedBurnchain,
    /// The base-chain driver failed.
    Bitcoin(String),
    /// Persistence failed.
    DBError(DbError),
    /// A download failed.
    DownloadError(String),
    /// Chain data is malformed.
    ParseError,
    /// A signalling channel is broken.
    ThreadChannelError,
    /// Block headers are missing.
    MissingHeaders,
    /// A parent block is missing.
    MissingParentBlock,
    /// A remote peer violated the protocol.
    BurnchainPeerBroken,
    /// The filesystem failed.
    FSError(std::io::Error),
    /// One operation failed validation.
    OpError(OpError),
    /// A transient condition; synchronize again.
    TrySyncAgain,
    /// The referenced block is not present locally.
    UnknownBlock(BurnchainHeaderHash),
    /// The first reward-cycle id does not descend from the canonical second.
    NonCanonicalPoxId(PoxId, PoxId),
    /// The coordinator's channel hung up.
    CoordinatorClosed,
}

/// Text between the two reward-cycle ids of a non-canonical id error.
pub open spec fn non_canonical_text(parent: Seq<bool>, child: Seq<bool>) -> Seq<char> {
    bits_text(parent) + " is not a descendant of the canonical parent PoXId: "@ + bits_text(
        child,
    )
}

impl Error {
    /// Whether `text` is the display text of this error; a wrapped error
    /// displays as the error it wraps.
    pub open spec fn displays_as(&self, text: String) -> bool {
        match self {
            Error::UnsupportedBurnchain => text@ == "Unsupported burnchain"@,
            Error::ParseError => text@ == "Parse error"@,
            Error::ThreadChannelError => text@ == "Error in thread channel"@,
            Error::MissingHeaders => text@ == "Missing block headers"@,
            Error::MissingParentBlock => text@ == "Missing parent block"@,
            Error::BurnchainPeerBroken => text@ == "Remote burnchain peer has misbehaved"@,
            Error::TrySyncAgain => text@ == "Try synchronizing again"@,
            Error::CoordinatorClosed => text@ == "ChainsCoordinator channel hung up"@,
            Error::Bitcoin(m) => text@ == m@,
            Error::DownloadError(m) => text@ == m@,
            Error::DBError(e) => e.displays_as(text),
            Error::FSError(e) => to_string_from_display_ensures::<std::io::Error>(e, text),
            Error::OpError(e) => text@ == e.reason@,
            Error::UnknownBlock(h) => text@ == "Unknown burnchain block "@ + hex_of(h.0@),
            Error::NonCanonicalPoxId(parent, child) => text@ == non_canonical_text(
                parent.0@,
                child.0@,
            ),
        }
    }

    /// The display text of the error.
    pub fn to_string(&self) -> (r: String)
        ensures
            self.displays_as(r),
    {
        match self {
            Error::UnsupportedBurnchain => String::from_str("Unsupported burnchain"),
            Error::ParseError => String::from_str("Parse error"),
            Error::ThreadChannelError => String::from_str("Error in thread channel"),
            Error::MissingHeaders => String::from_str("Missing block headers"),
            Error::MissingParentBlock => String::from_str("Missing parent block"),
            Error::BurnchainPeerBroken => String::from_str("Remote burnchain peer has misbehaved"),
            Error::TrySyncAgain => String::from_str("Try synchronizing again"),
            Error::CoordinatorClosed => String::from_str("ChainsCoordinator channel hung up"),
            Error::Bitcoin(m) => m.clone(),
            Error::DownloadError(m) => m.clone(),
            Error::DBError(e) => e.to_string(),
            Error::FSError(e) => e.to_string(),
            Error::OpError(e) => e.reason.clone(),
            Error::UnknownBlock(h) => {
                let hex = h.to_hex();
                String::from_str("Unknown burnchain block ").concat(hex.as_str())
            },
            Error::NonCanonicalPoxId(parent, child) => {
                let p = parent.to_text();
                let c = child.to_text();
                let r = p.concat(" is not a descendant of the canonical parent PoXId: ");
                r.concat(c.as_str())
            },
        }
    }
}

impl From<DbError> for Error {
    fn from(e: DbError) -> (r: Error) {
        Error::DBError(e)
    }
}

impl vstd::std_specs::convert::FromSpecImpl<DbError> for Error {
    open spec fn obeys_from_spec() -> bool {
        true
    }

    open spec fn from_spec(e: DbError) -> Error {
        Error::DBError(e)
    }
}

/// A storage error converted into this taxonomy displays exactly as it did.
pub proof fn lemma_wrapped_storage_error_displays_alike(e: DbError, text: String)
    ensures
        <Error as vstd::std_specs::convert::FromSpec<DbError>>::from_spec(e).displays_as(text)
            <==> e.displays_as(text),
{
}

} // verus!
