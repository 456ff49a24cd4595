//! What a look at the attached readers found.

use vstd::prelude::*;
use vstd::string::StringExecFns;
use crate::device::{error_text, handle_pcsc_error, DeviceError};

verus! {

/// The outcome of asking the card-access subsystem for the attached readers.
#[derive(Debug, Clone, PartialEq, Eq)]
pub enum ReaderListing {
    /// The names of the attached readers, in the order reported.
    Readers(Vec<String>),
    /// No connection to the subsystem could be established.
    ContextFailed(DeviceError),
    /// The connection stood, but listing the readers failed.
    ListFailed(DeviceError),
}

/// A snapshot of reader connectivity.
#[derive(Debug, Clone, PartialEq, Eq)]
pub struct ReaderStatus {
    pub connected: bool,
    pub name: Option<String>,
}

/// Whether a listing shows at least one reader. A failed listing shows none.
pub open spec fn reader_seen(listing: ReaderListing) -> bool {
    listing matches ReaderListing::Readers(names) && names@.len() > 0
}

/// The position of the primary reader in a listing: the first one listed.
/// Only the primary reader is connected to.
pub const PRIMARY_READER: usize = 0;

/// The name of the reader at a position of a listing, if there is one.
pub open spec fn reader_at(listing: ReaderListing, position: int) -> Option<String> {
    match listing {
        ReaderListing::Readers(names) => if 0 <= position < names@.len() {
            Some(names@[position])
        } else {
            None
        },
        _ => None,
    }
}

/// The name of the primary reader: the first one listed.
pub open spec fn primary_reader(listing: ReaderListing) -> Option<String> {
    reader_at(listing, PRIMARY_READER as int)
}

/// The message for a listing that failed.
pub open spec fn listing_failure_text(listing: ReaderListing) -> Seq<char> {
    match listing {
        ReaderListing::Readers(_) => Seq::empty(),
        ReaderListing::ContextFailed(error) => "Failed to establish PCSC context: "@ + error_text(
            error,
        ),
        ReaderListing::ListFailed(error) => "Failed to list readers: "@ + error_text(error),
    }
}

impl ReaderListing {
    /// Whether at least one reader is attached.
    pub fn has_reader(&self) -> (seen: bool)
        ensures
            seen == reader_seen(*self),
    {
        match self {
            ReaderListing::Readers(names) => names.len() > 0,
            _ => false,
        }
    }

    /// The primary reader, if any reader is attached.
    pub fn first_reader(&self) -> (name: Option<&String>)
        ensures
            match name {
                Some(n) => primary_reader(*self) == Some(*n),
                None => primary_reader(*self) is None,
            },
    {
        match self {
            ReaderListing::Readers(names) => if names.len() > PRIMARY_READER {
                Some(&names[PRIMARY_READER])
            } else {
                None
            },
            _ => None,
        }
    }
}

/// Answers a query for the reader status from a fresh listing: connected
/// with the primary reader's name, or not connected; a failed listing is
/// reported with its message.
pub fn check_reader_connection(listing: &ReaderListing) -> (result: Result<ReaderStatus, String>)
    ensures
        match result {
            Ok(status) => {
                &&& *listing is Readers
                &&& status.connected == reader_seen(*listing)
                &&& status.name == primary_reader(*listing)
            },
            Err(message) => {
                &&& !(*listing is Readers)
                &&& message@ == listing_failure_text(*listing)
            },
        },
{
    match listing {
        ReaderListing::Readers(names) => {
            if names.len() > 0 {
                Ok(ReaderStatus { connected: true, name: Some(names[0].clone()) })
            } else {
                Ok(ReaderStatus { connected: false, name: None })
            }
        },
        ReaderListing::ContextFailed(error) => {
            let detail: String = handle_pcsc_error(error);
            Err(String::from_str("Failed to establish PCSC context: ").concat(detail.as_str()))
        },
        ReaderListing::ListFailed(error) => {
            let detail: String = handle_pcsc_error(error);
            Err(String::from_str("Failed to list readers: ").concat(detail.as_str()))
        },
    }
}

} // verus!
