//! The read-only context accompanying every callback: the request itself
//! (key pair, originating path, file size, process identity) and one
//! operation-specific payload per callback kind.  Nothing here is mutated;
//! it is informational only.

use vstd::prelude::*;
use crate::keys::KeyPair;

verus! {

/// Read-only metadata delivered with every callback.
#[derive(Clone, Debug)]
pub struct Request {
    /// The correlation key pair minted for this operation.
    pub keys: KeyPair,
    /// The path of the placeholder the callback concerns.
    pub path: String,
    /// The logical size of the placeholder's content.
    pub file_size: u64,
    /// The identifier of the process that triggered the callback, when
    /// available; zero otherwise.
    pub process_id: u32,
}

/// Payload of a hydration request: the byte range the system needs.
#[derive(Clone, Copy, Debug)]
pub struct FetchData {
    /// Start of the range that must be hydrated.
    pub required_offset: u64,
    /// Length of the range that must be hydrated.
    pub required_length: u64,
}

/// Payload of a hydration cancellation: the range no longer needed.
#[derive(Clone, Copy, Debug)]
pub struct CancelFetchData {
    /// Start of the range whose hydration was cancelled.
    pub offset: u64,
    /// Length of the range whose hydration was cancelled.
    pub length: u64,
}

/// Payload of a validation request: the byte range to verify.
#[derive(Clone, Copy, Debug)]
pub struct ValidateData {
    /// Start of the range to validate.
    pub offset: u64,
    /// Length of the range to validate.
    pub length: u64,
}

/// Payload of a directory-population request.
#[derive(Clone, Debug)]
pub struct FetchPlaceholders {
    /// The search pattern the enumeration was opened with.
    pub pattern: String,
}

/// Payload of a directory-population cancellation.
#[derive(Clone, Copy, Debug)]
pub struct CancelFetchPlaceholders {}

/// Payload delivered when a placeholder handle is opened.
#[derive(Clone, Copy, Debug)]
pub struct Opened {}

/// Payload delivered when a placeholder handle is closed.
#[derive(Clone, Copy, Debug)]
pub struct Closed {
    /// Whether the placeholder was deleted along with the close.
    pub deleted: bool,
}

/// Payload of a dehydration request.
#[derive(Clone, Copy, Debug)]
pub struct Dehydrate {
    /// Whether the dehydration was initiated in the background rather
    /// than by a user action.
    pub background: bool,
}

/// Payload delivered after a dehydration completed.
#[derive(Clone, Copy, Debug)]
pub struct Dehydrated {
    /// Whether the dehydration ran in the background.
    pub background: bool,
}

/// Payload of a deletion request.
#[derive(Clone, Copy, Debug)]
pub struct Delete {
    /// Whether the entry being deleted is a directory.
    pub is_directory: bool,
}

/// Payload delivered after a deletion completed.
#[derive(Clone, Copy, Debug)]
pub struct Deleted {}

/// Payload of a rename or move request.
#[derive(Clone, Debug)]
pub struct Rename {
    /// Where the entry is moving to.
    pub target_path: String,
}

/// Payload delivered after a rename or move completed.
#[derive(Clone, Debug)]
pub struct Renamed {
    /// Where the entry came from.
    pub source_path: String,
}

} // verus!
