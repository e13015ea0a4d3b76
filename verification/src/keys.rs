//! Correlation keys: opaque identifiers scoping one in-flight operation to
//! one connection.  A `(connection, transfer)` pair is minted by the system
//! immediately before a callback fires and is never constructed by provider
//! logic; it stays valid until the operation resolves.

use vstd::prelude::*;

verus! {

/// The raw connection key handed out when a sync root is connected.
pub type RawConnectionKey = i64;

/// The raw transfer key scoping a single operation on a connection.
pub type RawTransferKey = i64;

/// The `(connection, transfer)` pair identifying one in-flight operation.
#[derive(Clone, Copy, Debug, PartialEq, Eq, Structural, Hash)]
pub struct KeyPair {
    pub connection: RawConnectionKey,
    pub transfer: RawTransferKey,
}

impl KeyPair {
    pub fn new(connection: RawConnectionKey, transfer: RawTransferKey) -> (r: KeyPair)
        ensures
            r.connection == connection,
            r.transfer == transfer,
    {
        KeyPair { connection, transfer }
    }
}

} // verus!
