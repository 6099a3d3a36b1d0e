//! The error taxonomy of the core.

use vstd::prelude::*;

verus! {

/// Every way an operation of this core can fail.
///
/// Resource-absence errors (`AdapterNotFound`, `PeripheralPropertiesNotFound`,
/// `PeripheralNotFound`, `LocalNameNotFound`, `CharacteristicNotFound`) say the
/// requested entity did not exist at the time of the call. Capability errors
/// (`CharacteristicDoesNotSupportRead`, `Write`, `Notify`) say the operation
/// is structurally
/// disallowed by the characteristic's advertised flags, and are raised before
/// any platform call would be attempted. `Platform` stands for a failure of
/// the underlying BLE stack: the embedding that made the platform call holds
/// the actual error value and surfaces it as-is when the core decides the
/// failure is terminal.
#[derive(Clone, Copy, Debug, PartialEq, Eq, Structural)]
pub enum Error {
    Platform,
    AdapterNotFound,
    PeripheralPropertiesNotFound,
    PeripheralNotFound,
    LocalNameNotFound,
    CharacteristicNotFound,
    CharacteristicDoesNotSupportRead,
    CharacteristicDoesNotSupportWrite,
    CharacteristicDoesNotSupportNotify,
}

} // verus!
