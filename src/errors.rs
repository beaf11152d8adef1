use vstd::prelude::*;

verus! {

/// Every way in which an operation of the registry can be refused.
#[derive(Clone, Copy, Debug, PartialEq, Eq, Structural)]
pub enum Unit09Error {
    /// A required string is empty.
    StringEmpty,
    /// A string is longer than its declared maximum byte length.
    StringTooLong,
    /// A numeric value is outside its admissible range.
    ValueOutOfRange,
    /// A fee in basis points is above 10000.
    InvalidFeeBps,
    /// A URI does not start with one of the accepted schemes.
    MetadataInvalid,
    /// The caller is not the recorded owner of the entity.
    InvalidAuthority,
    /// The caller is not the configured admin.
    InvalidAdmin,
    /// The deployment configuration is marked inactive.
    DeploymentInactive,
    /// The global write switch is off.
    WritesDisabled,
    /// The repository is marked inactive.
    RepoInactive,
    /// The module is marked inactive.
    ModuleInactive,
    /// The module is deprecated and can no longer change.
    ModuleImmutable,
    /// The version snapshot has already been deprecated.
    AlreadyDeprecated,
    /// A checked counter update would overflow or go below zero.
    CounterOverflow,
    /// An observation reports more data than one observation may carry.
    ObservationDataTooLarge,
    /// An address does not match the one derived from its seeds.
    InvalidPda,
    /// No address could be derived from the given seeds.
    InternalError,
}

} // verus!
