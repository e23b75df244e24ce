//! The reasons for which an operation of the ledger is rejected.

use soroban_sdk::ConversionError;
use vstd::prelude::*;
use vstd::std_specs::convert::FromSpecImpl;

verus! {

/// Why an operation was rejected. A rejected operation changes nothing.
#[derive(Clone, Copy, Debug, PartialEq, Eq, Structural, PartialOrd, Ord)]
pub enum Error {
    /// A stored value could not be read back as the type it was stored with.
    Conversion,
    /// The ledger was used before it was initialised.
    KeyExpected,
    /// No proposal has the given id.
    NotFound,
    /// The voter has already cast a ballot on the proposal.
    AlreadyVoted,
    /// The voter is not in the registry.
    NotInVoterList,
    /// The ballot is heavier than the voter's registered weight.
    WeightExceeded,
    /// A proposal with the given id exists already.
    DuplicatedEntity,
    /// The parent named for an RFC is not a PRD.
    ParentNotPRD,
    /// The proposal's voting deadline has passed.
    VotingClosed,
    /// The caller did not prove that it is the admin.
    Unauthorized,
}

impl Error {
    /// The number under which the error is reported to a caller of the
    /// contract.
    pub open spec fn spec_code(self) -> u32 {
        match self {
            Error::Conversion => 1,
            Error::KeyExpected => 2,
            Error::NotFound => 3,
            Error::AlreadyVoted => 4,
            Error::NotInVoterList => 5,
            Error::WeightExceeded => 6,
            Error::DuplicatedEntity => 7,
            Error::ParentNotPRD => 8,
            Error::VotingClosed => 9,
            Error::Unauthorized => 10,
        }
    }

    /// Returns the number under which the error is reported.
    pub fn code(self) -> (n: u32)
        ensures
            n == self.spec_code(),
    {
        match self {
            Error::Conversion => 1,
            Error::KeyExpected => 2,
            Error::NotFound => 3,
            Error::AlreadyVoted => 4,
            Error::NotInVoterList => 5,
            Error::WeightExceeded => 6,
            Error::DuplicatedEntity => 7,
            Error::ParentNotPRD => 8,
            Error::VotingClosed => 9,
            Error::Unauthorized => 10,
        }
    }
}

/// A value of the host that does not read as the type asked for is
/// reported as `Error::Conversion`.
impl From<ConversionError> for Error {
    fn from(e: ConversionError) -> (r: Error) {
        Error::Conversion
    }
}

impl FromSpecImpl<ConversionError> for Error {
    open spec fn obeys_from_spec() -> bool {
        true
    }

    open spec fn from_spec(e: ConversionError) -> Error {
        Error::Conversion
    }
}

} // verus!
