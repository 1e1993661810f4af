//! The failures that an asset operation can report, with the tag that
//! stands for each on the wire.

use vstd::prelude::*;

verus! {

/// A failure of an asset operation.
#[derive(PartialEq, Eq, Copy, Clone, Debug, Structural)]
pub enum AssetsError {
    /// Account balance must be greater than or equal to the transfer amount.
    BalanceLow,
    /// The account to alter does not exist.
    NoAccount,
    /// The signing account has no permission to do the operation.
    NoPermission,
    /// The given asset ID is unknown.
    Unknown,
    /// The origin account is frozen.
    Frozen,
    /// The asset ID is already taken.
    InUse,
    /// Invalid witness data given.
    BadWitness,
    /// Minimum balance should be non-zero.
    MinBalanceZero,
    /// The consumer reference counters on the account cannot be incremented.
    UnavailableConsumer,
    /// Invalid metadata given.
    BadMetadata,
    /// No approval exists that would allow the transfer.
    Unapproved,
    /// The source account would not survive the transfer and it needs to stay alive.
    WouldDie,
    /// The asset-account already exists.
    AlreadyExists,
    /// The asset-account doesn't have an associated deposit.
    NoDeposit,
    /// The operation would result in funds being burned.
    WouldBurn,
    /// The asset is live and in use, where it had to be in a destroying state.
    LiveAsset,
    /// The asset is not live, and likely being destroyed.
    AssetNotLive,
    /// The asset status is not the expected status.
    IncorrectStatus,
    /// The asset should be frozen before the given operation.
    NotFrozen,
    /// A callback action resulted in an error.
    CallbackFailed,
    /// An error of the runtime that has no variant of its own.
    RuntimeError,
    /// The host gave a status code that this table does not hold.
    UnknownStatusCode,
    /// The output bytes could not be decoded.
    InvalidScaleEncoding,
}

impl AssetsError {
    /// The tag that stands for a variant in an encoded value. A failure that
    /// the host enumerates has the status code that reports it as its tag;
    /// `UnknownStatusCode` and `InvalidScaleEncoding`, which no status code
    /// reports, have the tags that follow the twenty-one enumerated variants.
    pub open spec fn tag_of(self) -> u8 {
        match self {
            AssetsError::BalanceLow => 1,
            AssetsError::NoAccount => 2,
            AssetsError::NoPermission => 3,
            AssetsError::Unknown => 4,
            AssetsError::Frozen => 5,
            AssetsError::InUse => 6,
            AssetsError::BadWitness => 7,
            AssetsError::MinBalanceZero => 8,
            AssetsError::UnavailableConsumer => 9,
            AssetsError::BadMetadata => 10,
            AssetsError::Unapproved => 11,
            AssetsError::WouldDie => 12,
            AssetsError::AlreadyExists => 13,
            AssetsError::NoDeposit => 14,
            AssetsError::WouldBurn => 15,
            AssetsError::LiveAsset => 16,
            AssetsError::AssetNotLive => 17,
            AssetsError::IncorrectStatus => 18,
            AssetsError::NotFrozen => 19,
            AssetsError::CallbackFailed => 20,
            AssetsError::RuntimeError => 99,
            AssetsError::UnknownStatusCode => 21,
            AssetsError::InvalidScaleEncoding => 22,
        }
    }

    /// The variant that a tag stands for, if any.
    pub open spec fn of_tag(tag: u8) -> Option<AssetsError> {
        if tag == 1 {
            Some(AssetsError::BalanceLow)
        } else if tag == 2 {
            Some(AssetsError::NoAccount)
        } else if tag == 3 {
            Some(AssetsError::NoPermission)
        } else if tag == 4 {
            Some(AssetsError::Unknown)
        } else if tag == 5 {
            Some(AssetsError::Frozen)
        } else if tag == 6 {
            Some(AssetsError::InUse)
        } else if tag == 7 {
            Some(AssetsError::BadWitness)
        } else if tag == 8 {
            Some(AssetsError::MinBalanceZero)
        } else if tag == 9 {
            Some(AssetsError::UnavailableConsumer)
        } else if tag == 10 {
            Some(AssetsError::BadMetadata)
        } else if tag == 11 {
            Some(AssetsError::Unapproved)
        } else if tag == 12 {
            Some(AssetsError::WouldDie)
        } else if tag == 13 {
            Some(AssetsError::AlreadyExists)
        } else if tag == 14 {
            Some(AssetsError::NoDeposit)
        } else if tag == 15 {
            Some(AssetsError::WouldBurn)
        } else if tag == 16 {
            Some(AssetsError::LiveAsset)
        } else if tag == 17 {
            Some(AssetsError::AssetNotLive)
        } else if tag == 18 {
            Some(AssetsError::IncorrectStatus)
        } else if tag == 19 {
            Some(AssetsError::NotFrozen)
        } else if tag == 20 {
            Some(AssetsError::CallbackFailed)
        } else if tag == 99 {
            Some(AssetsError::RuntimeError)
        } else if tag == 21 {
            Some(AssetsError::UnknownStatusCode)
        } else if tag == 22 {
            Some(AssetsError::InvalidScaleEncoding)
        } else {
            None
        }
    }

    /// Whether a status code reports one of the failures that the host
    /// enumerates.
    pub open spec fn is_known_status(status_code: u32) -> bool {
        1 <= status_code <= 20 || status_code == 99
    }

    /// What a status code means: `0` is success, an enumerated code is its
    /// variant, and every other code is `UnknownStatusCode`.
    pub open spec fn status_outcome(status_code: u32) -> Result<(), AssetsError> {
        if status_code == 0 {
            Ok(())
        } else if Self::is_known_status(status_code) {
            Err(Self::of_tag(status_code as u8)->0)
        } else {
            Err(AssetsError::UnknownStatusCode)
        }
    }

    /// The tag that stands for the variant in an encoded value.
    pub fn tag(self) -> (tag: u8)
        ensures
            tag == self.tag_of(),
    {
        match self {
            AssetsError::BalanceLow => 1,
            AssetsError::NoAccount => 2,
            AssetsError::NoPermission => 3,
            AssetsError::Unknown => 4,
            AssetsError::Frozen => 5,
            AssetsError::InUse => 6,
            AssetsError::BadWitness => 7,
            AssetsError::MinBalanceZero => 8,
            AssetsError::UnavailableConsumer => 9,
            AssetsError::BadMetadata => 10,
            AssetsError::Unapproved => 11,
            AssetsError::WouldDie => 12,
            AssetsError::AlreadyExists => 13,
            AssetsError::NoDeposit => 14,
            AssetsError::WouldBurn => 15,
            AssetsError::LiveAsset => 16,
            AssetsError::AssetNotLive => 17,
            AssetsError::IncorrectStatus => 18,
            AssetsError::NotFrozen => 19,
            AssetsError::CallbackFailed => 20,
            AssetsError::RuntimeError => 99,
            AssetsError::UnknownStatusCode => 21,
            AssetsError::InvalidScaleEncoding => 22,
        }
    }

    /// The variant that a tag stands for, if any.
    pub fn from_tag(tag: u8) -> (r: Option<AssetsError>)
        ensures
            r == Self::of_tag(tag),
            r is Some ==> r->0.tag_of() == tag,
    {
        match tag {
            1 => Some(AssetsError::BalanceLow),
            2 => Some(AssetsError::NoAccount),
            3 => Some(AssetsError::NoPermission),
            4 => Some(AssetsError::Unknown),
            5 => Some(AssetsError::Frozen),
            6 => Some(AssetsError::InUse),
            7 => Some(AssetsError::BadWitness),
            8 => Some(AssetsError::MinBalanceZero),
            9 => Some(AssetsError::UnavailableConsumer),
            10 => Some(AssetsError::BadMetadata),
            11 => Some(AssetsError::Unapproved),
            12 => Some(AssetsError::WouldDie),
            13 => Some(AssetsError::AlreadyExists),
            14 => Some(AssetsError::NoDeposit),
            15 => Some(AssetsError::WouldBurn),
            16 => Some(AssetsError::LiveAsset),
            17 => Some(AssetsError::AssetNotLive),
            18 => Some(AssetsError::IncorrectStatus),
            19 => Some(AssetsError::NotFrozen),
            20 => Some(AssetsError::CallbackFailed),
            99 => Some(AssetsError::RuntimeError),
            21 => Some(AssetsError::UnknownStatusCode),
            22 => Some(AssetsError::InvalidScaleEncoding),
            _ => None,
        }
    }

    /// Reads a status code of the host.
    pub fn from_status_code(status_code: u32) -> (r: Result<(), AssetsError>)
        ensures
            r == Self::status_outcome(status_code),
            r is Ok <==> status_code == 0,
            Self::is_known_status(status_code) ==> r is Err && r->Err_0.tag_of() == status_code,
            status_code != 0 && !Self::is_known_status(status_code) ==> r == Err::<
                (),
                AssetsError,
            >(AssetsError::UnknownStatusCode),
    {
        match status_code {
            0 => Ok(()),
            1 => Err(AssetsError::BalanceLow),
            2 => Err(AssetsError::NoAccount),
            3 => Err(AssetsError::NoPermission),
            4 => Err(AssetsError::Unknown),
            5 => Err(AssetsError::Frozen),
            6 => Err(AssetsError::InUse),
            7 => Err(AssetsError::BadWitness),
            8 => Err(AssetsError::MinBalanceZero),
            9 => Err(AssetsError::UnavailableConsumer),
            10 => Err(AssetsError::BadMetadata),
            11 => Err(AssetsError::Unapproved),
            12 => Err(AssetsError::WouldDie),
            13 => Err(AssetsError::AlreadyExists),
            14 => Err(AssetsError::NoDeposit),
            15 => Err(AssetsError::WouldBurn),
            16 => Err(AssetsError::LiveAsset),
            17 => Err(AssetsError::AssetNotLive),
            18 => Err(AssetsError::IncorrectStatus),
            19 => Err(AssetsError::NotFrozen),
            20 => Err(AssetsError::CallbackFailed),
            99 => Err(AssetsError::RuntimeError),
            _ => Err(AssetsError::UnknownStatusCode),
        }
    }
}

impl From<parity_scale_codec::Error> for AssetsError {
    /// Whatever the codec objected to, the failure is `InvalidScaleEncoding`.
    fn from(error: parity_scale_codec::Error) -> (r: Self) {
        AssetsError::InvalidScaleEncoding
    }
}

impl vstd::std_specs::convert::FromSpecImpl<parity_scale_codec::Error> for AssetsError {
    open spec fn obeys_from_spec() -> bool {
        true
    }

    open spec fn from_spec(error: parity_scale_codec::Error) -> Self {
        AssetsError::InvalidScaleEncoding
    }
}

/// Every variant is found again from its tag.
pub proof fn lemma_tag_round_trip(error: AssetsError)
    ensures
        AssetsError::of_tag(error.tag_of()) == Some(error),
{
}

/// A tag stands for at most one variant, and that variant has the tag.
pub proof fn lemma_tag_unique(tag: u8, error: AssetsError)
    ensures
        AssetsError::of_tag(tag) == Some(error) <==> error.tag_of() == tag,
{
}

/// A status code that the table holds is the tag of the variant that it
/// reports; every other status code but `0` is `UnknownStatusCode`, the tags
/// of `UnknownStatusCode` and `InvalidScaleEncoding` among them.
pub proof fn lemma_status_is_tag(status_code: u32)
    ensures
        AssetsError::is_known_status(status_code) ==> AssetsError::status_outcome(status_code)
            is Err && AssetsError::status_outcome(status_code)->Err_0.tag_of() == status_code,
        !AssetsError::is_known_status(status_code) && status_code != 0
            ==> AssetsError::status_outcome(status_code) == Err::<(), AssetsError>(
            AssetsError::UnknownStatusCode,
        ),
        AssetsError::status_outcome(0) == Ok::<(), AssetsError>(()),
{
}

} // verus!
