use vstd::prelude::*;

verus! {

/// Everything that an operation of this library can fail with.
#[derive(Clone, Debug, PartialEq, Eq)]
pub enum CwAssetError {
    /// The platform's validator turned the address down, for the reason given.
    InvalidAddress { address: String, reason: String },
    /// A native coin was needed and a contract-tracked token was given.
    NotNative,
    /// A contract-tracked token was needed and a native coin was given.
    NotContractToken,
    /// The sum of the two amounts does not fit the amount width.
    ArithmeticOverflow { left: u128, right: u128 },
    /// The second amount is larger than the first.
    ArithmeticUnderflow { left: u128, right: u128 },
    /// The list holds no asset of this kind; `info` is the kind as displayed.
    NotFound { info: String },
    /// The bytes are no encoding of an asset kind.
    MalformedKey,
    /// The platform reported that the create instruction failed.
    ProvisioningFailed { reason: String },
    /// The reply carries a tag that no create instruction of this library uses.
    UnknownReplyTag { id: u64 },
    /// The reply lacks the event or the attribute named in `missing`.
    MalformedCallback { missing: String },
    /// An outbound payload could not be serialised.
    Serialization,
    /// The denom is no token-factory denom.
    InvalidDenom,
    /// The funds sent along a message are not the single expected coin.
    UnexpectedFunds { mismatch: FundsMismatch },
    /// A list that had to hold `expected` assets holds `found`.
    WrongLength { expected: usize, found: usize },
    /// The balance query failed, for the reason given.
    QueryFailed { reason: String },
}

/// In which way the funds sent along a message differ from what was expected.
#[derive(Clone, Copy, Debug, PartialEq, Eq)]
pub enum FundsMismatch {
    /// Not exactly one coin was sent.
    CoinCount { received: usize },
    /// The one coin sent has another denom.
    Denom,
    /// The one coin sent has amount zero.
    ZeroAmount,
    /// The one coin sent has another amount than was declared.
    Amount,
}

} // verus!
