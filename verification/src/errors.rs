use vstd::prelude::*;

verus! {

/// Why an operation of the vault was refused. A refused operation leaves
/// every state it was given as it found it.
#[derive(Clone, Copy, Debug, PartialEq, Eq, Structural)]
pub enum StakeError {
    /// The key to remove is not a reward source.
    NotRewarderYet,
    /// The key to add is already a reward source.
    AlreadyRewarder,
    /// The user is already on the blacklist.
    AlreadyBlacklisted,
    /// The user is not on the blacklist.
    NotBlacklisted,
    /// The caller is not the administrator.
    NotAdmin,
    /// The caller is not an approved reward source.
    NotRewarder,
    /// The user may neither stake nor unstake.
    Blacklisted,
    /// The user is not among the stakers.
    UserNotFound,
    /// The token is not the one this vault takes.
    WrongToken,
    /// Less has matured than was asked for.
    AssetsUnavailable,
    /// The share token has fewer decimals than the deposit token.
    BadStakingTokenDecimals,
    /// The share supply is positive and below the configured minimum.
    MinSharesViolation,
    /// A deposit of assets would mint no share.
    ZeroShares,
    /// The deposit token is not the vault's.
    BadDepositToken,
    /// The previous reward has not fully vested.
    RewardVestingOngoing,
    /// A vesting period of zero was asked for.
    InvalidVestingPeriod,
    /// The cooldown asked for is longer than the configured maximum.
    InvalidCooldown,
    /// The cooldown slot of the user is in no state to be collected.
    InvalidCooldownState,
    /// The decimal padding of the virtual share supply is above eight.
    InvalidOffset,
    /// Burning shares would pay out no asset.
    ZeroAssets,
    /// A result does not fit its integer type.
    Overflow,
    /// A difference would be negative: the time lies before the last
    /// distribution, or more would leave the vault than is vested in it.
    Underflow,
}

impl StakeError {
    /// The text of `message`.
    pub open spec fn message_text(&self) -> Seq<char> {
        match self {
            StakeError::NotRewarderYet => "The provided key is not yet a rewarder"@,
            StakeError::AlreadyRewarder => "The provided key is already a rewarder"@,
            StakeError::AlreadyBlacklisted => "The provided key is already blacklisted"@,
            StakeError::NotBlacklisted => "The provided key is not currently blacklisted"@,
            StakeError::NotAdmin => "The caller is not an admin"@,
            StakeError::NotRewarder => "The caller is not a rewarder"@,
            StakeError::Blacklisted => "The user is prohibited from staking"@,
            StakeError::UserNotFound => "The user was not found in current stakers"@,
            StakeError::WrongToken => "That token is not available for staking"@,
            StakeError::AssetsUnavailable => "Insufficient assets available"@,
            StakeError::BadStakingTokenDecimals => "Bad Staking Token Decimals, they must be gte than the deposit token"@,
            StakeError::MinSharesViolation => "Total shares are below minimum for staking or unstaking"@,
            StakeError::ZeroShares => "Deposit is too small to receive shares"@,
            StakeError::BadDepositToken => "Bad Deposit Token"@,
            StakeError::RewardVestingOngoing => "Reward vesting is ongoing"@,
            StakeError::InvalidVestingPeriod => "Vesting period must be non-zero"@,
            StakeError::InvalidCooldown => "Invalid cooldown duration"@,
            StakeError::InvalidCooldownState => "Invalid cooldown state"@,
            StakeError::InvalidOffset => "Share offset must be at most eight"@,
            StakeError::ZeroAssets => "Shares are too few to redeem assets"@,
            StakeError::Overflow => "Arithmetic overflow"@,
            StakeError::Underflow => "Arithmetic underflow"@,
        }
    }

    /// A sentence that says what went wrong.
    pub fn message(&self) -> (r: String)
        ensures
            r@ == self.message_text(),
    {
        match self {
            StakeError::NotRewarderYet => "The provided key is not yet a rewarder".to_string(),
            StakeError::AlreadyRewarder => "The provided key is already a rewarder".to_string(),
            StakeError::AlreadyBlacklisted => "The provided key is already blacklisted".to_string(),
            StakeError::NotBlacklisted => "The provided key is not currently blacklisted".to_string(),
            StakeError::NotAdmin => "The caller is not an admin".to_string(),
            StakeError::NotRewarder => "The caller is not a rewarder".to_string(),
            StakeError::Blacklisted => "The user is prohibited from staking".to_string(),
            StakeError::UserNotFound => "The user was not found in current stakers".to_string(),
            StakeError::WrongToken => "That token is not available for staking".to_string(),
            StakeError::AssetsUnavailable => "Insufficient assets available".to_string(),
            StakeError::BadStakingTokenDecimals => "Bad Staking Token Decimals, they must be gte than the deposit token".to_string(),
            StakeError::MinSharesViolation => "Total shares are below minimum for staking or unstaking".to_string(),
            StakeError::ZeroShares => "Deposit is too small to receive shares".to_string(),
            StakeError::BadDepositToken => "Bad Deposit Token".to_string(),
            StakeError::RewardVestingOngoing => "Reward vesting is ongoing".to_string(),
            StakeError::InvalidVestingPeriod => "Vesting period must be non-zero".to_string(),
            StakeError::InvalidCooldown => "Invalid cooldown duration".to_string(),
            StakeError::InvalidCooldownState => "Invalid cooldown state".to_string(),
            StakeError::InvalidOffset => "Share offset must be at most eight".to_string(),
            StakeError::ZeroAssets => "Shares are too few to redeem assets".to_string(),
            StakeError::Overflow => "Arithmetic overflow".to_string(),
            StakeError::Underflow => "Arithmetic underflow".to_string(),
        }
    }
}

} // verus!
