use vstd::prelude::*;

verus! {

/// Why an escrow operation was refused. A refused operation changes nothing.
#[derive(Clone, Copy, Debug, PartialEq, Eq, Structural)]
pub enum ErrorCode {
    /// Vault B holds less than 95% of the requested amount of asset B.
    InsufficientTakerTokens,
    /// An escrow record already occupies the derived address.
    AlreadyInitialized,
    /// A source account holds less than the transfer needs.
    InsufficientFunds,
    /// A zero amount was offered or requested.
    InvalidAmount,
    /// No escrow record lives at the given address.
    AccountNotInitialized,
    /// A token account is missing, or has the wrong owner or asset.
    InvalidAccount,
    /// The caller may not perform this operation on the escrow.
    Unauthorized,
    /// The stored seed and bump do not derive the escrow's address.
    InvalidSeeds,
    /// A credited balance would exceed `u64::MAX`.
    Overflow,
}

/// The description of each error.
pub open spec fn error_message(e: ErrorCode) -> Seq<char> {
    match e {
        ErrorCode::InsufficientTakerTokens => "Insufficient tokens in taker's vault - must be at least 95% of requested amount"@,
        ErrorCode::AlreadyInitialized => "Escrow already initialized"@,
        ErrorCode::InsufficientFunds => "Insufficient funds"@,
        ErrorCode::InvalidAmount => "Amounts must be greater than zero"@,
        ErrorCode::AccountNotInitialized => "Escrow record does not exist"@,
        ErrorCode::InvalidAccount => "Token account owner or mint mismatch"@,
        ErrorCode::Unauthorized => "Signer may not perform this operation"@,
        ErrorCode::InvalidSeeds => "Escrow address does not match its seeds"@,
        ErrorCode::Overflow => "Balance overflow"@,
    }
}

impl ErrorCode {
    /// A human-readable description of the error.
    pub fn message(&self) -> (r: String)
        ensures
            r@ == error_message(*self),
    {
        match self {
            ErrorCode::InsufficientTakerTokens => String::from_str(
                "Insufficient tokens in taker's vault - must be at least 95% of requested amount",
            ),
            ErrorCode::AlreadyInitialized => String::from_str("Escrow already initialized"),
            ErrorCode::InsufficientFunds => String::from_str("Insufficient funds"),
            ErrorCode::InvalidAmount => String::from_str("Amounts must be greater than zero"),
            ErrorCode::AccountNotInitialized => String::from_str("Escrow record does not exist"),
            ErrorCode::InvalidAccount => String::from_str("Token account owner or mint mismatch"),
            ErrorCode::Unauthorized => String::from_str("Signer may not perform this operation"),
            ErrorCode::InvalidSeeds => String::from_str("Escrow address does not match its seeds"),
            ErrorCode::Overflow => String::from_str("Balance overflow"),
        }
    }
}

} // verus!
