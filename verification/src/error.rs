//! Errors of the registry and their classification.

use vstd::prelude::*;

verus! {

/// The four families into which the registry's errors fall.
#[derive(Clone, Copy, Debug, PartialEq, Eq, Structural)]
pub enum ErrorKind {
    /// The signer lacks the required authority.
    Authorization,
    /// A request value is malformed or out of range.
    Validation,
    /// The record is not in a state that admits the operation, or a supplied
    /// proof does not match what is stored.
    State,
    /// A balance or a bounded list cannot take the operation.
    Resource,
}

/// Why an operation was rejected. A rejected operation has changed nothing.
#[derive(Clone, Copy, Debug, PartialEq, Eq, Structural)]
pub enum ErrorCode {
    /// The identity has been superseded by a reissued record.
    InactiveIdentity,
    /// The signer lacks the authority that the operation asks for.
    Unauthorized,
    /// The handle is not `@` followed by lowercase letters and digits.
    InvalidHandleFormat,
    /// The identity token's address lacks the vanity suffix.
    InvalidMintAddress,
    /// The tier lies outside 1..=10.
    InvalidTier,
    /// The identity sits in the tier that earns no reward.
    TierNotEligible,
    /// A withdrawal would take the registry below its retained minimum.
    InsufficientBalance,
    /// The reward vault holds fewer tokens than asked for.
    InsufficientTokenBalance,
    /// The admin list is full.
    AdminLimitReached,
    /// The candidate is on the admin list already.
    AdminAlreadyExists,
    /// The key to remove is not on the admin list.
    AdminNotFound,
    /// The owner can never leave the admin list.
    CannotRemoveOwner,
    /// The actor cannot pay for the action.
    InsufficientFunds,
    /// The target has no linked handle on the platform.
    SnsNotFound,
    /// The linked handle differs from the one supplied.
    SnsHandleMismatch,
    /// The supplied handle is not the target's.
    HandleMismatch,
    /// The supplied identifier is not the target's.
    HexIdMismatch,
    /// No proof of the target's identity came with the request.
    NoIdentificationProvided,
}

impl ErrorCode {
    /// The family of each error.
    pub open spec fn spec_kind(self) -> ErrorKind {
        match self {
            ErrorCode::Unauthorized
            | ErrorCode::CannotRemoveOwner => ErrorKind::Authorization,
            ErrorCode::InvalidHandleFormat
            | ErrorCode::InvalidMintAddress
            | ErrorCode::InvalidTier
            | ErrorCode::AdminAlreadyExists
            | ErrorCode::NoIdentificationProvided => ErrorKind::Validation,
            ErrorCode::InactiveIdentity
            | ErrorCode::TierNotEligible
            | ErrorCode::AdminNotFound
            | ErrorCode::SnsNotFound
            | ErrorCode::SnsHandleMismatch
            | ErrorCode::HandleMismatch
            | ErrorCode::HexIdMismatch => ErrorKind::State,
            ErrorCode::InsufficientBalance
            | ErrorCode::InsufficientTokenBalance
            | ErrorCode::AdminLimitReached
            | ErrorCode::InsufficientFunds => ErrorKind::Resource,
        }
    }

    /// The family this error belongs to.
    #[verifier::when_used_as_spec(spec_kind)]
    pub fn kind(self) -> (kind: ErrorKind)
        ensures
            kind == self.spec_kind(),
    {
        match self {
            ErrorCode::Unauthorized
            | ErrorCode::CannotRemoveOwner => ErrorKind::Authorization,
            ErrorCode::InvalidHandleFormat
            | ErrorCode::InvalidMintAddress
            | ErrorCode::InvalidTier
            | ErrorCode::AdminAlreadyExists
            | ErrorCode::NoIdentificationProvided => ErrorKind::Validation,
            ErrorCode::InactiveIdentity
            | ErrorCode::TierNotEligible
            | ErrorCode::AdminNotFound
            | ErrorCode::SnsNotFound
            | ErrorCode::SnsHandleMismatch
            | ErrorCode::HandleMismatch
            | ErrorCode::HexIdMismatch => ErrorKind::State,
            ErrorCode::InsufficientBalance
            | ErrorCode::InsufficientTokenBalance
            | ErrorCode::AdminLimitReached
            | ErrorCode::InsufficientFunds => ErrorKind::Resource,
        }
    }

    /// The text shown to the user for each error.
    pub open spec fn spec_message(self) -> Seq<char> {
        match self {
            ErrorCode::InactiveIdentity => "This identity is no longer active."@,
            ErrorCode::Unauthorized => "You are not authorized to perform this action."@,
            ErrorCode::InvalidHandleFormat => "Handle format is invalid."@,
            ErrorCode::InvalidMintAddress => "Mint address must end with 'NEBU'."@,
            ErrorCode::InvalidTier => "Invalid tier specified."@,
            ErrorCode::TierNotEligible => "This tier is not eligible for rewards."@,
            ErrorCode::InsufficientBalance => "Insufficient SOL balance in global_state."@,
            ErrorCode::InsufficientTokenBalance => "Insufficient token balance in reward vault."@,
            ErrorCode::AdminLimitReached => "Maximum number of admins (10) has been reached."@,
            ErrorCode::AdminAlreadyExists => "This admin already exists."@,
            ErrorCode::AdminNotFound => "Admin not found in the list."@,
            ErrorCode::CannotRemoveOwner => "Cannot remove the owner from the admin list."@,
            ErrorCode::InsufficientFunds => "Insufficient NEBU for this action."@,
            ErrorCode::SnsNotFound => "SNS record not found for this platform."@,
            ErrorCode::SnsHandleMismatch => "SNS handle mismatch."@,
            ErrorCode::HandleMismatch => "Handle mismatch."@,
            ErrorCode::HexIdMismatch => "Hex ID mismatch."@,
            ErrorCode::NoIdentificationProvided => "At least one identification method must be provided."@,
        }
    }

    /// The text shown to the user for this error.
    pub fn message(self) -> (text: &'static str)
        ensures
            text@ == self.spec_message(),
    {
        match self {
            ErrorCode::InactiveIdentity => "This identity is no longer active.",
            ErrorCode::Unauthorized => "You are not authorized to perform this action.",
            ErrorCode::InvalidHandleFormat => "Handle format is invalid.",
            ErrorCode::InvalidMintAddress => "Mint address must end with 'NEBU'.",
            ErrorCode::InvalidTier => "Invalid tier specified.",
            ErrorCode::TierNotEligible => "This tier is not eligible for rewards.",
            ErrorCode::InsufficientBalance => "Insufficient SOL balance in global_state.",
            ErrorCode::InsufficientTokenBalance => "Insufficient token balance in reward vault.",
            ErrorCode::AdminLimitReached => "Maximum number of admins (10) has been reached.",
            ErrorCode::AdminAlreadyExists => "This admin already exists.",
            ErrorCode::AdminNotFound => "Admin not found in the list.",
            ErrorCode::CannotRemoveOwner => "Cannot remove the owner from the admin list.",
            ErrorCode::InsufficientFunds => "Insufficient NEBU for this action.",
            ErrorCode::SnsNotFound => "SNS record not found for this platform.",
            ErrorCode::SnsHandleMismatch => "SNS handle mismatch.",
            ErrorCode::HandleMismatch => "Handle mismatch.",
            ErrorCode::HexIdMismatch => "Hex ID mismatch.",
            ErrorCode::NoIdentificationProvided => "At least one identification method must be provided.",
        }
    }
}

} // verus!
