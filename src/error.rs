use vstd::prelude::*;

verus! {

/// Every way an operation of the library can be refused.
#[derive(Clone, Copy, Debug, PartialEq, Eq, Structural)]
pub enum ErrorCode {
    UnauthorizedSigner,
    InsufficientApprovals,
    TimelockNotExpired,
    InvalidProposalState,
    ProposalAlreadyExecuted,
    ProposalAlreadyCancelled,
    MathOverflow,
    DescriptionTooLong,
    InvalidThreshold,
    TooManyMembers,
    DuplicateApproval,
    InvalidAccountVersion,
    DuplicateMember,
    InvalidArgument,
    InvalidPubkey,
    InvalidKeypair,
    NotFound,
    SystemPaused,
    DuplicateId,
}

impl ErrorCode {
    /// The message of each error.
    pub open spec fn spec_message(self) -> Seq<char> {
        match self {
            ErrorCode::UnauthorizedSigner => "Unauthorized signer - not a multisig member"@,
            ErrorCode::InsufficientApprovals => "Insufficient approvals - threshold not met"@,
            ErrorCode::TimelockNotExpired => "Timelock not expired"@,
            ErrorCode::InvalidProposalState => "Invalid proposal state"@,
            ErrorCode::ProposalAlreadyExecuted => "Proposal already executed"@,
            ErrorCode::ProposalAlreadyCancelled => "Proposal already cancelled"@,
            ErrorCode::MathOverflow => "Math overflow"@,
            ErrorCode::DescriptionTooLong => "Description too long"@,
            ErrorCode::InvalidThreshold => "Invalid multisig threshold"@,
            ErrorCode::TooManyMembers => "Too many members"@,
            ErrorCode::DuplicateApproval => "Duplicate approval"@,
            ErrorCode::InvalidAccountVersion => "Invalid account version"@,
            ErrorCode::DuplicateMember => "Duplicate multisig member"@,
            ErrorCode::InvalidArgument => "Invalid argument"@,
            ErrorCode::InvalidPubkey => "Invalid public key"@,
            ErrorCode::InvalidKeypair => "Invalid keypair"@,
            ErrorCode::NotFound => "Not found"@,
            ErrorCode::SystemPaused => "System is paused"@,
            ErrorCode::DuplicateId => "Identifier already in use"@,
        }
    }

    /// The human-readable message of the error.
    pub fn message(&self) -> (r: &'static str)
        ensures
            r@ == self.spec_message(),
    {
        match self {
            ErrorCode::UnauthorizedSigner => "Unauthorized signer - not a multisig member",
            ErrorCode::InsufficientApprovals => "Insufficient approvals - threshold not met",
            ErrorCode::TimelockNotExpired => "Timelock not expired",
            ErrorCode::InvalidProposalState => "Invalid proposal state",
            ErrorCode::ProposalAlreadyExecuted => "Proposal already executed",
            ErrorCode::ProposalAlreadyCancelled => "Proposal already cancelled",
            ErrorCode::MathOverflow => "Math overflow",
            ErrorCode::DescriptionTooLong => "Description too long",
            ErrorCode::InvalidThreshold => "Invalid multisig threshold",
            ErrorCode::TooManyMembers => "Too many members",
            ErrorCode::DuplicateApproval => "Duplicate approval",
            ErrorCode::InvalidAccountVersion => "Invalid account version",
            ErrorCode::DuplicateMember => "Duplicate multisig member",
            ErrorCode::InvalidArgument => "Invalid argument",
            ErrorCode::InvalidPubkey => "Invalid public key",
            ErrorCode::InvalidKeypair => "Invalid keypair",
            ErrorCode::NotFound => "Not found",
            ErrorCode::SystemPaused => "System is paused",
            ErrorCode::DuplicateId => "Identifier already in use",
        }
    }
}

} // verus!
