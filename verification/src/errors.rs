//! What an operation reports when it is refused.

use vstd::prelude::*;
use vstd::string::StringExecFns;

verus! {

/// Why the token facility refused a transfer.
#[derive(Clone, Copy, Debug, PartialEq, Eq, Structural)]
pub enum TransferError {
    /// The paying account holds less than the amount.
    InsufficientBalance,
    /// One of the two accounts is frozen.
    FrozenAccount,
    /// The two accounts hold different tokens.
    MintMismatch,
    /// The authority is not the live signer of the paying account.
    UnauthorizedSigner,
    /// Any other refusal of the facility.
    Rejected,
}

/// Why an operation was refused. Every refusal leaves all records as they
/// were.
#[derive(Clone, Copy, Debug, PartialEq, Eq, Structural)]
pub enum JobError {
    /// The job is not open.
    JobNotOpen,
    /// The job is not in progress.
    JobNotInProgress,
    /// The job already has a worker.
    JobAlreadyAssigned,
    /// The caller is not the employer of the job.
    Unauthorized,
    /// A record already lives at the address of the record to create.
    AddressAlreadyInUse,
    /// A text is longer than the capacity of its field.
    SerializationOverflow,
    /// The token facility refused the transfer.
    Transfer(TransferError),
    /// No record of the expected kind lives at the address given.
    RecordNotFound,
    /// The seeds of the record to create admit no address.
    NoAddress,
}

impl JobError {
    /// The text that describes this refusal.
    pub open spec fn message_text(self) -> Seq<char> {
        match self {
            JobError::JobNotOpen => "Job is not open"@,
            JobError::JobNotInProgress => "Job is not in progress"@,
            JobError::JobAlreadyAssigned => "Job is already assigned"@,
            JobError::Unauthorized => "Unauthorized"@,
            JobError::AddressAlreadyInUse => "Address is already in use"@,
            JobError::SerializationOverflow => "Field exceeds its capacity"@,
            JobError::Transfer(_) => "Token transfer failed"@,
            JobError::RecordNotFound => "Record not found"@,
            JobError::NoAddress => "No address for these seeds"@,
        }
    }

    /// The message shown for this refusal.
    pub fn message(&self) -> (text: String)
        ensures
            text@ == self.message_text(),
    {
        match self {
            JobError::JobNotOpen => String::from_str("Job is not open"),
            JobError::JobNotInProgress => String::from_str("Job is not in progress"),
            JobError::JobAlreadyAssigned => String::from_str("Job is already assigned"),
            JobError::Unauthorized => String::from_str("Unauthorized"),
            JobError::AddressAlreadyInUse => String::from_str("Address is already in use"),
            JobError::SerializationOverflow => String::from_str("Field exceeds its capacity"),
            JobError::Transfer(_) => String::from_str("Token transfer failed"),
            JobError::RecordNotFound => String::from_str("Record not found"),
            JobError::NoAddress => String::from_str("No address for these seeds"),
        }
    }
}

} // verus!
