//! What the library asks of the token facility. The facility itself is
//! outside: the library says which transfer it wants and is told how the
//! transfer ended.

use vstd::prelude::*;
use crate::errors::JobError;
use crate::errors::TransferError;
use crate::identity::Identity;

verus! {

/// A request to move tokens, handed to the token facility.
#[derive(Clone, Copy, Debug, PartialEq, Eq)]
pub struct TransferOrder {
    /// Token account that pays.
    pub from: Identity,
    /// Token account that is paid.
    pub to: Identity,
    /// Who authorises the payment.
    pub authority: Identity,
    /// Amount in token base units.
    pub amount: u64,
}

/// A transfer order as plain values.
pub struct TransferOrderView {
    pub from: Seq<u8>,
    pub to: Seq<u8>,
    pub authority: Seq<u8>,
    pub amount: u64,
}

impl View for TransferOrder {
    type V = TransferOrderView;

    open spec fn view(&self) -> TransferOrderView {
        TransferOrderView {
            from: self.from@,
            to: self.to@,
            authority: self.authority@,
            amount: self.amount,
        }
    }
}

/// Whether `transfer` can be asked for `asked`.
pub open spec fn takes<F: FnOnce(TransferOrder) -> Result<(), TransferError>>(
    transfer: F,
    asked: TransferOrderView,
) -> bool {
    forall|order: TransferOrder| order@ == asked ==> transfer.requires((order,))
}

/// Whether `transfer`, asked for `asked`, may have ended with `outcome`.
pub open spec fn may_end_with<F: FnOnce(TransferOrder) -> Result<(), TransferError>>(
    transfer: F,
    asked: TransferOrderView,
    outcome: Result<(), TransferError>,
) -> bool {
    exists|order: TransferOrder| order@ == asked && transfer.ensures((order,), outcome)
}

/// What an effect that waits for a transfer comes to, given how the
/// transfer ended: the effect itself if the transfer succeeded, and the
/// failure of the transfer otherwise.
pub open spec fn once_paid<R>(outcome: Result<(), TransferError>, effect: R) -> Result<R, JobError> {
    match outcome {
        Ok(_) => Ok(effect),
        Err(e) => Err(JobError::Transfer(e)),
    }
}

} // verus!
