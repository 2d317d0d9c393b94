//! The receipt of a platform fee.

use vstd::prelude::*;
use crate::errors::JobError;
use crate::errors::TransferError;
use crate::identity::Identity;
use crate::records::yields;
use crate::transfer::may_end_with;
use crate::transfer::once_paid;
use crate::transfer::takes;
use crate::transfer::TransferOrder;
use crate::transfer::TransferOrderView;

verus! {

/// Where a payment stands. Only `Completed` is ever recorded.
#[derive(Clone, Copy, Debug, PartialEq, Eq, Structural)]
pub enum PaymentStatus {
    Pending,
    Completed,
    Failed,
}

/// The receipt of a platform fee that was paid.
#[derive(Clone, Copy, Debug, PartialEq, Eq)]
pub struct Payment {
    pub user: Identity,
    pub amount: u64,
    pub timestamp: i64,
    pub status: PaymentStatus,
}

/// A payment as plain values.
pub struct PaymentView {
    pub user: Seq<u8>,
    pub amount: u64,
    pub timestamp: i64,
    pub status: PaymentStatus,
}

impl View for Payment {
    type V = PaymentView;

    open spec fn view(&self) -> PaymentView {
        PaymentView { user: self.user@, amount: self.amount, timestamp: self.timestamp, status: self.status }
    }
}

impl PaymentView {
    /// The receipt of a fee of `amount` that `user` paid at `now`.
    pub open spec fn receipt(user: Seq<u8>, amount: u64, now: i64) -> PaymentView {
        PaymentView { user, amount, timestamp: now, status: PaymentStatus::Completed }
    }

    /// The payment that a fee asks for: the amount, from the user's token
    /// account to the platform's, authorised by the user.
    pub open spec fn fee_order(user: Seq<u8>, from: Seq<u8>, to: Seq<u8>, amount: u64) -> TransferOrderView {
        TransferOrderView { from, to, authority: user, amount }
    }

    /// What paying a fee at `now` leads to, given how the transfer ended: a
    /// receipt only if the transfer succeeded.
    pub open spec fn settle(user: Seq<u8>, amount: u64, outcome: Result<(), TransferError>, now: i64) -> Result<
        PaymentView,
        JobError,
    > {
        once_paid(outcome, PaymentView::receipt(user, amount, now))
    }

    /// What every payment that the operations produce satisfies: it records a
    /// transfer that succeeded.
    pub open spec fn well_formed(self) -> bool {
        self.status == PaymentStatus::Completed
    }
}

impl Payment {
    /// Bytes set aside for a stored payment.
    pub const LEN: usize = 8 + 32 + 8 + 8 + 1;

    /// The transfer that pays a fee of `amount` for `user`.
    pub fn fee_order(user: Identity, from: Identity, to: Identity, amount: u64) -> (order: TransferOrder)
        ensures
            order@ == PaymentView::fee_order(user@, from@, to@, amount),
    {
        TransferOrder { from, to, authority: user, amount }
    }

    /// The receipt of a fee of `amount` that `user` paid at `now`.
    pub fn receipt(user: Identity, amount: u64, now: i64) -> (payment: Payment)
        ensures
            payment@ == PaymentView::receipt(user@, amount, now),
    {
        Payment { user, amount, timestamp: now, status: PaymentStatus::Completed }
    }

    /// The receipt of a fee once its transfer has ended with `outcome`: there
    /// is one only if the transfer succeeded.
    pub fn settle(user: Identity, amount: u64, outcome: Result<(), TransferError>, now: i64) -> (settled: Result<
        Payment,
        JobError,
    >)
        ensures
            yields(settled, PaymentView::settle(user@, amount, outcome, now)),
    {
        match outcome {
            Err(e) => Err(JobError::Transfer(e)),
            Ok(_) => Ok(Payment::receipt(user, amount, now)),
        }
    }

    /// Pays a fee and writes its receipt in one step: has `transfer` move the
    /// amount from `from` to `to` on the authority of `user`, and makes a
    /// receipt only if the transfer succeeded.
    pub fn pay<F: FnOnce(TransferOrder) -> Result<(), TransferError>>(
        user: Identity,
        from: Identity,
        to: Identity,
        amount: u64,
        now: i64,
        transfer: F,
    ) -> (paid: Result<Payment, JobError>)
        requires
            takes(transfer, PaymentView::fee_order(user@, from@, to@, amount)),
        ensures
            exists|outcome: Result<(), TransferError>|
                may_end_with(transfer, PaymentView::fee_order(user@, from@, to@, amount), outcome) && yields(
                    paid,
                    PaymentView::settle(user@, amount, outcome, now),
                ),
    {
        let order = Payment::fee_order(user, from, to, amount);
        let outcome = transfer(order);
        assert(may_end_with(transfer, order@, outcome));
        Payment::settle(user, amount, outcome, now)
    }
}

} // verus!
