//! The seven operations. Each one is a single transaction on the ledger: it
//! checks the caller and the state of the records it names, and then either
//! takes effect as a whole or is refused and changes nothing.
//!
//! The two operations that pay take the token facility as a function. They
//! call it once, after all checks have passed, and record the effect only if
//! it reports success.

use vstd::prelude::*;
use crate::address::derive_application_address;
use crate::address::derive_job_address;
use crate::address::derive_payment_address;
use crate::address::option_view;
use crate::application::Application;
use crate::application::ApplicationStatus;
use crate::errors::JobError;
use crate::errors::TransferError;
use crate::identity::Identity;
use crate::job::Job;
use crate::ledger::Ledger;
use crate::payment::Payment;
use crate::payment::PaymentView;
use crate::records::follows;
use crate::records::yields;
use crate::records::Record;
use crate::transfer::may_end_with;
use crate::transfer::takes;
use crate::transfer::TransferOrder;

verus! {

/// Who posts a job.
#[derive(Clone, Copy, Debug, PartialEq, Eq)]
pub struct CreateJob {
    /// The party that signs and pays for the new record.
    pub employer: Identity,
}

/// Who applies, and to which job.
#[derive(Clone, Copy, Debug, PartialEq, Eq)]
pub struct ApplyForJob {
    /// Address of the job.
    pub job: Identity,
    /// The party that signs and applies.
    pub applicant: Identity,
}

/// Who assigns which job.
#[derive(Clone, Copy, Debug, PartialEq, Eq)]
pub struct AssignJob {
    /// Address of the job.
    pub job: Identity,
    /// The party that signs.
    pub employer: Identity,
}

/// Who completes which job, and between which token accounts the salary
/// moves.
#[derive(Clone, Copy, Debug, PartialEq, Eq)]
pub struct CompleteJob {
    /// Address of the job.
    pub job: Identity,
    /// The party that signs and pays.
    pub employer: Identity,
    /// Token account that the salary is taken from.
    pub employer_token_account: Identity,
    /// Token account that the salary goes to.
    pub worker_token_account: Identity,
}

/// Who cancels which job.
#[derive(Clone, Copy, Debug, PartialEq, Eq)]
pub struct CancelJob {
    /// Address of the job.
    pub job: Identity,
    /// The party that signs.
    pub employer: Identity,
}

/// Who sets the status of which application, and as employer of which job.
#[derive(Clone, Copy, Debug, PartialEq, Eq)]
pub struct UpdateApplicationStatus {
    /// Address of the application.
    pub application: Identity,
    /// Address of the job whose employer the caller must be.
    pub job: Identity,
    /// The party that signs.
    pub employer: Identity,
}

/// Who pays a platform fee, and between which token accounts it moves.
#[derive(Clone, Copy, Debug, PartialEq, Eq)]
pub struct PayPlatformFee {
    /// The party that signs and pays.
    pub user: Identity,
    /// Token account that the fee is taken from.
    pub user_token_account: Identity,
    /// Token account that the fee goes to.
    pub platform_token_account: Identity,
}

/// Posts a job at `address`, the address derived from its id.
pub fn create_job_at(
    ledger: &mut Ledger,
    address: Option<Identity>,
    job_id: u64,
    title: String,
    description: String,
    salary: u64,
    employer: Identity,
    now: i64,
) -> (result: Result<(), JobError>)
    ensures
        follows(
            result,
            old(ledger)@,
            final(ledger)@,
            old(ledger)@.create_job_at(option_view(address), job_id, title@, description@, salary, employer@, now),
        ),
{
    match address {
        None => Err(JobError::NoAddress),
        Some(address) => {
            if ledger.in_use(&address) {
                return Err(JobError::AddressAlreadyInUse);
            }
            match Job::create(job_id, title, description, salary, employer, now) {
                Err(e) => Err(e),
                Ok(job) => ledger.insert_if_absent(address, Record::Job(job)),
            }
        },
    }
}

/// Posts a job: stores a new open job, with no worker, at the address
/// derived from `job_id`. Refused with `AddressAlreadyInUse` when a record
/// lives there, and with `SerializationOverflow` when a text does not fit.
/// The employer of the job is the one given as argument; who signs plays no
/// part in what is stored.
#[allow(unused_variables)]
pub fn create_job(
    ledger: &mut Ledger,
    ctx: &CreateJob,
    job_id: u64,
    title: String,
    description: String,
    salary: u64,
    employer: Identity,
    now: i64,
) -> (result: Result<(), JobError>)
    ensures
        follows(
            result,
            old(ledger)@,
            final(ledger)@,
            old(ledger)@.create_job(job_id, title@, description@, salary, employer@, now),
        ),
{
    let program_id = ledger.program_id();
    let address = derive_job_address(&program_id, job_id);
    create_job_at(ledger, address, job_id, title, description, salary, employer, now)
}

/// Applies to a job with the application stored at `address`, the address
/// derived from the job's id and the applicant.
pub fn apply_for_job_at(
    ledger: &mut Ledger,
    address: Option<Identity>,
    ctx: &ApplyForJob,
    cover_letter: String,
    now: i64,
) -> (result: Result<(), JobError>)
    ensures
        follows(
            result,
            old(ledger)@,
            final(ledger)@,
            old(ledger)@.apply_for_job_at(option_view(address), ctx.job@, ctx.applicant@, cover_letter@, now),
        ),
{
    let job = match ledger.job(&ctx.job) {
        None => {
            return Err(JobError::RecordNotFound);
        },
        Some(job) => job,
    };
    match address {
        None => Err(JobError::NoAddress),
        Some(address) => {
            if ledger.in_use(&address) {
                return Err(JobError::AddressAlreadyInUse);
            }
            match Application::submit(job, ctx.applicant, cover_letter, now) {
                Err(e) => Err(e),
                Ok(application) => ledger.insert_if_absent(address, Record::Application(application)),
            }
        },
    }
}

/// Applies to a job: stores a new application at the address derived from
/// the job's id and the applicant. The job must be open and without a
/// worker.
pub fn apply_for_job(ledger: &mut Ledger, ctx: &ApplyForJob, cover_letter: String, now: i64) -> (result: Result<
    (),
    JobError,
>)
    ensures
        follows(
            result,
            old(ledger)@,
            final(ledger)@,
            old(ledger)@.apply_for_job(ctx.job@, ctx.applicant@, cover_letter@, now),
        ),
{
    let program_id = ledger.program_id();
    let job_id = match ledger.job(&ctx.job) {
        None => {
            return Err(JobError::RecordNotFound);
        },
        Some(job) => job.job_id,
    };
    let address = derive_application_address(&program_id, job_id, &ctx.applicant);
    apply_for_job_at(ledger, address, ctx, cover_letter, now)
}

/// Assigns a job to `worker`. Only the employer may do so, and only while the
/// job is open.
pub fn assign_job(ledger: &mut Ledger, ctx: &AssignJob, worker: Identity, now: i64) -> (result: Result<(), JobError>)
    ensures
        follows(
            result,
            old(ledger)@,
            final(ledger)@,
            old(ledger)@.assign_job(ctx.job@, ctx.employer@, worker@, now),
        ),
{
    let mut job = match ledger.job(&ctx.job) {
        None => {
            return Err(JobError::RecordNotFound);
        },
        Some(job) => job.clone(),
    };
    match job.assign(&ctx.employer, worker, now) {
        Err(e) => Err(e),
        Ok(_) => {
            ledger.replace(&ctx.job, Record::Job(job));
            Ok(())
        },
    }
}

/// Cancels a job. Only the employer may do so, and only while the job is
/// open.
pub fn cancel_job(ledger: &mut Ledger, ctx: &CancelJob, now: i64) -> (result: Result<(), JobError>)
    ensures
        follows(result, old(ledger)@, final(ledger)@, old(ledger)@.cancel_job(ctx.job@, ctx.employer@, now)),
{
    let mut job = match ledger.job(&ctx.job) {
        None => {
            return Err(JobError::RecordNotFound);
        },
        Some(job) => job.clone(),
    };
    match job.cancel(&ctx.employer, now) {
        Err(e) => Err(e),
        Ok(_) => {
            ledger.replace(&ctx.job, Record::Job(job));
            Ok(())
        },
    }
}

/// Checks that a job can be completed and says which transfer pays for it.
pub fn completion_order(ledger: &Ledger, ctx: &CompleteJob) -> (order: Result<TransferOrder, JobError>)
    ensures
        yields(
            order,
            ledger@.completion_order(
                ctx.job@,
                ctx.employer@,
                ctx.employer_token_account@,
                ctx.worker_token_account@,
            ),
        ),
{
    match ledger.job(&ctx.job) {
        None => Err(JobError::RecordNotFound),
        Some(job) => job.completion_order(&ctx.employer, ctx.employer_token_account, ctx.worker_token_account),
    }
}

/// Completes a job once the transfer of the salary has ended with `outcome`.
/// The job is marked completed only if the transfer succeeded; otherwise the
/// failure of the transfer is reported and the job stays in progress.
pub fn settle_job_completion(
    ledger: &mut Ledger,
    ctx: &CompleteJob,
    outcome: Result<(), TransferError>,
    now: i64,
) -> (result: Result<(), JobError>)
    ensures
        follows(
            result,
            old(ledger)@,
            final(ledger)@,
            old(ledger)@.settle_job_completion(ctx.job@, ctx.employer@, outcome, now),
        ),
{
    let mut job = match ledger.job(&ctx.job) {
        None => {
            return Err(JobError::RecordNotFound);
        },
        Some(job) => job.clone(),
    };
    match job.settle_completion(&ctx.employer, outcome, now) {
        Err(e) => Err(e),
        Ok(_) => {
            ledger.replace(&ctx.job, Record::Job(job));
            Ok(())
        },
    }
}

/// Completes a job and pays the worker. Only the employer may do so, and
/// only while the job is in progress. The salary is moved by `transfer`
/// from the employer's token account to the worker's; the job is marked
/// completed only if `transfer` reports success. `transfer` is not called
/// when the operation is refused beforehand.
pub fn complete_job<F: FnOnce(TransferOrder) -> Result<(), TransferError>>(
    ledger: &mut Ledger,
    ctx: &CompleteJob,
    now: i64,
    transfer: F,
) -> (result: Result<(), JobError>)
    requires
        old(ledger)@.completion_order(
            ctx.job@,
            ctx.employer@,
            ctx.employer_token_account@,
            ctx.worker_token_account@,
        ) matches Ok(asked) ==> takes(transfer, asked),
    ensures
        old(ledger)@.completion_order(
            ctx.job@,
            ctx.employer@,
            ctx.employer_token_account@,
            ctx.worker_token_account@,
        ) matches Err(e) ==> result == Err::<(), JobError>(e) && final(ledger)@ == old(ledger)@,
        old(ledger)@.completion_order(
            ctx.job@,
            ctx.employer@,
            ctx.employer_token_account@,
            ctx.worker_token_account@,
        ) matches Ok(asked) ==> exists|outcome: Result<(), TransferError>|
            may_end_with(transfer, asked, outcome) && follows(
                result,
                old(ledger)@,
                final(ledger)@,
                old(ledger)@.settle_job_completion(ctx.job@, ctx.employer@, outcome, now),
            ),
{
    match completion_order(ledger, ctx) {
        Err(e) => Err(e),
        Ok(order) => {
            let outcome = transfer(order);
            assert(may_end_with(transfer, order@, outcome));
            settle_job_completion(ledger, ctx, outcome, now)
        },
    }
}

/// Sets the status of an application. The caller must be the employer of the
/// job passed along; any status may follow any other.
pub fn update_application_status(
    ledger: &mut Ledger,
    ctx: &UpdateApplicationStatus,
    status: ApplicationStatus,
    now: i64,
) -> (result: Result<(), JobError>)
    ensures
        follows(
            result,
            old(ledger)@,
            final(ledger)@,
            old(ledger)@.update_application_status(ctx.application@, ctx.job@, ctx.employer@, status, now),
        ),
{
    let mut application = match ledger.application(&ctx.application) {
        None => {
            return Err(JobError::RecordNotFound);
        },
        Some(application) => application.clone(),
    };
    let updated = match ledger.job(&ctx.job) {
        None => {
            return Err(JobError::RecordNotFound);
        },
        Some(job) => application.set_status(job, &ctx.employer, status, now),
    };
    match updated {
        Err(e) => Err(e),
        Ok(_) => {
            ledger.replace(&ctx.application, Record::Application(application));
            Ok(())
        },
    }
}

/// Checks that a fee can be recorded at `address` and says which transfer
/// pays it.
pub fn fee_order_at(ledger: &Ledger, address: Option<Identity>, ctx: &PayPlatformFee, amount: u64) -> (order: Result<
    TransferOrder,
    JobError,
>)
    ensures
        yields(
            order,
            ledger@.fee_order_at(
                option_view(address),
                ctx.user@,
                ctx.user_token_account@,
                ctx.platform_token_account@,
                amount,
            ),
        ),
{
    match address {
        None => Err(JobError::NoAddress),
        Some(address) => {
            if ledger.in_use(&address) {
                Err(JobError::AddressAlreadyInUse)
            } else {
                Ok(Payment::fee_order(ctx.user, ctx.user_token_account, ctx.platform_token_account, amount))
            }
        },
    }
}

/// Records a fee at `address` once its transfer has ended with `outcome`: a
/// receipt is stored only if the transfer succeeded.
pub fn settle_platform_fee_at(
    ledger: &mut Ledger,
    address: Option<Identity>,
    ctx: &PayPlatformFee,
    amount: u64,
    outcome: Result<(), TransferError>,
    now: i64,
) -> (result: Result<(), JobError>)
    ensures
        follows(
            result,
            old(ledger)@,
            final(ledger)@,
            old(ledger)@.settle_platform_fee_at(option_view(address), ctx.user@, amount, outcome, now),
        ),
{
    match address {
        None => Err(JobError::NoAddress),
        Some(address) => {
            if ledger.in_use(&address) {
                return Err(JobError::AddressAlreadyInUse);
            }
            match Payment::settle(ctx.user, amount, outcome, now) {
                Err(e) => Err(e),
                Ok(payment) => ledger.insert_if_absent(address, Record::Payment(payment)),
            }
        },
    }
}

/// Pays a fee whose receipt goes to `address`, the address derived from the
/// user and the time.
pub fn pay_platform_fee_at<F: FnOnce(TransferOrder) -> Result<(), TransferError>>(
    ledger: &mut Ledger,
    address: Option<Identity>,
    ctx: &PayPlatformFee,
    amount: u64,
    now: i64,
    transfer: F,
) -> (result: Result<(), JobError>)
    requires
        takes(
            transfer,
            PaymentView::fee_order(ctx.user@, ctx.user_token_account@, ctx.platform_token_account@, amount),
        ),
    ensures
        old(ledger)@.fee_order_at(
            option_view(address),
            ctx.user@,
            ctx.user_token_account@,
            ctx.platform_token_account@,
            amount,
        ) matches Err(e) ==> result == Err::<(), JobError>(e) && final(ledger)@ == old(ledger)@,
        old(ledger)@.fee_order_at(
            option_view(address),
            ctx.user@,
            ctx.user_token_account@,
            ctx.platform_token_account@,
            amount,
        ) matches Ok(asked) ==> exists|outcome: Result<(), TransferError>|
            may_end_with(transfer, asked, outcome) && follows(
                result,
                old(ledger)@,
                final(ledger)@,
                old(ledger)@.settle_platform_fee_at(option_view(address), ctx.user@, amount, outcome, now),
            ),
{
    match fee_order_at(ledger, address, ctx, amount) {
        Err(e) => Err(e),
        Ok(order) => {
            let outcome = transfer(order);
            assert(may_end_with(transfer, order@, outcome));
            settle_platform_fee_at(ledger, address, ctx, amount, outcome, now)
        },
    }
}

/// Pays a platform fee. The fee is moved by `transfer` from the user's token
/// account to the platform's; a receipt with status `Completed` is stored at
/// the address derived from the user and `now` only if `transfer` reports
/// success. `transfer` is not called when the operation is refused
/// beforehand.
pub fn pay_platform_fee<F: FnOnce(TransferOrder) -> Result<(), TransferError>>(
    ledger: &mut Ledger,
    ctx: &PayPlatformFee,
    amount: u64,
    now: i64,
    transfer: F,
) -> (result: Result<(), JobError>)
    requires
        takes(
            transfer,
            PaymentView::fee_order(ctx.user@, ctx.user_token_account@, ctx.platform_token_account@, amount),
        ),
    ensures
        old(ledger)@.fee_order(
            ctx.user@,
            ctx.user_token_account@,
            ctx.platform_token_account@,
            amount,
            now,
        ) matches Err(e) ==> result == Err::<(), JobError>(e) && final(ledger)@ == old(ledger)@,
        old(ledger)@.fee_order(
            ctx.user@,
            ctx.user_token_account@,
            ctx.platform_token_account@,
            amount,
            now,
        ) matches Ok(asked) ==> exists|outcome: Result<(), TransferError>|
            may_end_with(transfer, asked, outcome) && follows(
                result,
                old(ledger)@,
                final(ledger)@,
                old(ledger)@.settle_platform_fee(ctx.user@, amount, outcome, now),
            ),
{
    let program_id = ledger.program_id();
    let address = derive_payment_address(&program_id, &ctx.user, now);
    pay_platform_fee_at(ledger, address, ctx, amount, now, transfer)
}

} // verus!
