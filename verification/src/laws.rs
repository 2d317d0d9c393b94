//! What holds of the operations, whatever the ledger and the arguments.

use vstd::prelude::*;
use crate::address::application_address;
use crate::address::job_address;
use crate::address::payment_address;
use crate::application::ApplicationStatus;
use crate::errors::JobError;
use crate::errors::TransferError;
use crate::identity::zero_identity;
use crate::identity::Identity;
use crate::job::JobStatus;
use crate::job::JobView;
use crate::model::LedgerView;
use crate::model::Operation;
use crate::payment::PaymentStatus;
use crate::payment::PaymentView;
use crate::records::RecordView;

verus! {

/// An identity is its bytes: two identities with the same bytes are the
/// same identity, so nothing is lost where a contract speaks of the bytes.
pub proof fn identity_is_its_bytes(a: Identity, b: Identity)
    requires
        a@ == b@,
    ensures
        a == b,
{
    assert(a.bytes =~= b.bytes);
}

/// Whether a job may go from one status to another in one step: an open job
/// may go to in progress or to cancelled, a job in progress to completed,
/// and nothing else moves.
pub open spec fn may_follow(before: JobStatus, after: JobStatus) -> bool {
    ||| before == JobStatus::Open && after == JobStatus::InProgress
    ||| before == JobStatus::Open && after == JobStatus::Cancelled
    ||| before == JobStatus::InProgress && after == JobStatus::Completed
}

/// Whether a job that has one status can have another after any number of
/// steps: it can stay as it is, an open job can become anything, and a job in
/// progress can become completed.
pub open spec fn can_become(before: JobStatus, after: JobStatus) -> bool {
    ||| before == after
    ||| before == JobStatus::Open
    ||| before == JobStatus::InProgress && after == JobStatus::Completed
}

/// Posting a job under an id that was posted before is refused with
/// `AddressAlreadyInUse`, whatever the other arguments are, and the first
/// job stands as it was posted.
pub proof fn second_create_job_is_refused(
    ledger: LedgerView,
    job_id: u64,
    first: (Seq<char>, Seq<char>, u64, Seq<u8>, i64),
    second: (Seq<char>, Seq<char>, u64, Seq<u8>, i64),
)
    requires
        ledger.create_job(job_id, first.0, first.1, first.2, first.3, first.4) is Ok,
    ensures
        ({
            let posted = ledger.create_job(job_id, first.0, first.1, first.2, first.3, first.4)->Ok_0;
            &&& posted.create_job(job_id, second.0, second.1, second.2, second.3, second.4) == Err::<
                LedgerView,
                JobError,
            >(JobError::AddressAlreadyInUse)
            &&& job_address(ledger.program_id, job_id) matches Some(address) && posted.job_at(address) == Some(
                JobView::posted(job_id, first.0, first.1, first.2, first.3, first.4),
            )
        }),
{
}

/// Assigning a job is refused with `Unauthorized` for every caller but the
/// employer stored in the job, whatever the status of the job.
pub proof fn assign_job_needs_the_employer(ledger: LedgerView, job: Seq<u8>, caller: Seq<u8>, worker: Seq<u8>, now: i64)
    requires
        ledger.job_at(job) matches Some(found) && found.employer != caller,
    ensures
        ledger.assign_job(job, caller, worker, now) == Err::<LedgerView, JobError>(JobError::Unauthorized),
{
}

/// Assigning a job that is in progress, completed or cancelled is refused
/// with `JobNotOpen` when the employer asks for it.
pub proof fn assign_job_needs_an_open_job(ledger: LedgerView, job: Seq<u8>, caller: Seq<u8>, worker: Seq<u8>, now: i64)
    requires
        ledger.job_at(job) matches Some(found) && found.employer == caller && found.status != JobStatus::Open,
    ensures
        ledger.assign_job(job, caller, worker, now) == Err::<LedgerView, JobError>(JobError::JobNotOpen),
{
}

/// Completing a job and paying for it are one step: the job is marked
/// completed exactly when the employer asks for it, the job is in progress
/// and the transfer succeeded. When the transfer failed, its failure is
/// reported, and the job, like all other records, is as it was: in progress.
pub proof fn completion_stands_or_falls_with_the_transfer(
    ledger: LedgerView,
    job: Seq<u8>,
    caller: Seq<u8>,
    outcome: Result<(), TransferError>,
    now: i64,
)
    requires
        ledger.job_at(job) matches Some(found) && found.employer == caller && found.status
            == JobStatus::InProgress,
    ensures
        outcome matches Err(e) ==> ledger.settle_job_completion(job, caller, outcome, now) == Err::<
            LedgerView,
            JobError,
        >(JobError::Transfer(e)),
        outcome is Ok ==> (ledger.settle_job_completion(job, caller, outcome, now) matches Ok(after)
            && after.job_at(job) == Some(ledger.job_at(job)->Some_0.completed(now))),
{
}

/// A second application of the same applicant to a job with the same id is
/// refused with `AddressAlreadyInUse`, whatever its cover letter says.
pub proof fn second_application_is_refused(
    ledger: LedgerView,
    job: Seq<u8>,
    applicant: Seq<u8>,
    first: (Seq<char>, i64),
    again: Seq<u8>,
    second: (Seq<char>, i64),
)
    requires
        ledger.apply_for_job(job, applicant, first.0, first.1) is Ok,
        ledger.job_at(again) matches Some(other) && other.job_id == ledger.job_at(job)->Some_0.job_id,
    ensures
        ({
            let applied = ledger.apply_for_job(job, applicant, first.0, first.1)->Ok_0;
            applied.apply_for_job(again, applicant, second.0, second.1) == Err::<LedgerView, JobError>(
                JobError::AddressAlreadyInUse,
            )
        }),
{
}

/// The employer of the job passed along may give an application any status,
/// whatever status it has; every other caller is refused with
/// `Unauthorized`.
pub proof fn application_status_is_unconstrained(
    ledger: LedgerView,
    application: Seq<u8>,
    job: Seq<u8>,
    caller: Seq<u8>,
    status: ApplicationStatus,
    now: i64,
)
    requires
        ledger.application_at(application) is Some,
        ledger.job_at(job) is Some,
    ensures
        ledger.job_at(job)->Some_0.employer == caller ==> (ledger.update_application_status(
            application,
            job,
            caller,
            status,
            now,
        ) matches Ok(after) && after.application_at(application) == Some(
            ledger.application_at(application)->Some_0.with_status(status, now),
        ) && after.job_at(job) == ledger.job_at(job)),
        ledger.job_at(job)->Some_0.employer != caller ==> ledger.update_application_status(
            application,
            job,
            caller,
            status,
            now,
        ) == Err::<LedgerView, JobError>(JobError::Unauthorized),
{
}

/// A receipt is stored only for a fee whose transfer succeeded, and it says
/// `Completed`: a failed transfer is reported and stores nothing.
pub proof fn receipt_stands_for_a_transfer_made(
    ledger: LedgerView,
    user: Seq<u8>,
    amount: u64,
    outcome: Result<(), TransferError>,
    now: i64,
)
    ensures
        outcome is Err ==> ledger.settle_platform_fee(user, amount, outcome, now) is Err,
        ledger.settle_platform_fee(user, amount, outcome, now) matches Ok(after) ==> (payment_address(
            ledger.program_id,
            user,
            now,
        ) matches Some(address) && !ledger.in_use(address) && after.payment_at(address) == Some(
            PaymentView { user, amount, timestamp: now, status: PaymentStatus::Completed },
        )),
{
}

/// Whether a record is still the same record at a later point, after any
/// number of operations: it is of the same kind, an application or a payment
/// keeps what identifies it, and a job keeps what identifies and describes
/// it, with a status that it can have reached from the one it had.
pub open spec fn same_record_later(before: RecordView, after: RecordView) -> bool {
    match (before, after) {
        (RecordView::Job(before), RecordView::Job(after)) => {
            &&& after.job_id == before.job_id
            &&& after.title == before.title
            &&& after.description == before.description
            &&& after.salary == before.salary
            &&& after.employer == before.employer
            &&& after.created_at == before.created_at
            &&& can_become(before.status, after.status)
        },
        (RecordView::Application(before), RecordView::Application(after)) => {
            &&& after.job_id == before.job_id
            &&& after.applicant == before.applicant
            &&& after.cover_letter == before.cover_letter
            &&& after.applied_at == before.applied_at
        },
        (RecordView::Payment(before), RecordView::Payment(after)) => after == before,
        _ => false,
    }
}

/// No operation removes a record or changes what kind of record lives at an
/// address; a payment stays as it is, an application keeps what identifies
/// it, and a job stays the same job, at the same status or one step further.
pub proof fn operations_keep_records(ledger: LedgerView, operation: Operation, now: i64, address: Seq<u8>)
    requires
        ledger.apply(operation, now) is Ok,
        ledger.in_use(address),
    ensures
        ({
            let after = ledger.apply(operation, now)->Ok_0;
            &&& after.program_id == ledger.program_id
            &&& after.in_use(address)
            &&& same_record_later(ledger.records[address], after.records[address])
            &&& ledger.records[address] matches RecordView::Job(before) ==> (after.job_at(address) matches Some(
                job,
            ) && (job.status == before.status || may_follow(before.status, job.status)))
        }),
{
}

/// In a well formed ledger no operation takes a worker from a job or puts
/// another in the place of one: a job that has a worker keeps it.
pub proof fn operations_keep_the_worker(ledger: LedgerView, operation: Operation, now: i64, address: Seq<u8>)
    requires
        ledger.well_formed(),
        ledger.apply(operation, now) is Ok,
        ledger.job_at(address) matches Some(before) && before.worker != zero_identity(),
    ensures
        (ledger.apply(operation, now)->Ok_0).job_at(address) matches Some(job) && job.worker
            == ledger.job_at(address)->Some_0.worker,
{
}

/// The address that an operation writes to when it takes effect: the
/// address of the record that it creates or changes.
pub open spec fn written_address(ledger: LedgerView, operation: Operation, now: i64) -> Option<Seq<u8>> {
    match operation {
        Operation::CreateJob { job_id, .. } => job_address(ledger.program_id, job_id),
        Operation::ApplyForJob { job, applicant, .. } => match ledger.job_at(job) {
            Some(found) => application_address(ledger.program_id, found.job_id, applicant),
            None => None,
        },
        Operation::AssignJob { job, .. } => Some(job),
        Operation::CompleteJob { job, .. } => Some(job),
        Operation::CancelJob { job, .. } => Some(job),
        Operation::UpdateApplicationStatus { application, .. } => Some(application),
        Operation::PayPlatformFee { user, .. } => payment_address(ledger.program_id, user, now),
    }
}

/// An operation that takes effect writes one record, at the address that the
/// operation names or derives, and leaves every other record as it was.
pub proof fn operations_write_one_record(ledger: LedgerView, operation: Operation, now: i64)
    requires
        ledger.apply(operation, now) is Ok,
    ensures
        ({
            let after = ledger.apply(operation, now)->Ok_0;
            written_address(ledger, operation, now) matches Some(address) && after.in_use(address) && after
                == ledger.with_record(address, after.records[address])
        }),
{
}

/// The ledger that holds no record is well formed.
pub proof fn empty_ledger_is_well_formed(program_id: Seq<u8>)
    ensures
        LedgerView::empty(program_id).well_formed(),
{
}

/// Every operation leads from a well formed ledger to a well formed one.
pub proof fn operations_keep_the_ledger_well_formed(ledger: LedgerView, operation: Operation, now: i64)
    requires
        ledger.well_formed(),
        ledger.apply(operation, now) is Ok,
    ensures
        (ledger.apply(operation, now)->Ok_0).well_formed(),
{
}

/// In a well formed ledger a job id names at most one job, and an applicant
/// has at most one application to the job of a given id.
pub proof fn records_are_unique(ledger: LedgerView, one: Seq<u8>, other: Seq<u8>)
    requires
        ledger.well_formed(),
    ensures
        (ledger.job_at(one) matches Some(a) && ledger.job_at(other) matches Some(b) && a.job_id == b.job_id)
            ==> one == other,
        (ledger.application_at(one) matches Some(a) && ledger.application_at(other) matches Some(b)
            && a.job_id == b.job_id && a.applicant == b.applicant) ==> one == other,
        (ledger.payment_at(one) matches Some(a) && ledger.payment_at(other) matches Some(b) && a.user
            == b.user && a.timestamp == b.timestamp) ==> one == other,
{
}

/// Whatever operations follow, in whatever order and whether they take
/// effect or are refused, a record that lives at an address goes on living
/// there as the same record.
pub proof fn records_last(ledger: LedgerView, operations: Seq<(Operation, i64)>, address: Seq<u8>)
    requires
        ledger.in_use(address),
    ensures
        ledger.after_all(operations).program_id == ledger.program_id,
        ledger.after_all(operations).in_use(address),
        same_record_later(ledger.records[address], ledger.after_all(operations).records[address]),
    decreases operations.len(),
{
    if operations.len() > 0 {
        let earlier = ledger.after_all(operations.drop_last());
        records_last(ledger, operations.drop_last(), address);
        let (operation, now) = operations.last();
        if earlier.apply(operation, now) is Ok {
            operations_keep_records(earlier, operation, now, address);
        }
    }
}

/// Whatever operations are made on it, a well formed ledger stays well
/// formed; so does, in particular, each ledger built up from the empty one.
pub proof fn ledger_stays_well_formed(ledger: LedgerView, operations: Seq<(Operation, i64)>)
    requires
        ledger.well_formed(),
    ensures
        ledger.after_all(operations).well_formed(),
    decreases operations.len(),
{
    if operations.len() > 0 {
        let earlier = ledger.after_all(operations.drop_last());
        ledger_stays_well_formed(ledger, operations.drop_last());
        let (operation, now) = operations.last();
        if earlier.apply(operation, now) is Ok {
            operations_keep_the_ledger_well_formed(earlier, operation, now);
        }
    }
}

/// Once a job is posted under an id, no job can be posted under that id
/// again, whatever operations were made in between: the attempt is refused
/// with `AddressAlreadyInUse`, and the job posted first is still there.
pub proof fn job_id_stays_taken(
    ledger: LedgerView,
    job_id: u64,
    first: (Seq<char>, Seq<char>, u64, Seq<u8>, i64),
    between: Seq<(Operation, i64)>,
    second: (Seq<char>, Seq<char>, u64, Seq<u8>, i64),
)
    requires
        ledger.create_job(job_id, first.0, first.1, first.2, first.3, first.4) is Ok,
    ensures
        ({
            let posted = ledger.create_job(job_id, first.0, first.1, first.2, first.3, first.4)->Ok_0;
            let later = posted.after_all(between);
            &&& later.create_job(job_id, second.0, second.1, second.2, second.3, second.4) == Err::<
                LedgerView,
                JobError,
            >(JobError::AddressAlreadyInUse)
            &&& job_address(ledger.program_id, job_id) matches Some(address) && (later.job_at(address) matches Some(
                job,
            ) && job.job_id == job_id && job.title == first.0 && job.description == first.1 && job.salary
                == first.2 && job.employer == first.3 && job.created_at == first.4)
        }),
{
    let posted = ledger.create_job(job_id, first.0, first.1, first.2, first.3, first.4)->Ok_0;
    let address = job_address(ledger.program_id, job_id)->Some_0;
    records_last(posted, between, address);
}

/// Once a party has applied to a job, it cannot apply again to a job of
/// that id, whatever the cover letter and whatever operations were made in
/// between: the attempt is refused with `AddressAlreadyInUse`.
pub proof fn application_stays_unique(
    ledger: LedgerView,
    job: Seq<u8>,
    applicant: Seq<u8>,
    first: (Seq<char>, i64),
    between: Seq<(Operation, i64)>,
    again: Seq<u8>,
    second: (Seq<char>, i64),
)
    requires
        ledger.apply_for_job(job, applicant, first.0, first.1) is Ok,
        (ledger.apply_for_job(job, applicant, first.0, first.1)->Ok_0).after_all(between).job_at(again) matches Some(
            other,
        ) && other.job_id == ledger.job_at(job)->Some_0.job_id,
    ensures
        ({
            let applied = ledger.apply_for_job(job, applicant, first.0, first.1)->Ok_0;
            applied.after_all(between).apply_for_job(again, applicant, second.0, second.1) == Err::<
                LedgerView,
                JobError,
            >(JobError::AddressAlreadyInUse)
        }),
{
    let found = ledger.job_at(job)->Some_0;
    let address = application_address(ledger.program_id, found.job_id, applicant)->Some_0;
    let applied = ledger.apply_for_job(job, applicant, first.0, first.1)->Ok_0;
    records_last(applied, between, address);
}

/// A job that is completed or cancelled stays so, and a job in progress can
/// only become completed, whatever operations follow.
pub proof fn jobs_never_go_back(ledger: LedgerView, operations: Seq<(Operation, i64)>, address: Seq<u8>)
    requires
        ledger.job_at(address) is Some,
    ensures
        ({
            let before = ledger.job_at(address)->Some_0.status;
            &&& ledger.after_all(operations).job_at(address) matches Some(job) && can_become(before, job.status)
            &&& before != JobStatus::Open ==> ledger.after_all(operations).job_at(address)->Some_0.status
                != JobStatus::Open
            &&& (before == JobStatus::Completed || before == JobStatus::Cancelled)
                ==> ledger.after_all(operations).job_at(address)->Some_0.status == before
        }),
{
    records_last(ledger, operations, address);
}

} // verus!
