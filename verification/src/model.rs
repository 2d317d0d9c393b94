//! The ledger as a mathematical object, and what each operation leads to.
//!
//! A ledger is a map from addresses to records. Each operation is a function
//! from the ledger before it to either the ledger after it or a refusal; a
//! refused operation changes nothing.

use vstd::prelude::*;
use crate::address::application_address;
use crate::address::job_address;
use crate::address::payment_address;
use crate::application::ApplicationStatus;
use crate::application::ApplicationView;
use crate::errors::JobError;
use crate::errors::TransferError;
use crate::job::JobView;
use crate::payment::PaymentView;
use crate::records::RecordView;
use crate::transfer::TransferOrderView;

verus! {

/// The records of one program, by address.
pub struct LedgerView {
    /// The program that owns the records and under which addresses are
    /// derived.
    pub program_id: Seq<u8>,
    /// The record at each address in use.
    pub records: Map<Seq<u8>, RecordView>,
}

impl LedgerView {
    /// The ledger of a program that holds no record yet.
    pub open spec fn empty(program_id: Seq<u8>) -> LedgerView {
        LedgerView { program_id, records: Map::empty() }
    }

    /// Whether a record lives at `address`.
    pub open spec fn in_use(self, address: Seq<u8>) -> bool {
        self.records.contains_key(address)
    }

    /// The job at `address`, if a job lives there.
    pub open spec fn job_at(self, address: Seq<u8>) -> Option<JobView> {
        if self.records.contains_key(address) {
            match self.records[address] {
                RecordView::Job(job) => Some(job),
                _ => None,
            }
        } else {
            None
        }
    }

    /// The application at `address`, if an application lives there.
    pub open spec fn application_at(self, address: Seq<u8>) -> Option<ApplicationView> {
        if self.records.contains_key(address) {
            match self.records[address] {
                RecordView::Application(application) => Some(application),
                _ => None,
            }
        } else {
            None
        }
    }

    /// The payment at `address`, if a payment lives there.
    pub open spec fn payment_at(self, address: Seq<u8>) -> Option<PaymentView> {
        if self.records.contains_key(address) {
            match self.records[address] {
                RecordView::Payment(payment) => Some(payment),
                _ => None,
            }
        } else {
            None
        }
    }

    /// The ledger with `record` at `address` and all else as it was.
    pub open spec fn with_record(self, address: Seq<u8>, record: RecordView) -> LedgerView {
        LedgerView { records: self.records.insert(address, record), ..self }
    }

    /// What storing a new record at `address` leads to: refused where a
    /// record lives there already.
    pub open spec fn insert_if_absent(self, address: Seq<u8>, record: RecordView) -> Result<LedgerView, JobError> {
        if self.in_use(address) {
            Err(JobError::AddressAlreadyInUse)
        } else {
            Ok(self.with_record(address, record))
        }
    }

    /// What posting a job leads to once its address has been derived.
    pub open spec fn create_job_at(
        self,
        address: Option<Seq<u8>>,
        job_id: u64,
        title: Seq<char>,
        description: Seq<char>,
        salary: u64,
        employer: Seq<u8>,
        now: i64,
    ) -> Result<LedgerView, JobError> {
        match address {
            None => Err(JobError::NoAddress),
            Some(address) => if self.in_use(address) {
                Err(JobError::AddressAlreadyInUse)
            } else {
                match JobView::create(job_id, title, description, salary, employer, now) {
                    Err(e) => Err(e),
                    Ok(job) => Ok(self.with_record(address, RecordView::Job(job))),
                }
            },
        }
    }

    /// What posting a job leads to: a new open job at the address derived
    /// from its id.
    pub open spec fn create_job(
        self,
        job_id: u64,
        title: Seq<char>,
        description: Seq<char>,
        salary: u64,
        employer: Seq<u8>,
        now: i64,
    ) -> Result<LedgerView, JobError> {
        self.create_job_at(
            job_address(self.program_id, job_id),
            job_id,
            title,
            description,
            salary,
            employer,
            now,
        )
    }

    /// What applying to the job at address `job` leads to once the address
    /// of the application has been derived.
    pub open spec fn apply_for_job_at(
        self,
        address: Option<Seq<u8>>,
        job: Seq<u8>,
        applicant: Seq<u8>,
        cover_letter: Seq<char>,
        now: i64,
    ) -> Result<LedgerView, JobError> {
        match self.job_at(job) {
            None => Err(JobError::RecordNotFound),
            Some(found) => match address {
                None => Err(JobError::NoAddress),
                Some(address) => if self.in_use(address) {
                    Err(JobError::AddressAlreadyInUse)
                } else {
                    match ApplicationView::submit(found, applicant, cover_letter, now) {
                        Err(e) => Err(e),
                        Ok(application) => Ok(self.with_record(address, RecordView::Application(application))),
                    }
                },
            },
        }
    }

    /// What applying to the job at address `job` leads to: a new application
    /// at the address derived from the job's id and the applicant.
    pub open spec fn apply_for_job(self, job: Seq<u8>, applicant: Seq<u8>, cover_letter: Seq<char>, now: i64) -> Result<
        LedgerView,
        JobError,
    > {
        match self.job_at(job) {
            None => Err(JobError::RecordNotFound),
            Some(found) => self.apply_for_job_at(
                application_address(self.program_id, found.job_id, applicant),
                job,
                applicant,
                cover_letter,
                now,
            ),
        }
    }

    /// What assigning the job at address `job` to `worker` leads to.
    pub open spec fn assign_job(self, job: Seq<u8>, caller: Seq<u8>, worker: Seq<u8>, now: i64) -> Result<
        LedgerView,
        JobError,
    > {
        match self.job_at(job) {
            None => Err(JobError::RecordNotFound),
            Some(found) => match found.assign(caller, worker, now) {
                Err(e) => Err(e),
                Ok(next) => Ok(self.with_record(job, RecordView::Job(next))),
            },
        }
    }

    /// What cancelling the job at address `job` leads to.
    pub open spec fn cancel_job(self, job: Seq<u8>, caller: Seq<u8>, now: i64) -> Result<LedgerView, JobError> {
        match self.job_at(job) {
            None => Err(JobError::RecordNotFound),
            Some(found) => match found.cancel(caller, now) {
                Err(e) => Err(e),
                Ok(next) => Ok(self.with_record(job, RecordView::Job(next))),
            },
        }
    }

    /// The transfer to make before the job at address `job` can be
    /// completed, or the refusal.
    pub open spec fn completion_order(self, job: Seq<u8>, caller: Seq<u8>, from: Seq<u8>, to: Seq<u8>) -> Result<
        TransferOrderView,
        JobError,
    > {
        match self.job_at(job) {
            None => Err(JobError::RecordNotFound),
            Some(found) => found.completion_order(caller, from, to),
        }
    }

    /// What completing the job at address `job` leads to, given how the
    /// transfer of the salary ended.
    pub open spec fn settle_job_completion(
        self,
        job: Seq<u8>,
        caller: Seq<u8>,
        outcome: Result<(), TransferError>,
        now: i64,
    ) -> Result<LedgerView, JobError> {
        match self.job_at(job) {
            None => Err(JobError::RecordNotFound),
            Some(found) => match found.settle_completion(caller, outcome, now) {
                Err(e) => Err(e),
                Ok(next) => Ok(self.with_record(job, RecordView::Job(next))),
            },
        }
    }

    /// What setting the status of the application at address `application`
    /// leads to, when `caller` acts as the employer of the job at address
    /// `job`.
    pub open spec fn update_application_status(
        self,
        application: Seq<u8>,
        job: Seq<u8>,
        caller: Seq<u8>,
        status: ApplicationStatus,
        now: i64,
    ) -> Result<LedgerView, JobError> {
        match (self.application_at(application), self.job_at(job)) {
            (Some(found), Some(of)) => match found.set_status(of, caller, status, now) {
                Err(e) => Err(e),
                Ok(next) => Ok(self.with_record(application, RecordView::Application(next))),
            },
            _ => Err(JobError::RecordNotFound),
        }
    }

    /// The transfer to make before a fee can be recorded at `address`, or
    /// the refusal.
    pub open spec fn fee_order_at(
        self,
        address: Option<Seq<u8>>,
        user: Seq<u8>,
        from: Seq<u8>,
        to: Seq<u8>,
        amount: u64,
    ) -> Result<TransferOrderView, JobError> {
        match address {
            None => Err(JobError::NoAddress),
            Some(address) => if self.in_use(address) {
                Err(JobError::AddressAlreadyInUse)
            } else {
                Ok(PaymentView::fee_order(user, from, to, amount))
            },
        }
    }

    /// What paying a fee leads to once the address of the payment has been
    /// derived, given how the transfer of the fee ended.
    pub open spec fn settle_platform_fee_at(
        self,
        address: Option<Seq<u8>>,
        user: Seq<u8>,
        amount: u64,
        outcome: Result<(), TransferError>,
        now: i64,
    ) -> Result<LedgerView, JobError> {
        match address {
            None => Err(JobError::NoAddress),
            Some(address) => if self.in_use(address) {
                Err(JobError::AddressAlreadyInUse)
            } else {
                match PaymentView::settle(user, amount, outcome, now) {
                    Err(e) => Err(e),
                    Ok(payment) => Ok(self.with_record(address, RecordView::Payment(payment))),
                }
            },
        }
    }

    /// The transfer to make before `user` can pay a fee at `now`, or the
    /// refusal.
    pub open spec fn fee_order(self, user: Seq<u8>, from: Seq<u8>, to: Seq<u8>, amount: u64, now: i64) -> Result<
        TransferOrderView,
        JobError,
    > {
        self.fee_order_at(payment_address(self.program_id, user, now), user, from, to, amount)
    }

    /// What paying a fee at `now` leads to, given how the transfer of the
    /// fee ended: a receipt at the address derived from the user and the
    /// time, and only if the transfer succeeded.
    pub open spec fn settle_platform_fee(
        self,
        user: Seq<u8>,
        amount: u64,
        outcome: Result<(), TransferError>,
        now: i64,
    ) -> Result<LedgerView, JobError> {
        self.settle_platform_fee_at(payment_address(self.program_id, user, now), user, amount, outcome, now)
    }
}

/// One of the seven operations with its arguments. For the two operations
/// that pay, the arguments include how the transfer ended.
pub enum Operation {
    CreateJob { job_id: u64, title: Seq<char>, description: Seq<char>, salary: u64, employer: Seq<u8> },
    ApplyForJob { job: Seq<u8>, applicant: Seq<u8>, cover_letter: Seq<char> },
    AssignJob { job: Seq<u8>, caller: Seq<u8>, worker: Seq<u8> },
    CompleteJob { job: Seq<u8>, caller: Seq<u8>, outcome: Result<(), TransferError> },
    CancelJob { job: Seq<u8>, caller: Seq<u8> },
    UpdateApplicationStatus { application: Seq<u8>, job: Seq<u8>, caller: Seq<u8>, status: ApplicationStatus },
    PayPlatformFee { user: Seq<u8>, amount: u64, outcome: Result<(), TransferError> },
}

impl LedgerView {
    /// What an operation made at `now` leads to.
    pub open spec fn apply(self, operation: Operation, now: i64) -> Result<LedgerView, JobError> {
        match operation {
            Operation::CreateJob { job_id, title, description, salary, employer } => self.create_job(
                job_id,
                title,
                description,
                salary,
                employer,
                now,
            ),
            Operation::ApplyForJob { job, applicant, cover_letter } => self.apply_for_job(
                job,
                applicant,
                cover_letter,
                now,
            ),
            Operation::AssignJob { job, caller, worker } => self.assign_job(job, caller, worker, now),
            Operation::CompleteJob { job, caller, outcome } => self.settle_job_completion(job, caller, outcome, now),
            Operation::CancelJob { job, caller } => self.cancel_job(job, caller, now),
            Operation::UpdateApplicationStatus { application, job, caller, status } => self.update_application_status(
                application,
                job,
                caller,
                status,
                now,
            ),
            Operation::PayPlatformFee { user, amount, outcome } => self.settle_platform_fee(
                user,
                amount,
                outcome,
                now,
            ),
        }
    }

    /// The ledger after an operation made at `now`: what the operation leads
    /// to, or the ledger as it was where the operation is refused.
    pub open spec fn after(self, operation: Operation, now: i64) -> LedgerView {
        match self.apply(operation, now) {
            Ok(next) => next,
            Err(_) => self,
        }
    }

    /// The ledger after a sequence of operations, each with its time.
    pub open spec fn after_all(self, operations: Seq<(Operation, i64)>) -> LedgerView
        decreases operations.len(),
    {
        if operations.len() == 0 {
            self
        } else {
            self.after_all(operations.drop_last()).after(operations.last().0, operations.last().1)
        }
    }

    /// Whether `record` lives where its own contents say: at the address
    /// derived from what identifies it.
    pub open spec fn placed(self, address: Seq<u8>, record: RecordView) -> bool {
        match record {
            RecordView::Job(job) => job_address(self.program_id, job.job_id) == Some(address),
            RecordView::Application(application) => application_address(
                self.program_id,
                application.job_id,
                application.applicant,
            ) == Some(address),
            RecordView::Payment(payment) => payment_address(self.program_id, payment.user, payment.timestamp)
                == Some(address),
        }
    }

    /// Whether every record is well formed.
    pub open spec fn records_well_formed(self) -> bool {
        forall|address: Seq<u8>| #[trigger]
            self.records.contains_key(address) ==> self.records[address].well_formed()
    }

    /// Whether every record lives at the address derived from its contents.
    pub open spec fn records_well_placed(self) -> bool {
        forall|address: Seq<u8>| #[trigger]
            self.records.contains_key(address) ==> self.placed(address, self.records[address])
    }

    /// What holds of every ledger that the operations build up from the
    /// empty one: each record is well formed and lives at the address
    /// derived from its contents.
    pub open spec fn well_formed(self) -> bool {
        self.records_well_formed() && self.records_well_placed()
    }
}

} // verus!
