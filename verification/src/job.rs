//! The job posting and its life: open, then in progress and completed, or
//! cancelled.

use vstd::prelude::*;
use crate::errors::JobError;
use crate::errors::TransferError;
use crate::identity::zero_identity;
use crate::identity::Identity;
use crate::records::byte_len;
use crate::records::follows;
use crate::records::stored_len;
use crate::records::yields;
use crate::transfer::may_end_with;
use crate::transfer::once_paid;
use crate::transfer::takes;
use crate::transfer::TransferOrder;
use crate::transfer::TransferOrderView;

verus! {

/// Capacity of a job title, in bytes.
pub const TITLE_CAPACITY: usize = 200;

/// Capacity of a job description, in bytes.
pub const DESCRIPTION_CAPACITY: usize = 1000;

/// Where a job stands. `Open` leads to `InProgress` or `Cancelled`,
/// `InProgress` leads to `Completed`, and nothing leads back.
#[derive(Clone, Copy, Debug, PartialEq, Eq, Structural)]
pub enum JobStatus {
    Open,
    InProgress,
    Completed,
    Cancelled,
}

/// A job posting.
#[derive(Debug, PartialEq, Eq)]
pub struct Job {
    pub job_id: u64,
    pub title: String,
    pub description: String,
    pub salary: u64,
    pub employer: Identity,
    pub worker: Identity,
    pub status: JobStatus,
    pub created_at: i64,
    pub updated_at: i64,
}

/// A job posting as plain values.
pub struct JobView {
    pub job_id: u64,
    pub title: Seq<char>,
    pub description: Seq<char>,
    pub salary: u64,
    pub employer: Seq<u8>,
    pub worker: Seq<u8>,
    pub status: JobStatus,
    pub created_at: i64,
    pub updated_at: i64,
}

impl View for Job {
    type V = JobView;

    open spec fn view(&self) -> JobView {
        JobView {
            job_id: self.job_id,
            title: self.title@,
            description: self.description@,
            salary: self.salary,
            employer: self.employer@,
            worker: self.worker@,
            status: self.status,
            created_at: self.created_at,
            updated_at: self.updated_at,
        }
    }
}

impl JobView {
    /// The job as it is when posted at time `now`.
    pub open spec fn posted(
        job_id: u64,
        title: Seq<char>,
        description: Seq<char>,
        salary: u64,
        employer: Seq<u8>,
        now: i64,
    ) -> JobView {
        JobView {
            job_id,
            title,
            description,
            salary,
            employer,
            worker: zero_identity(),
            status: JobStatus::Open,
            created_at: now,
            updated_at: now,
        }
    }

    /// Whether both texts fit their fields.
    pub open spec fn fits(title: Seq<char>, description: Seq<char>) -> bool {
        byte_len(title) <= TITLE_CAPACITY && byte_len(description) <= DESCRIPTION_CAPACITY
    }

    /// What every job that the operations produce satisfies: the texts fit
    /// their fields, and a job that is open or cancelled has no worker.
    pub open spec fn well_formed(self) -> bool {
        &&& JobView::fits(self.title, self.description)
        &&& (self.status == JobStatus::Open || self.status == JobStatus::Cancelled) ==> self.worker
            == zero_identity()
    }

    /// Whether `caller` may act as the employer of this job.
    pub open spec fn employer_guard(self, caller: Seq<u8>) -> Result<(), JobError> {
        if self.employer != caller {
            Err(JobError::Unauthorized)
        } else {
            Ok(())
        }
    }

    /// Whether `caller` may assign this job: the caller is the employer, and
    /// then the job is open.
    pub open spec fn assign_guard(self, caller: Seq<u8>) -> Result<(), JobError> {
        if self.employer != caller {
            Err(JobError::Unauthorized)
        } else if self.status != JobStatus::Open {
            Err(JobError::JobNotOpen)
        } else {
            Ok(())
        }
    }

    /// Whether `caller` may cancel this job: the caller is the employer, and
    /// then the job is open.
    pub open spec fn cancel_guard(self, caller: Seq<u8>) -> Result<(), JobError> {
        if self.employer != caller {
            Err(JobError::Unauthorized)
        } else if self.status != JobStatus::Open {
            Err(JobError::JobNotOpen)
        } else {
            Ok(())
        }
    }

    /// Whether `caller` may complete this job: the caller is the employer,
    /// and then the job is in progress.
    pub open spec fn complete_guard(self, caller: Seq<u8>) -> Result<(), JobError> {
        if self.employer != caller {
            Err(JobError::Unauthorized)
        } else if self.status != JobStatus::InProgress {
            Err(JobError::JobNotInProgress)
        } else {
            Ok(())
        }
    }

    /// Whether this job takes applications: it is open, and then it has no
    /// worker.
    pub open spec fn apply_guard(self) -> Result<(), JobError> {
        if self.status != JobStatus::Open {
            Err(JobError::JobNotOpen)
        } else if self.worker != zero_identity() {
            Err(JobError::JobAlreadyAssigned)
        } else {
            Ok(())
        }
    }

    /// The job once `worker` is assigned at `now`.
    pub open spec fn assigned(self, worker: Seq<u8>, now: i64) -> JobView {
        JobView { worker, status: JobStatus::InProgress, updated_at: now, ..self }
    }

    /// The job once completed at `now`.
    pub open spec fn completed(self, now: i64) -> JobView {
        JobView { status: JobStatus::Completed, updated_at: now, ..self }
    }

    /// The job once cancelled at `now`.
    pub open spec fn cancelled(self, now: i64) -> JobView {
        JobView { status: JobStatus::Cancelled, updated_at: now, ..self }
    }

    /// The payment that completing this job asks for: the salary, from the
    /// employer's token account to the worker's, authorised by the employer.
    pub open spec fn salary_order(self, from: Seq<u8>, to: Seq<u8>) -> TransferOrderView {
        TransferOrderView { from, to, authority: self.employer, amount: self.salary }
    }

    /// What posting a job at `now` leads to: refused where a text does not
    /// fit its field.
    pub open spec fn create(
        job_id: u64,
        title: Seq<char>,
        description: Seq<char>,
        salary: u64,
        employer: Seq<u8>,
        now: i64,
    ) -> Result<JobView, JobError> {
        if JobView::fits(title, description) {
            Ok(JobView::posted(job_id, title, description, salary, employer, now))
        } else {
            Err(JobError::SerializationOverflow)
        }
    }

    /// What assigning `worker` at `now` on behalf of `caller` leads to.
    pub open spec fn assign(self, caller: Seq<u8>, worker: Seq<u8>, now: i64) -> Result<JobView, JobError> {
        match self.assign_guard(caller) {
            Err(e) => Err(e),
            Ok(_) => Ok(self.assigned(worker, now)),
        }
    }

    /// What cancelling at `now` on behalf of `caller` leads to.
    pub open spec fn cancel(self, caller: Seq<u8>, now: i64) -> Result<JobView, JobError> {
        match self.cancel_guard(caller) {
            Err(e) => Err(e),
            Ok(_) => Ok(self.cancelled(now)),
        }
    }

    /// The transfer to make before the job can be completed on behalf of
    /// `caller`, or the refusal.
    pub open spec fn completion_order(self, caller: Seq<u8>, from: Seq<u8>, to: Seq<u8>) -> Result<
        TransferOrderView,
        JobError,
    > {
        match self.complete_guard(caller) {
            Err(e) => Err(e),
            Ok(_) => Ok(self.salary_order(from, to)),
        }
    }

    /// What completing at `now` on behalf of `caller` leads to, given how the
    /// transfer of the salary ended.
    pub open spec fn settle_completion(
        self,
        caller: Seq<u8>,
        outcome: Result<(), TransferError>,
        now: i64,
    ) -> Result<JobView, JobError> {
        match self.complete_guard(caller) {
            Err(e) => Err(e),
            Ok(_) => once_paid(outcome, self.completed(now)),
        }
    }
}

impl Clone for Job {
    fn clone(&self) -> (copy: Job)
        ensures
            copy == *self,
    {
        Job {
            job_id: self.job_id,
            title: self.title.clone(),
            description: self.description.clone(),
            salary: self.salary,
            employer: self.employer,
            worker: self.worker,
            status: self.status,
            created_at: self.created_at,
            updated_at: self.updated_at,
        }
    }
}

impl Job {
    /// Bytes set aside for a stored job.
    pub const LEN: usize = 8 + 8 + 200 + 1000 + 8 + 32 + 32 + 1 + 8 + 8;

    /// Posts a job at time `now`: open, with no worker. Refused with
    /// `SerializationOverflow` exactly when a text does not fit its field.
    pub fn create(
        job_id: u64,
        title: String,
        description: String,
        salary: u64,
        employer: Identity,
        now: i64,
    ) -> (created: Result<Job, JobError>)
        ensures
            yields(created, JobView::create(job_id, title@, description@, salary, employer@, now)),
    {
        if stored_len(&title) > TITLE_CAPACITY || stored_len(&description) > DESCRIPTION_CAPACITY {
            return Err(JobError::SerializationOverflow);
        }
        Ok(
            Job {
                job_id,
                title,
                description,
                salary,
                employer,
                worker: Identity::zero(),
                status: JobStatus::Open,
                created_at: now,
                updated_at: now,
            },
        )
    }

    /// Checks that `caller` is the employer of this job.
    pub fn check_employer(&self, caller: &Identity) -> (result: Result<(), JobError>)
        ensures
            result == self@.employer_guard(caller@),
    {
        if self.employer.same_as(caller) {
            Ok(())
        } else {
            Err(JobError::Unauthorized)
        }
    }

    /// Checks that `caller` may assign this job.
    pub fn check_assign(&self, caller: &Identity) -> (result: Result<(), JobError>)
        ensures
            result == self@.assign_guard(caller@),
    {
        if !self.employer.same_as(caller) {
            Err(JobError::Unauthorized)
        } else if self.status != JobStatus::Open {
            Err(JobError::JobNotOpen)
        } else {
            Ok(())
        }
    }

    /// Checks that `caller` may cancel this job.
    pub fn check_cancel(&self, caller: &Identity) -> (result: Result<(), JobError>)
        ensures
            result == self@.cancel_guard(caller@),
    {
        if !self.employer.same_as(caller) {
            Err(JobError::Unauthorized)
        } else if self.status != JobStatus::Open {
            Err(JobError::JobNotOpen)
        } else {
            Ok(())
        }
    }

    /// Checks that `caller` may complete this job.
    pub fn check_complete(&self, caller: &Identity) -> (result: Result<(), JobError>)
        ensures
            result == self@.complete_guard(caller@),
    {
        if !self.employer.same_as(caller) {
            Err(JobError::Unauthorized)
        } else if self.status != JobStatus::InProgress {
            Err(JobError::JobNotInProgress)
        } else {
            Ok(())
        }
    }

    /// Checks that this job takes applications.
    pub fn check_apply(&self) -> (result: Result<(), JobError>)
        ensures
            result == self@.apply_guard(),
    {
        if self.status != JobStatus::Open {
            Err(JobError::JobNotOpen)
        } else if !self.worker.is_zero() {
            Err(JobError::JobAlreadyAssigned)
        } else {
            Ok(())
        }
    }

    /// Assigns the job to `worker`. Only the employer may do so, and only
    /// while the job is open.
    pub fn assign(&mut self, caller: &Identity, worker: Identity, now: i64) -> (result: Result<(), JobError>)
        ensures
            follows(result, old(self)@, final(self)@, old(self)@.assign(caller@, worker@, now)),
    {
        match self.check_assign(caller) {
            Err(e) => Err(e),
            Ok(_) => {
                self.worker = worker;
                self.status = JobStatus::InProgress;
                self.updated_at = now;
                Ok(())
            },
        }
    }

    /// Cancels the job. Only the employer may do so, and only while the job is
    /// open.
    pub fn cancel(&mut self, caller: &Identity, now: i64) -> (result: Result<(), JobError>)
        ensures
            follows(result, old(self)@, final(self)@, old(self)@.cancel(caller@, now)),
    {
        match self.check_cancel(caller) {
            Err(e) => Err(e),
            Ok(_) => {
                self.status = JobStatus::Cancelled;
                self.updated_at = now;
                Ok(())
            },
        }
    }

    /// Checks that `caller` may complete the job and says which transfer pays
    /// for it. Changes nothing.
    pub fn completion_order(&self, caller: &Identity, from: Identity, to: Identity) -> (order: Result<
        TransferOrder,
        JobError,
    >)
        ensures
            yields(order, self@.completion_order(caller@, from@, to@)),
    {
        match self.check_complete(caller) {
            Err(e) => Err(e),
            Ok(_) => Ok(TransferOrder { from, to, authority: self.employer, amount: self.salary }),
        }
    }

    /// Completes the job once the transfer of the salary has ended with
    /// `outcome`: the job is marked completed only if the transfer succeeded.
    pub fn settle_completion(&mut self, caller: &Identity, outcome: Result<(), TransferError>, now: i64) -> (result:
        Result<(), JobError>)
        ensures
            follows(result, old(self)@, final(self)@, old(self)@.settle_completion(caller@, outcome, now)),
    {
        match self.check_complete(caller) {
            Err(e) => Err(e),
            Ok(_) => match outcome {
                Err(e) => Err(JobError::Transfer(e)),
                Ok(_) => {
                    self.status = JobStatus::Completed;
                    self.updated_at = now;
                    Ok(())
                },
            },
        }
    }

    /// Completes the job and pays the worker in one step: checks the caller
    /// and the status, has `transfer` move the salary, and marks the job
    /// completed only if the transfer succeeded. `transfer` is not called
    /// when the check fails.
    pub fn complete<F: FnOnce(TransferOrder) -> Result<(), TransferError>>(
        &mut self,
        caller: &Identity,
        from: Identity,
        to: Identity,
        now: i64,
        transfer: F,
    ) -> (result: Result<(), JobError>)
        requires
            old(self)@.completion_order(caller@, from@, to@) matches Ok(asked) ==> takes(transfer, asked),
        ensures
            old(self)@.completion_order(caller@, from@, to@) matches Err(e) ==> result == Err::<(), JobError>(e)
                && final(self)@ == old(self)@,
            old(self)@.completion_order(caller@, from@, to@) matches Ok(asked) ==> exists|
                outcome: Result<(), TransferError>,
            |
                may_end_with(transfer, asked, outcome) && follows(
                    result,
                    old(self)@,
                    final(self)@,
                    old(self)@.settle_completion(caller@, outcome, now),
                ),
    {
        match self.completion_order(caller, from, to) {
            Err(e) => Err(e),
            Ok(order) => {
                let outcome = transfer(order);
                assert(may_end_with(transfer, order@, outcome));
                self.settle_completion(caller, outcome, now)
            },
        }
    }
}

} // verus!
