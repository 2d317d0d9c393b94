//! The application of one party to one job.

use vstd::prelude::*;
use crate::errors::JobError;
use crate::identity::Identity;
use crate::job::Job;
use crate::job::JobView;
use crate::records::byte_len;
use crate::records::follows;
use crate::records::stored_len;
use crate::records::yields;

verus! {

/// Capacity of a cover letter, in bytes.
pub const COVER_LETTER_CAPACITY: usize = 1000;

/// Where an application stands. Any status may follow any other.
#[derive(Clone, Copy, Debug, PartialEq, Eq, Structural)]
pub enum ApplicationStatus {
    Applied,
    Reviewing,
    Interviewing,
    Accepted,
    Rejected,
}

/// An application of one party to one job.
#[derive(Debug, PartialEq, Eq)]
pub struct Application {
    pub job_id: u64,
    pub applicant: Identity,
    pub cover_letter: String,
    pub status: ApplicationStatus,
    pub applied_at: i64,
    pub updated_at: i64,
}

/// An application as plain values.
pub struct ApplicationView {
    pub job_id: u64,
    pub applicant: Seq<u8>,
    pub cover_letter: Seq<char>,
    pub status: ApplicationStatus,
    pub applied_at: i64,
    pub updated_at: i64,
}

impl View for Application {
    type V = ApplicationView;

    open spec fn view(&self) -> ApplicationView {
        ApplicationView {
            job_id: self.job_id,
            applicant: self.applicant@,
            cover_letter: self.cover_letter@,
            status: self.status,
            applied_at: self.applied_at,
            updated_at: self.updated_at,
        }
    }
}

impl ApplicationView {
    /// The application as it is when handed in at `now`. It has not been
    /// updated yet, so `updated_at` is zero.
    pub open spec fn handed_in(job_id: u64, applicant: Seq<u8>, cover_letter: Seq<char>, now: i64) -> ApplicationView {
        ApplicationView {
            job_id,
            applicant,
            cover_letter,
            status: ApplicationStatus::Applied,
            applied_at: now,
            updated_at: 0,
        }
    }

    /// Whether the cover letter fits its field.
    pub open spec fn fits(cover_letter: Seq<char>) -> bool {
        byte_len(cover_letter) <= COVER_LETTER_CAPACITY
    }

    /// What every application that the operations produce satisfies.
    pub open spec fn well_formed(self) -> bool {
        ApplicationView::fits(self.cover_letter)
    }

    /// The application with a new status, set at `now`.
    pub open spec fn with_status(self, status: ApplicationStatus, now: i64) -> ApplicationView {
        ApplicationView { status, updated_at: now, ..self }
    }

    /// What handing in an application to `job` at `now` leads to. The job
    /// must take applications; only then is the length of the letter looked
    /// at.
    pub open spec fn submit(job: JobView, applicant: Seq<u8>, cover_letter: Seq<char>, now: i64) -> Result<
        ApplicationView,
        JobError,
    > {
        match job.apply_guard() {
            Err(e) => Err(e),
            Ok(_) => if ApplicationView::fits(cover_letter) {
                Ok(ApplicationView::handed_in(job.job_id, applicant, cover_letter, now))
            } else {
                Err(JobError::SerializationOverflow)
            },
        }
    }

    /// What setting the status at `now` leads to when `caller` acts as the
    /// employer of `job`. The status that the application has plays no part,
    /// and neither does the job that it was handed in to.
    pub open spec fn set_status(self, job: JobView, caller: Seq<u8>, status: ApplicationStatus, now: i64) -> Result<
        ApplicationView,
        JobError,
    > {
        match job.employer_guard(caller) {
            Err(e) => Err(e),
            Ok(_) => Ok(self.with_status(status, now)),
        }
    }
}

impl Clone for Application {
    fn clone(&self) -> (copy: Application)
        ensures
            copy == *self,
    {
        Application {
            job_id: self.job_id,
            applicant: self.applicant,
            cover_letter: self.cover_letter.clone(),
            status: self.status,
            applied_at: self.applied_at,
            updated_at: self.updated_at,
        }
    }
}

impl Application {
    /// Bytes set aside for a stored application.
    pub const LEN: usize = 8 + 8 + 32 + 1000 + 1 + 8 + 8;

    /// Hands in an application of `applicant` to `job` at `now`. The job must
    /// be open and without a worker, and the letter must fit its field.
    pub fn submit(job: &Job, applicant: Identity, cover_letter: String, now: i64) -> (submitted: Result<
        Application,
        JobError,
    >)
        ensures
            yields(submitted, ApplicationView::submit(job@, applicant@, cover_letter@, now)),
    {
        match job.check_apply() {
            Err(e) => Err(e),
            Ok(_) => {
                if stored_len(&cover_letter) > COVER_LETTER_CAPACITY {
                    return Err(JobError::SerializationOverflow);
                }
                Ok(
                    Application {
                        job_id: job.job_id,
                        applicant,
                        cover_letter,
                        status: ApplicationStatus::Applied,
                        applied_at: now,
                        updated_at: 0,
                    },
                )
            },
        }
    }

    /// Sets the status of the application. Only the employer of `job` may do
    /// so; any status may follow any other.
    pub fn set_status(&mut self, job: &Job, caller: &Identity, status: ApplicationStatus, now: i64) -> (result:
        Result<(), JobError>)
        ensures
            follows(result, old(self)@, final(self)@, old(self)@.set_status(job@, caller@, status, now)),
    {
        match job.check_employer(caller) {
            Err(e) => Err(e),
            Ok(_) => {
                self.status = status;
                self.updated_at = now;
                Ok(())
            },
        }
    }
}

} // verus!
