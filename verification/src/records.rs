//! What the three kinds of record share: the record of any kind, the
//! measure of a stored text, and the form that every contract of a
//! transition takes.

use vstd::prelude::*;
use vstd::utf8::encode_utf8;
use crate::application::Application;
use crate::application::ApplicationView;
use crate::errors::JobError;
use crate::job::Job;
use crate::job::JobView;
use crate::payment::Payment;
use crate::payment::PaymentView;

verus! {

/// Number of bytes that a text takes when stored.
pub open spec fn byte_len(text: Seq<char>) -> nat {
    encode_utf8(text).len()
}

/// Number of bytes that `text` takes when stored.
pub fn stored_len(text: &String) -> (len: usize)
    ensures
        len == byte_len(text@),
{
    text.as_str().as_bytes().len()
}

/// How the result of a transition and the state after it follow from what
/// the transition leads to: on success the state is the new one, on refusal
/// it is untouched.
pub open spec fn follows<R>(result: Result<(), JobError>, before: R, after: R, step: Result<R, JobError>) -> bool {
    match step {
        Ok(next) => result is Ok && after == next,
        Err(e) => result == Err::<(), JobError>(e) && after == before,
    }
}

/// Whether `got` is the value or the refusal that `wanted` names.
pub open spec fn yields<T: View>(got: Result<T, JobError>, wanted: Result<T::V, JobError>) -> bool {
    match wanted {
        Ok(value) => got matches Ok(made) && made@ == value,
        Err(e) => got matches Err(refusal) && refusal == e,
    }
}

/// A record of any kind.
#[derive(Debug, PartialEq, Eq)]
pub enum Record {
    Job(Job),
    Application(Application),
    Payment(Payment),
}

/// A record of any kind as plain values.
pub enum RecordView {
    Job(JobView),
    Application(ApplicationView),
    Payment(PaymentView),
}

impl View for Record {
    type V = RecordView;

    open spec fn view(&self) -> RecordView {
        match self {
            Record::Job(job) => RecordView::Job(job@),
            Record::Application(application) => RecordView::Application(application@),
            Record::Payment(payment) => RecordView::Payment(payment@),
        }
    }
}

impl RecordView {
    /// What every record that the operations produce satisfies.
    pub open spec fn well_formed(self) -> bool {
        match self {
            RecordView::Job(job) => job.well_formed(),
            RecordView::Application(application) => application.well_formed(),
            RecordView::Payment(payment) => payment.well_formed(),
        }
    }
}

} // verus!
