//! A job marketplace kept on a shared ledger: postings, applications and
//! escrowed payment, each operation one atomic transition of the record store.

pub mod identity;
pub mod address;
pub mod errors;
pub mod transfer;
pub mod job;
pub mod application;
pub mod payment;
pub mod records;
pub mod model;
pub mod ledger;
pub mod operations;
pub mod laws;

pub use errors::JobError;
pub use errors::TransferError;
pub use identity::Identity;
pub use ledger::Ledger;
pub use operations::apply_for_job;
pub use operations::assign_job;
pub use operations::cancel_job;
pub use operations::complete_job;
pub use operations::create_job;
pub use operations::pay_platform_fee;
pub use operations::update_application_status;
pub use operations::ApplyForJob;
pub use operations::AssignJob;
pub use operations::CancelJob;
pub use operations::CompleteJob;
pub use operations::CreateJob;
pub use operations::PayPlatformFee;
pub use operations::UpdateApplicationStatus;
pub use application::Application;
pub use application::ApplicationStatus;
pub use job::Job;
pub use job::JobStatus;
pub use payment::Payment;
pub use payment::PaymentStatus;
pub use records::Record;
pub use transfer::TransferOrder;
