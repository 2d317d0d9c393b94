use job_portal::address::{derive_application_address, derive_job_address, derive_payment_address};
use job_portal::{
    apply_for_job, assign_job, cancel_job, complete_job, create_job, pay_platform_fee,
    update_application_status, ApplicationStatus, ApplyForJob, AssignJob, CancelJob, CompleteJob,
    CreateJob, Identity, JobError, JobStatus, Ledger, PayPlatformFee, PaymentStatus, TransferError,
    TransferOrder, UpdateApplicationStatus,
};

fn key(n: u8) -> Identity {
    Identity::from_bytes([n; 32])
}

const PROGRAM: u8 = 200;
const EMPLOYER: u8 = 1;
const WORKER: u8 = 2;
const STRANGER: u8 = 3;
const PLATFORM: u8 = 4;

/// A stand-in for the token facility: one balance per token account, and the
/// owner that may spend it.
struct Bank {
    accounts: Vec<(Identity, Identity, u64)>,
}

impl Bank {
    fn new() -> Bank {
        Bank { accounts: Vec::new() }
    }

    fn open(&mut self, account: Identity, owner: Identity, balance: u64) {
        self.accounts.push((account, owner, balance));
    }

    fn balance(&self, account: &Identity) -> u64 {
        self.accounts.iter().find(|(a, _, _)| a == account).map(|(_, _, b)| *b).expect("an account")
    }

    fn transfer(&mut self, order: TransferOrder) -> Result<(), TransferError> {
        let from = self.accounts.iter().position(|(a, _, _)| *a == order.from).ok_or(TransferError::Rejected)?;
        let to = self.accounts.iter().position(|(a, _, _)| *a == order.to).ok_or(TransferError::Rejected)?;
        if self.accounts[from].1 != order.authority {
            return Err(TransferError::UnauthorizedSigner);
        }
        if self.accounts[from].2 < order.amount {
            return Err(TransferError::InsufficientBalance);
        }
        self.accounts[from].2 -= order.amount;
        self.accounts[to].2 += order.amount;
        Ok(())
    }
}

fn token_account(owner: u8) -> Identity {
    key(owner + 100)
}

fn post(ledger: &mut Ledger, job_id: u64, salary: u64, now: i64) -> Identity {
    let ctx = CreateJob { employer: key(EMPLOYER) };
    create_job(ledger, &ctx, job_id, "Mason".to_string(), "Build a wall".to_string(), salary, key(EMPLOYER), now)
        .expect("the job is posted");
    derive_job_address(&key(PROGRAM), job_id).expect("an address")
}

#[test]
fn job_is_paid_on_completion() {
    let mut ledger = Ledger::new(key(PROGRAM));
    let mut bank = Bank::new();
    bank.open(token_account(EMPLOYER), key(EMPLOYER), 1000);
    bank.open(token_account(WORKER), key(WORKER), 0);

    let job = post(&mut ledger, 1, 1000, 10);
    let posted = ledger.job(&job).expect("the job");
    assert_eq!(posted.status, JobStatus::Open);
    assert_eq!(posted.worker, Identity::zero());
    assert_eq!(posted.salary, 1000);
    assert_eq!(posted.created_at, 10);
    assert_eq!(posted.updated_at, 10);

    let apply = ApplyForJob { job, applicant: key(WORKER) };
    assert_eq!(apply_for_job(&mut ledger, &apply, "I lay bricks".to_string(), 11), Ok(()));
    let application = derive_application_address(&key(PROGRAM), 1, &key(WORKER)).expect("an address");
    let handed_in = ledger.application(&application).expect("the application");
    assert_eq!(handed_in.job_id, 1);
    assert_eq!(handed_in.applicant, key(WORKER));
    assert_eq!(handed_in.status, ApplicationStatus::Applied);
    assert_eq!(handed_in.applied_at, 11);
    assert_eq!(handed_in.updated_at, 0);

    let assign = AssignJob { job, employer: key(EMPLOYER) };
    assert_eq!(assign_job(&mut ledger, &assign, key(WORKER), 12), Ok(()));
    let assigned = ledger.job(&job).expect("the job");
    assert_eq!(assigned.status, JobStatus::InProgress);
    assert_eq!(assigned.worker, key(WORKER));
    assert_eq!(assigned.updated_at, 12);
    assert_eq!(assigned.created_at, 10);

    let complete = CompleteJob {
        job,
        employer: key(EMPLOYER),
        employer_token_account: token_account(EMPLOYER),
        worker_token_account: token_account(WORKER),
    };
    assert_eq!(complete_job(&mut ledger, &complete, 13, |order| bank.transfer(order)), Ok(()));
    assert_eq!(bank.balance(&token_account(WORKER)), 1000);
    assert_eq!(bank.balance(&token_account(EMPLOYER)), 0);
    let done = ledger.job(&job).expect("the job");
    assert_eq!(done.status, JobStatus::Completed);
    assert_eq!(done.worker, key(WORKER));
    assert_eq!(done.updated_at, 13);
}

#[test]
fn cancelled_job_cannot_be_assigned() {
    let mut ledger = Ledger::new(key(PROGRAM));
    let job = post(&mut ledger, 2, 500, 20);
    let cancel = CancelJob { job, employer: key(EMPLOYER) };
    assert_eq!(cancel_job(&mut ledger, &cancel, 21), Ok(()));
    let cancelled = ledger.job(&job).expect("the job");
    assert_eq!(cancelled.status, JobStatus::Cancelled);
    assert_eq!(cancelled.worker, Identity::zero());
    assert_eq!(cancelled.updated_at, 21);

    let assign = AssignJob { job, employer: key(EMPLOYER) };
    assert_eq!(assign_job(&mut ledger, &assign, key(WORKER), 22), Err(JobError::JobNotOpen));
    assert_eq!(ledger.job(&job).expect("the job").status, JobStatus::Cancelled);
    assert_eq!(ledger.job(&job).expect("the job").updated_at, 21);
}

#[test]
fn platform_fee_leaves_a_completed_receipt() {
    let mut ledger = Ledger::new(key(PROGRAM));
    let mut bank = Bank::new();
    bank.open(token_account(STRANGER), key(STRANGER), 50);
    bank.open(token_account(PLATFORM), key(PLATFORM), 0);
    let ctx = PayPlatformFee {
        user: key(STRANGER),
        user_token_account: token_account(STRANGER),
        platform_token_account: token_account(PLATFORM),
    };
    assert_eq!(pay_platform_fee(&mut ledger, &ctx, 50, 30, |order| bank.transfer(order)), Ok(()));
    let address = derive_payment_address(&key(PROGRAM), &key(STRANGER), 30).expect("an address");
    let receipt = ledger.payment(&address).expect("the receipt");
    assert_eq!(receipt.status, PaymentStatus::Completed);
    assert_eq!(receipt.amount, 50);
    assert_eq!(receipt.user, key(STRANGER));
    assert_eq!(receipt.timestamp, 30);
    assert_eq!(bank.balance(&token_account(STRANGER)), 0);
    assert_eq!(bank.balance(&token_account(PLATFORM)), 50);
}

#[test]
fn failed_fee_transfer_leaves_no_receipt() {
    let mut ledger = Ledger::new(key(PROGRAM));
    let mut bank = Bank::new();
    bank.open(token_account(STRANGER), key(STRANGER), 49);
    bank.open(token_account(PLATFORM), key(PLATFORM), 0);
    let ctx = PayPlatformFee {
        user: key(STRANGER),
        user_token_account: token_account(STRANGER),
        platform_token_account: token_account(PLATFORM),
    };
    assert_eq!(
        pay_platform_fee(&mut ledger, &ctx, 50, 30, |order| bank.transfer(order)),
        Err(JobError::Transfer(TransferError::InsufficientBalance))
    );
    let address = derive_payment_address(&key(PROGRAM), &key(STRANGER), 30).expect("an address");
    assert!(ledger.payment(&address).is_none());
    assert!(!ledger.in_use(&address));
    assert_eq!(bank.balance(&token_account(STRANGER)), 49);
}

#[test]
fn two_fees_in_the_same_instant_collide() {
    let mut ledger = Ledger::new(key(PROGRAM));
    let ctx = PayPlatformFee {
        user: key(STRANGER),
        user_token_account: token_account(STRANGER),
        platform_token_account: token_account(PLATFORM),
    };
    assert_eq!(pay_platform_fee(&mut ledger, &ctx, 5, 30, |_| Ok(())), Ok(()));
    let mut asked = false;
    let second = pay_platform_fee(&mut ledger, &ctx, 6, 30, |_| {
        asked = true;
        Ok(())
    });
    assert_eq!(second, Err(JobError::AddressAlreadyInUse));
    assert!(!asked);
    let address = derive_payment_address(&key(PROGRAM), &key(STRANGER), 30).expect("an address");
    assert_eq!(ledger.payment(&address).expect("the receipt").amount, 5);
    assert_eq!(pay_platform_fee(&mut ledger, &ctx, 6, 31, |_| Ok(())), Ok(()));
}

#[test]
fn application_status_moves_freely_for_the_employer() {
    let mut ledger = Ledger::new(key(PROGRAM));
    let job = post(&mut ledger, 3, 100, 40);
    let apply = ApplyForJob { job, applicant: key(WORKER) };
    assert_eq!(apply_for_job(&mut ledger, &apply, "Hello".to_string(), 41), Ok(()));
    let application = derive_application_address(&key(PROGRAM), 3, &key(WORKER)).expect("an address");
    let ctx = UpdateApplicationStatus { application, job, employer: key(EMPLOYER) };

    assert_eq!(update_application_status(&mut ledger, &ctx, ApplicationStatus::Accepted, 42), Ok(()));
    assert_eq!(ledger.application(&application).expect("it").status, ApplicationStatus::Accepted);
    assert_eq!(ledger.application(&application).expect("it").updated_at, 42);
    assert_eq!(update_application_status(&mut ledger, &ctx, ApplicationStatus::Rejected, 43), Ok(()));
    assert_eq!(ledger.application(&application).expect("it").status, ApplicationStatus::Rejected);
    assert_eq!(update_application_status(&mut ledger, &ctx, ApplicationStatus::Accepted, 44), Ok(()));
    let last = ledger.application(&application).expect("it");
    assert_eq!(last.status, ApplicationStatus::Accepted);
    assert_eq!(last.updated_at, 44);
    assert_eq!(last.applied_at, 41);
    assert_eq!(last.cover_letter, "Hello");

    let other = UpdateApplicationStatus { application, job, employer: key(STRANGER) };
    assert_eq!(
        update_application_status(&mut ledger, &other, ApplicationStatus::Reviewing, 45),
        Err(JobError::Unauthorized)
    );
    let applicant = UpdateApplicationStatus { application, job, employer: key(WORKER) };
    assert_eq!(
        update_application_status(&mut ledger, &applicant, ApplicationStatus::Interviewing, 45),
        Err(JobError::Unauthorized)
    );
    let kept = ledger.application(&application).expect("it");
    assert_eq!(kept.status, ApplicationStatus::Accepted);
    assert_eq!(kept.updated_at, 44);
}

#[test]
fn application_status_is_not_checked_against_its_own_job() {
    let mut ledger = Ledger::new(key(PROGRAM));
    let job = post(&mut ledger, 4, 100, 50);
    let apply = ApplyForJob { job, applicant: key(WORKER) };
    assert_eq!(apply_for_job(&mut ledger, &apply, "Hello".to_string(), 51), Ok(()));
    let application = derive_application_address(&key(PROGRAM), 4, &key(WORKER)).expect("an address");

    let ctx = CreateJob { employer: key(STRANGER) };
    create_job(&mut ledger, &ctx, 5, "Other".to_string(), "Unrelated".to_string(), 1, key(STRANGER), 52)
        .expect("the job is posted");
    let unrelated = derive_job_address(&key(PROGRAM), 5).expect("an address");
    let update = UpdateApplicationStatus { application, job: unrelated, employer: key(STRANGER) };
    assert_eq!(update_application_status(&mut ledger, &update, ApplicationStatus::Rejected, 53), Ok(()));
    assert_eq!(ledger.application(&application).expect("it").status, ApplicationStatus::Rejected);
}

#[test]
fn second_job_with_the_same_id_is_refused() {
    let mut ledger = Ledger::new(key(PROGRAM));
    let job = post(&mut ledger, 9, 700, 60);
    let ctx = CreateJob { employer: key(STRANGER) };
    let second = create_job(
        &mut ledger,
        &ctx,
        9,
        "Another title".to_string(),
        "Another text".to_string(),
        1,
        key(STRANGER),
        61,
    );
    assert_eq!(second, Err(JobError::AddressAlreadyInUse));
    let first = ledger.job(&job).expect("the job");
    assert_eq!(first.job_id, 9);
    assert_eq!(first.title, "Mason");
    assert_eq!(first.description, "Build a wall");
    assert_eq!(first.salary, 700);
    assert_eq!(first.employer, key(EMPLOYER));
    assert_eq!(first.worker, Identity::zero());
    assert_eq!(first.status, JobStatus::Open);
    assert_eq!(first.created_at, 60);
    assert_eq!(first.updated_at, 60);
    for job_id in [0u64, 1, 255, 256, u64::MAX] {
        let mut ledger = Ledger::new(key(PROGRAM));
        post(&mut ledger, job_id, 1, 0);
        let again = create_job(&mut ledger, &ctx, job_id, String::new(), String::new(), 2, key(STRANGER), 1);
        assert_eq!(again, Err(JobError::AddressAlreadyInUse));
    }
}

#[test]
fn only_the_employer_assigns_whatever_the_status() {
    let mut ledger = Ledger::new(key(PROGRAM));
    let job = post(&mut ledger, 1, 10, 0);
    let stranger = AssignJob { job, employer: key(STRANGER) };
    let employer = AssignJob { job, employer: key(EMPLOYER) };
    assert_eq!(assign_job(&mut ledger, &stranger, key(WORKER), 1), Err(JobError::Unauthorized));
    assert_eq!(ledger.job(&job).expect("the job").status, JobStatus::Open);
    assert_eq!(assign_job(&mut ledger, &employer, key(WORKER), 2), Ok(()));
    assert_eq!(assign_job(&mut ledger, &stranger, key(STRANGER), 3), Err(JobError::Unauthorized));
    let complete = CompleteJob {
        job,
        employer: key(EMPLOYER),
        employer_token_account: token_account(EMPLOYER),
        worker_token_account: token_account(WORKER),
    };
    assert_eq!(complete_job(&mut ledger, &complete, 4, |_| Ok(())), Ok(()));
    assert_eq!(assign_job(&mut ledger, &stranger, key(STRANGER), 5), Err(JobError::Unauthorized));

    let cancelled = post(&mut ledger, 2, 10, 0);
    assert_eq!(cancel_job(&mut ledger, &CancelJob { job: cancelled, employer: key(EMPLOYER) }, 1), Ok(()));
    let stranger = AssignJob { job: cancelled, employer: key(STRANGER) };
    assert_eq!(assign_job(&mut ledger, &stranger, key(WORKER), 2), Err(JobError::Unauthorized));
}

#[test]
fn only_an_open_job_is_assigned() {
    let mut ledger = Ledger::new(key(PROGRAM));
    let job = post(&mut ledger, 1, 10, 0);
    let employer = AssignJob { job, employer: key(EMPLOYER) };
    assert_eq!(assign_job(&mut ledger, &employer, key(WORKER), 1), Ok(()));
    assert_eq!(assign_job(&mut ledger, &employer, key(STRANGER), 2), Err(JobError::JobNotOpen));
    let in_progress = ledger.job(&job).expect("the job");
    assert_eq!(in_progress.worker, key(WORKER));
    assert_eq!(in_progress.updated_at, 1);
    let complete = CompleteJob {
        job,
        employer: key(EMPLOYER),
        employer_token_account: token_account(EMPLOYER),
        worker_token_account: token_account(WORKER),
    };
    assert_eq!(complete_job(&mut ledger, &complete, 3, |_| Ok(())), Ok(()));
    assert_eq!(assign_job(&mut ledger, &employer, key(STRANGER), 4), Err(JobError::JobNotOpen));
    assert_eq!(ledger.job(&job).expect("the job").status, JobStatus::Completed);
    assert_eq!(ledger.job(&job).expect("the job").worker, key(WORKER));
}

#[test]
fn failed_salary_transfer_leaves_the_job_in_progress() {
    let mut ledger = Ledger::new(key(PROGRAM));
    let mut bank = Bank::new();
    bank.open(token_account(EMPLOYER), key(EMPLOYER), 999);
    bank.open(token_account(WORKER), key(WORKER), 0);
    let job = post(&mut ledger, 1, 1000, 0);
    assert_eq!(assign_job(&mut ledger, &AssignJob { job, employer: key(EMPLOYER) }, key(WORKER), 1), Ok(()));
    let complete = CompleteJob {
        job,
        employer: key(EMPLOYER),
        employer_token_account: token_account(EMPLOYER),
        worker_token_account: token_account(WORKER),
    };
    assert_eq!(
        complete_job(&mut ledger, &complete, 2, |order| bank.transfer(order)),
        Err(JobError::Transfer(TransferError::InsufficientBalance))
    );
    let job_after = ledger.job(&job).expect("the job");
    assert_eq!(job_after.status, JobStatus::InProgress);
    assert_eq!(job_after.updated_at, 1);
    assert_eq!(bank.balance(&token_account(EMPLOYER)), 999);
    assert_eq!(bank.balance(&token_account(WORKER)), 0);

    bank.open(token_account(STRANGER), key(STRANGER), 5000);
    let from_another = CompleteJob { employer_token_account: token_account(STRANGER), ..complete };
    assert_eq!(
        complete_job(&mut ledger, &from_another, 3, |order| bank.transfer(order)),
        Err(JobError::Transfer(TransferError::UnauthorizedSigner))
    );
    assert_eq!(ledger.job(&job).expect("the job").status, JobStatus::InProgress);
}

#[test]
fn salary_order_names_accounts_authority_and_amount() {
    let mut ledger = Ledger::new(key(PROGRAM));
    let job = post(&mut ledger, 1, 1234, 0);
    assert_eq!(assign_job(&mut ledger, &AssignJob { job, employer: key(EMPLOYER) }, key(WORKER), 1), Ok(()));
    let complete = CompleteJob {
        job,
        employer: key(EMPLOYER),
        employer_token_account: token_account(EMPLOYER),
        worker_token_account: token_account(WORKER),
    };
    let mut seen = None;
    let result = complete_job(&mut ledger, &complete, 2, |order| {
        seen = Some(order);
        Ok(())
    });
    assert_eq!(result, Ok(()));
    assert_eq!(
        seen,
        Some(TransferOrder {
            from: token_account(EMPLOYER),
            to: token_account(WORKER),
            authority: key(EMPLOYER),
            amount: 1234,
        })
    );
}

#[test]
fn refused_completion_asks_for_no_transfer() {
    let mut ledger = Ledger::new(key(PROGRAM));
    let job = post(&mut ledger, 1, 10, 0);
    let complete = CompleteJob {
        job,
        employer: key(EMPLOYER),
        employer_token_account: token_account(EMPLOYER),
        worker_token_account: token_account(WORKER),
    };
    let mut asked = 0;
    let open = complete_job(&mut ledger, &complete, 1, |_| {
        asked += 1;
        Ok(())
    });
    assert_eq!(open, Err(JobError::JobNotInProgress));
    assert_eq!(assign_job(&mut ledger, &AssignJob { job, employer: key(EMPLOYER) }, key(WORKER), 1), Ok(()));
    let by_worker = CompleteJob { employer: key(WORKER), ..complete };
    let refused = complete_job(&mut ledger, &by_worker, 2, |_| {
        asked += 1;
        Ok(())
    });
    assert_eq!(refused, Err(JobError::Unauthorized));
    assert_eq!(asked, 0);
    assert_eq!(complete_job(&mut ledger, &complete, 3, |_| Ok(())), Ok(()));
    let twice = complete_job(&mut ledger, &complete, 4, |_| {
        asked += 1;
        Ok(())
    });
    assert_eq!(twice, Err(JobError::JobNotInProgress));
    assert_eq!(asked, 0);
    assert_eq!(ledger.job(&job).expect("the job").updated_at, 3);
}

#[test]
fn second_application_of_the_same_applicant_is_refused() {
    let mut ledger = Ledger::new(key(PROGRAM));
    let job = post(&mut ledger, 1, 10, 0);
    let apply = ApplyForJob { job, applicant: key(WORKER) };
    assert_eq!(apply_for_job(&mut ledger, &apply, "First letter".to_string(), 1), Ok(()));
    assert_eq!(
        apply_for_job(&mut ledger, &apply, "A different letter".to_string(), 2),
        Err(JobError::AddressAlreadyInUse)
    );
    assert_eq!(apply_for_job(&mut ledger, &apply, "First letter".to_string(), 3), Err(JobError::AddressAlreadyInUse));
    let application = derive_application_address(&key(PROGRAM), 1, &key(WORKER)).expect("an address");
    let kept = ledger.application(&application).expect("the application");
    assert_eq!(kept.cover_letter, "First letter");
    assert_eq!(kept.applied_at, 1);

    let other = ApplyForJob { job, applicant: key(STRANGER) };
    assert_eq!(apply_for_job(&mut ledger, &other, "First letter".to_string(), 4), Ok(()));
}

#[test]
fn applications_are_taken_only_by_an_open_job() {
    let mut ledger = Ledger::new(key(PROGRAM));
    let job = post(&mut ledger, 1, 10, 0);
    assert_eq!(assign_job(&mut ledger, &AssignJob { job, employer: key(EMPLOYER) }, key(WORKER), 1), Ok(()));
    let apply = ApplyForJob { job, applicant: key(STRANGER) };
    assert_eq!(apply_for_job(&mut ledger, &apply, "Hello".to_string(), 2), Err(JobError::JobNotOpen));
    let application = derive_application_address(&key(PROGRAM), 1, &key(STRANGER)).expect("an address");
    assert!(!ledger.in_use(&application));

    let cancelled = post(&mut ledger, 2, 10, 0);
    assert_eq!(cancel_job(&mut ledger, &CancelJob { job: cancelled, employer: key(EMPLOYER) }, 1), Ok(()));
    let apply = ApplyForJob { job: cancelled, applicant: key(STRANGER) };
    assert_eq!(apply_for_job(&mut ledger, &apply, "Hello".to_string(), 2), Err(JobError::JobNotOpen));
}

#[test]
fn only_the_employer_cancels_and_only_an_open_job() {
    let mut ledger = Ledger::new(key(PROGRAM));
    let job = post(&mut ledger, 1, 10, 0);
    assert_eq!(
        cancel_job(&mut ledger, &CancelJob { job, employer: key(STRANGER) }, 1),
        Err(JobError::Unauthorized)
    );
    assert_eq!(assign_job(&mut ledger, &AssignJob { job, employer: key(EMPLOYER) }, key(WORKER), 2), Ok(()));
    assert_eq!(
        cancel_job(&mut ledger, &CancelJob { job, employer: key(EMPLOYER) }, 3),
        Err(JobError::JobNotOpen)
    );
    assert_eq!(
        cancel_job(&mut ledger, &CancelJob { job, employer: key(STRANGER) }, 3),
        Err(JobError::Unauthorized)
    );
    assert_eq!(ledger.job(&job).expect("the job").status, JobStatus::InProgress);
}

#[test]
fn employer_may_assign_the_job_to_anyone() {
    let mut ledger = Ledger::new(key(PROGRAM));
    let job = post(&mut ledger, 1, 10, 0);
    let assign = AssignJob { job, employer: key(EMPLOYER) };
    assert_eq!(assign_job(&mut ledger, &assign, key(EMPLOYER), 1), Ok(()));
    assert_eq!(ledger.job(&job).expect("the job").worker, key(EMPLOYER));
}
