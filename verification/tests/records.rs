use job_portal::application::COVER_LETTER_CAPACITY;
use job_portal::job::{DESCRIPTION_CAPACITY, TITLE_CAPACITY};
use job_portal::records::stored_len;
use job_portal::{
    Application, ApplicationStatus, Identity, Job, JobError, JobStatus, Payment, PaymentStatus,
    TransferError, TransferOrder,
};

fn key(n: u8) -> Identity {
    Identity::from_bytes([n; 32])
}

fn open_job() -> Job {
    Job::create(7, "Title".to_string(), "Text".to_string(), 300, key(1), 100).expect("a job")
}

#[test]
fn record_sizes() {
    assert_eq!(Job::LEN, 1305);
    assert_eq!(Application::LEN, 1065);
    assert_eq!(Payment::LEN, 57);
    assert_eq!(TITLE_CAPACITY, 200);
    assert_eq!(DESCRIPTION_CAPACITY, 1000);
    assert_eq!(COVER_LETTER_CAPACITY, 1000);
}

#[test]
fn new_job_is_open_and_unassigned() {
    let job = open_job();
    assert_eq!(
        job,
        Job {
            job_id: 7,
            title: "Title".to_string(),
            description: "Text".to_string(),
            salary: 300,
            employer: key(1),
            worker: Identity::zero(),
            status: JobStatus::Open,
            created_at: 100,
            updated_at: 100,
        }
    );
    assert_eq!(job.clone(), job);
}

#[test]
fn texts_are_measured_in_bytes() {
    assert_eq!(stored_len(&String::new()), 0);
    assert_eq!(stored_len(&"abc".to_string()), 3);
    assert_eq!(stored_len(&"é".to_string()), 2);
    assert_eq!(stored_len(&"€".to_string()), 3);
}

#[test]
fn job_texts_must_fit() {
    let fits = Job::create(1, "t".repeat(200), "d".repeat(1000), 0, key(1), 0);
    assert!(fits.is_ok());
    let long_title = Job::create(1, "t".repeat(201), "d".to_string(), 0, key(1), 0);
    assert_eq!(long_title, Err(JobError::SerializationOverflow));
    let long_text = Job::create(1, "t".to_string(), "d".repeat(1001), 0, key(1), 0);
    assert_eq!(long_text, Err(JobError::SerializationOverflow));
    let wide = Job::create(1, "é".repeat(100), String::new(), 0, key(1), 0);
    assert!(wide.is_ok());
    let too_wide = Job::create(1, "é".repeat(101), String::new(), 0, key(1), 0);
    assert_eq!(too_wide, Err(JobError::SerializationOverflow));
}

#[test]
fn job_moves_from_open_to_completed() {
    let mut job = open_job();
    assert_eq!(job.assign(&key(2), key(3), 101), Err(JobError::Unauthorized));
    assert_eq!(job, open_job());
    assert_eq!(job.assign(&key(1), key(3), 101), Ok(()));
    assert_eq!(job.status, JobStatus::InProgress);
    assert_eq!(job.worker, key(3));
    assert_eq!(job.updated_at, 101);
    assert_eq!(job.created_at, 100);
    assert_eq!(job.assign(&key(1), key(4), 102), Err(JobError::JobNotOpen));
    assert_eq!(job.cancel(&key(1), 102), Err(JobError::JobNotOpen));
    assert_eq!(job.worker, key(3));

    assert_eq!(job.completion_order(&key(2), key(10), key(11)), Err(JobError::Unauthorized));
    assert_eq!(
        job.completion_order(&key(1), key(10), key(11)),
        Ok(TransferOrder { from: key(10), to: key(11), authority: key(1), amount: 300 })
    );
    assert_eq!(
        job.settle_completion(&key(1), Err(TransferError::FrozenAccount), 103),
        Err(JobError::Transfer(TransferError::FrozenAccount))
    );
    assert_eq!(job.status, JobStatus::InProgress);
    assert_eq!(job.updated_at, 101);
    assert_eq!(job.settle_completion(&key(2), Ok(()), 103), Err(JobError::Unauthorized));
    assert_eq!(job.settle_completion(&key(1), Ok(()), 104), Ok(()));
    assert_eq!(job.status, JobStatus::Completed);
    assert_eq!(job.updated_at, 104);
    assert_eq!(job.settle_completion(&key(1), Ok(()), 105), Err(JobError::JobNotInProgress));
    assert_eq!(job.completion_order(&key(1), key(10), key(11)), Err(JobError::JobNotInProgress));
    assert_eq!(job.assign(&key(1), key(4), 106), Err(JobError::JobNotOpen));
    assert_eq!(job.cancel(&key(1), 106), Err(JobError::JobNotOpen));
    assert_eq!(job.updated_at, 104);
}

#[test]
fn job_moves_from_open_to_cancelled() {
    let mut job = open_job();
    assert_eq!(job.cancel(&key(2), 101), Err(JobError::Unauthorized));
    assert_eq!(job.cancel(&key(1), 101), Ok(()));
    assert_eq!(job.status, JobStatus::Cancelled);
    assert_eq!(job.worker, Identity::zero());
    assert_eq!(job.updated_at, 101);
    assert_eq!(job.cancel(&key(1), 102), Err(JobError::JobNotOpen));
    assert_eq!(job.assign(&key(1), key(3), 102), Err(JobError::JobNotOpen));
    assert_eq!(job.completion_order(&key(1), key(10), key(11)), Err(JobError::JobNotInProgress));
    assert_eq!(job.check_apply(), Err(JobError::JobNotOpen));
}

#[test]
fn guards_check_the_caller_and_then_the_status() {
    let mut job = open_job();
    assert_eq!(job.check_employer(&key(1)), Ok(()));
    assert_eq!(job.check_employer(&key(2)), Err(JobError::Unauthorized));
    assert_eq!(job.check_assign(&key(1)), Ok(()));
    assert_eq!(job.check_cancel(&key(1)), Ok(()));
    assert_eq!(job.check_apply(), Ok(()));
    assert_eq!(job.check_complete(&key(1)), Err(JobError::JobNotInProgress));
    assert_eq!(job.check_complete(&key(2)), Err(JobError::Unauthorized));
    assert_eq!(job.check_assign(&key(2)), Err(JobError::Unauthorized));
    assert_eq!(job.check_cancel(&key(2)), Err(JobError::Unauthorized));
    for status in [JobStatus::InProgress, JobStatus::Completed, JobStatus::Cancelled] {
        job.status = status;
        assert_eq!(job.check_assign(&key(1)), Err(JobError::JobNotOpen));
        assert_eq!(job.check_cancel(&key(1)), Err(JobError::JobNotOpen));
        assert_eq!(job.check_assign(&key(2)), Err(JobError::Unauthorized));
        assert_eq!(job.check_cancel(&key(2)), Err(JobError::Unauthorized));
        assert_eq!(job.check_apply(), Err(JobError::JobNotOpen));
        assert_eq!(job.check_employer(&key(1)), Ok(()));
        let wanted = if status == JobStatus::InProgress { Ok(()) } else { Err(JobError::JobNotInProgress) };
        assert_eq!(job.check_complete(&key(1)), wanted);
    }
    assert_eq!(job, Job { status: JobStatus::Cancelled, ..open_job() });
}

#[test]
fn whoever_is_not_the_employer_is_refused_first() {
    let mut job = open_job();
    assert_eq!(job.completion_order(&key(2), key(10), key(11)), Err(JobError::Unauthorized));
    assert_eq!(job.assign(&key(1), key(3), 101), Ok(()));
    assert_eq!(job.assign(&key(2), key(3), 102), Err(JobError::Unauthorized));
    assert_eq!(job.cancel(&key(2), 102), Err(JobError::Unauthorized));
}

#[test]
fn completing_in_one_step_pays_first() {
    let mut job = open_job();
    assert_eq!(job.assign(&key(1), key(3), 101), Ok(()));
    let mut calls = 0;
    let result = job.complete(&key(1), key(10), key(11), 102, |order| {
        calls += 1;
        assert_eq!(order, TransferOrder { from: key(10), to: key(11), authority: key(1), amount: 300 });
        Err(TransferError::MintMismatch)
    });
    assert_eq!(result, Err(JobError::Transfer(TransferError::MintMismatch)));
    assert_eq!(job.status, JobStatus::InProgress);
    let result = job.complete(&key(9), key(10), key(11), 102, |_| {
        calls += 1;
        Ok(())
    });
    assert_eq!(result, Err(JobError::Unauthorized));
    assert_eq!(calls, 1);
    let result = job.complete(&key(1), key(10), key(11), 103, |_| {
        calls += 1;
        Ok(())
    });
    assert_eq!(result, Ok(()));
    assert_eq!(calls, 2);
    assert_eq!(job.status, JobStatus::Completed);
    assert_eq!(job.updated_at, 103);
}

#[test]
fn application_is_handed_in_to_an_open_job() {
    let job = open_job();
    let application = Application::submit(&job, key(5), "Letter".to_string(), 200).expect("an application");
    assert_eq!(
        application,
        Application {
            job_id: 7,
            applicant: key(5),
            cover_letter: "Letter".to_string(),
            status: ApplicationStatus::Applied,
            applied_at: 200,
            updated_at: 0,
        }
    );
    assert_eq!(application.clone(), application);
    assert!(Application::submit(&job, key(5), "c".repeat(1000), 200).is_ok());
    assert_eq!(
        Application::submit(&job, key(5), "c".repeat(1001), 200),
        Err(JobError::SerializationOverflow)
    );
}

#[test]
fn application_to_a_job_with_a_worker_is_refused() {
    let mut job = open_job();
    job.worker = key(3);
    assert_eq!(job.check_apply(), Err(JobError::JobAlreadyAssigned));
    assert_eq!(
        Application::submit(&job, key(5), "Letter".to_string(), 200),
        Err(JobError::JobAlreadyAssigned)
    );
    job.status = JobStatus::InProgress;
    assert_eq!(Application::submit(&job, key(5), "c".repeat(1001), 200), Err(JobError::JobNotOpen));
    job.status = JobStatus::Completed;
    assert_eq!(Application::submit(&job, key(5), "Letter".to_string(), 200), Err(JobError::JobNotOpen));
}

#[test]
fn any_application_status_follows_any_other() {
    let job = open_job();
    let all = [
        ApplicationStatus::Applied,
        ApplicationStatus::Reviewing,
        ApplicationStatus::Interviewing,
        ApplicationStatus::Accepted,
        ApplicationStatus::Rejected,
    ];
    let mut now = 300;
    for from in all {
        for to in all {
            let mut application = Application::submit(&job, key(5), "Letter".to_string(), 200).expect("it");
            assert_eq!(application.set_status(&job, &key(1), from, now), Ok(()));
            now += 1;
            assert_eq!(application.set_status(&job, &key(1), to, now), Ok(()));
            assert_eq!(application.status, to);
            assert_eq!(application.updated_at, now);
            assert_eq!(application.applied_at, 200);
            assert_eq!(application.set_status(&job, &key(5), from, now + 1), Err(JobError::Unauthorized));
            assert_eq!(application.status, to);
            assert_eq!(application.updated_at, now);
        }
    }
}

#[test]
fn receipt_is_written_only_for_a_transfer_made() {
    assert_eq!(
        Payment::fee_order(key(1), key(10), key(11), 50),
        TransferOrder { from: key(10), to: key(11), authority: key(1), amount: 50 }
    );
    assert_eq!(
        Payment::settle(key(1), 50, Ok(()), 400),
        Ok(Payment { user: key(1), amount: 50, timestamp: 400, status: PaymentStatus::Completed })
    );
    assert_eq!(Payment::receipt(key(1), 50, 400), Payment::settle(key(1), 50, Ok(()), 400).expect("it"));
    assert_eq!(
        Payment::settle(key(1), 50, Err(TransferError::Rejected), 400),
        Err(JobError::Transfer(TransferError::Rejected))
    );
    let mut balance = 50u64;
    let paid = Payment::pay(key(1), key(10), key(11), 50, 401, |order| {
        balance -= order.amount;
        Ok(())
    });
    assert_eq!(paid.expect("a receipt").timestamp, 401);
    assert_eq!(balance, 0);
    let unpaid = Payment::pay(key(1), key(10), key(11), 50, 402, |_| Err(TransferError::InsufficientBalance));
    assert_eq!(unpaid, Err(JobError::Transfer(TransferError::InsufficientBalance)));
}

#[test]
fn identities_compare_by_their_bytes() {
    let mut bytes = [0u8; 32];
    assert!(Identity::from_bytes(bytes).is_zero());
    assert_eq!(Identity::from_bytes(bytes), Identity::zero());
    bytes[31] = 1;
    let last = Identity::from_bytes(bytes);
    assert!(!last.is_zero());
    assert!(!last.same_as(&Identity::zero()));
    assert!(last.same_as(&Identity::from_bytes(bytes)));
    assert_eq!(last.to_bytes(), bytes);
    assert_ne!(last, Identity::zero());
    let mut first = [0u8; 32];
    first[0] = 1;
    assert_ne!(Identity::from_bytes(first), last);
}
