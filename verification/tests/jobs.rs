use hypernode::identity::Pubkey;
use hypernode::jobs::error::JobReceiptError;
use hypernode::jobs::job_account::JobAccount;
use hypernode::jobs::lifecycle::{
    assign_job, cancel_job, create_job, settle_job, submit_result, Settlement,
};
use hypernode::jobs::status::{JobStatus, JobType};

fn who(n: u8) -> Pubkey {
    Pubkey::new([n; 32])
}

const CLIENT: u8 = 1;
const WORKER: u8 = 2;

fn pending_job(price: u64) -> JobAccount {
    create_job("job-1".to_string(), who(CLIENT), 0, price, "req".to_string(), 1_000, 5).unwrap()
}

fn assigned_job(price: u64) -> JobAccount {
    let mut job = pending_job(price);
    assign_job(&mut job, who(WORKER)).unwrap();
    job
}

fn completed_job(price: u64) -> JobAccount {
    let mut job = assigned_job(price);
    submit_result(&mut job, who(WORKER), "hash".to_string(), "url".to_string(), 2_000).unwrap();
    job
}

#[test]
fn create_job_starts_pending() {
    let job = create_job("job-1".to_string(), who(CLIENT), 3, 1_000, "req".to_string(), 1_000, 5)
        .unwrap();
    assert_eq!(
        job,
        JobAccount {
            job_id: "job-1".to_string(),
            client: who(CLIENT),
            assigned_node: None,
            job_type: JobType::VisionPipeline,
            price: 1_000,
            requirements_hash: "req".to_string(),
            created_at: 1_000,
            completed_at: 0,
            status: JobStatus::Pending,
            result_hash: String::new(),
            logs_url: String::new(),
            payment_settled: false,
            bump: 5,
        }
    );
    assert!(job.is_pending());
    assert!(job.can_be_assigned());
    assert!(!job.can_submit_result());
    assert!(!job.can_be_settled());
}

#[test]
fn create_job_accepts_the_longest_texts() {
    let job = create_job("a".repeat(32), who(CLIENT), 5, 1, "b".repeat(64), 0, 0).unwrap();
    assert_eq!(job.job_id.len(), 32);
    assert_eq!(job.requirements_hash.len(), 64);
    assert_eq!(job.job_type, JobType::GenericCompute);
    assert!(create_job(String::new(), who(CLIENT), 0, u64::MAX, String::new(), 0, 0).is_ok());
}

#[test]
fn create_job_counts_characters() {
    assert!(create_job("é".repeat(32), who(CLIENT), 0, 1, "ü".repeat(64), 0, 0).is_ok());
    assert_eq!(
        create_job("é".repeat(33), who(CLIENT), 0, 1, String::new(), 0, 0),
        Err(JobReceiptError::JobIdTooLong)
    );
}

#[test]
fn create_job_rejects_long_id() {
    assert_eq!(
        create_job("a".repeat(33), who(CLIENT), 0, 1, String::new(), 0, 0),
        Err(JobReceiptError::JobIdTooLong)
    );
    // The identifier is checked first.
    assert_eq!(
        create_job("a".repeat(33), who(CLIENT), 9, 0, "b".repeat(65), 0, 0),
        Err(JobReceiptError::JobIdTooLong)
    );
}

#[test]
fn create_job_rejects_unknown_type() {
    assert_eq!(
        create_job("j".to_string(), who(CLIENT), 6, 1, String::new(), 0, 0),
        Err(JobReceiptError::InvalidJobType)
    );
    assert_eq!(
        create_job("j".to_string(), who(CLIENT), 255, 0, String::new(), 0, 0),
        Err(JobReceiptError::InvalidJobType)
    );
}

#[test]
fn create_job_rejects_zero_price() {
    assert_eq!(
        create_job("j".to_string(), who(CLIENT), 0, 0, "b".repeat(65), 0, 0),
        Err(JobReceiptError::InvalidPrice)
    );
}

#[test]
fn create_job_rejects_long_requirements_hash() {
    assert_eq!(
        create_job("j".to_string(), who(CLIENT), 0, 1, "b".repeat(65), 0, 0),
        Err(JobReceiptError::RequirementsHashTooLong)
    );
}

#[test]
fn job_type_codes_round_trip() {
    let types = [
        JobType::LlmInference,
        JobType::LlmFineTuning,
        JobType::RagIndexing,
        JobType::VisionPipeline,
        JobType::Render,
        JobType::GenericCompute,
    ];
    for (code, job_type) in types.iter().enumerate() {
        assert_eq!(job_type.code(), code as u8);
        assert_eq!(JobType::from_code(code as u8), Some(*job_type));
    }
    for code in 6..=255u8 {
        assert_eq!(JobType::from_code(code), None);
    }
}

#[test]
fn job_status_codes_round_trip() {
    let states = [
        JobStatus::Pending,
        JobStatus::Assigned,
        JobStatus::Running,
        JobStatus::Completed,
        JobStatus::Failed,
        JobStatus::Cancelled,
    ];
    for (code, status) in states.iter().enumerate() {
        assert_eq!(status.code(), code as u8);
        assert_eq!(JobStatus::from_code(code as u8), Some(*status));
    }
    for code in 6..=255u8 {
        assert_eq!(JobStatus::from_code(code), None);
    }
}

#[test]
fn allowed_moves_are_exactly_five() {
    let states = [
        JobStatus::Pending,
        JobStatus::Assigned,
        JobStatus::Running,
        JobStatus::Completed,
        JobStatus::Failed,
        JobStatus::Cancelled,
    ];
    let allowed = [
        (JobStatus::Pending, JobStatus::Assigned),
        (JobStatus::Pending, JobStatus::Cancelled),
        (JobStatus::Assigned, JobStatus::Completed),
        (JobStatus::Assigned, JobStatus::Cancelled),
        (JobStatus::Running, JobStatus::Completed),
    ];
    for &from in &states {
        for &to in &states {
            assert_eq!(from.can_transition_to(to), allowed.contains(&(from, to)));
            if from.can_transition_to(to) {
                assert!(from.code() < to.code());
            }
        }
    }
}

#[test]
fn assign_moves_pending_to_assigned() {
    let mut job = pending_job(10);
    assert_eq!(assign_job(&mut job, who(WORKER)), Ok(()));
    assert_eq!(job.status, JobStatus::Assigned);
    assert_eq!(job.assigned_node, Some(who(WORKER)));
    assert!(job.is_assigned());
    assert!(job.can_submit_result());
    assert!(!job.can_be_assigned());
    assert_eq!(job.job_id, "job-1");
    assert_eq!(job.price, 10);
}

#[test]
fn assign_rejects_job_that_is_not_pending() {
    for status in [
        JobStatus::Assigned,
        JobStatus::Running,
        JobStatus::Completed,
        JobStatus::Failed,
        JobStatus::Cancelled,
    ] {
        let mut job = assigned_job(10);
        job.status = status;
        let before = job.clone();
        assert_eq!(assign_job(&mut job, who(7)), Err(JobReceiptError::JobNotPending));
        assert_eq!(job, before);
    }
}

#[test]
fn submit_result_completes_assigned_job() {
    let mut job = assigned_job(10);
    assert_eq!(
        submit_result(&mut job, who(WORKER), "h".repeat(64), "u".repeat(128), 2_000),
        Ok(())
    );
    assert_eq!(job.status, JobStatus::Completed);
    assert_eq!(job.result_hash, "h".repeat(64));
    assert_eq!(job.logs_url, "u".repeat(128));
    assert_eq!(job.completed_at, 2_000);
    assert_eq!(job.created_at, 1_000);
    assert_eq!(job.assigned_node, Some(who(WORKER)));
    assert!(job.is_completed());
    assert!(job.can_be_settled());
    assert!(!job.payment_settled);
}

#[test]
fn submit_result_completes_running_job() {
    let mut job = assigned_job(10);
    job.status = JobStatus::Running;
    assert!(job.is_running());
    assert!(job.can_submit_result());
    assert_eq!(
        submit_result(&mut job, who(WORKER), "h".to_string(), "u".to_string(), 2_000),
        Ok(())
    );
    assert_eq!(job.status, JobStatus::Completed);
}

#[test]
fn submit_result_rejects_other_callers() {
    let mut job = assigned_job(10);
    let before = job.clone();
    assert_eq!(
        submit_result(&mut job, who(CLIENT), "h".to_string(), "u".to_string(), 2_000),
        Err(JobReceiptError::Unauthorized)
    );
    assert_eq!(job, before);
    // The state is checked before the caller.
    let mut done = completed_job(10);
    assert_eq!(
        submit_result(&mut done, who(CLIENT), "h".to_string(), "u".to_string(), 2_000),
        Err(JobReceiptError::JobNotAssigned)
    );
    // A running job that lost its worker takes a result from nobody.
    let mut orphan = assigned_job(10);
    orphan.status = JobStatus::Running;
    orphan.assigned_node = None;
    assert_eq!(
        submit_result(&mut orphan, who(WORKER), "h".to_string(), "u".to_string(), 2_000),
        Err(JobReceiptError::Unauthorized)
    );
}

#[test]
fn submit_result_rejects_long_texts() {
    let mut job = assigned_job(10);
    let before = job.clone();
    assert_eq!(
        submit_result(&mut job, who(WORKER), "h".repeat(65), "u".repeat(129), 2_000),
        Err(JobReceiptError::ResultHashInvalid)
    );
    assert_eq!(
        submit_result(&mut job, who(WORKER), "h".repeat(64), "u".repeat(129), 2_000),
        Err(JobReceiptError::LogsUrlTooLong)
    );
    assert_eq!(job, before);
    // The texts are checked before the state and the caller.
    let mut pending = pending_job(10);
    assert_eq!(
        submit_result(&mut pending, who(CLIENT), "h".repeat(65), "u".to_string(), 2_000),
        Err(JobReceiptError::ResultHashInvalid)
    );
}

#[test]
fn submit_result_rejects_job_not_in_work() {
    let mut pending = pending_job(10);
    assert_eq!(
        submit_result(&mut pending, who(WORKER), "h".to_string(), "u".to_string(), 2_000),
        Err(JobReceiptError::JobNotAssigned)
    );
    assert_eq!(pending.status, JobStatus::Pending);
    for status in [
        JobStatus::Pending,
        JobStatus::Completed,
        JobStatus::Failed,
        JobStatus::Cancelled,
    ] {
        let mut job = assigned_job(10);
        job.status = status;
        let before = job.clone();
        assert_eq!(
            submit_result(&mut job, who(WORKER), "h".to_string(), "u".to_string(), 2_000),
            Err(JobReceiptError::JobNotAssigned)
        );
        assert_eq!(job, before);
    }
}

#[test]
fn settle_splits_price_80_10_5() {
    let mut job = completed_job(1_000);
    assert_eq!(
        settle_job(&mut job),
        Ok(Settlement { operator_amount: 800, treasury_amount: 100, incentive_amount: 50 })
    );
    assert!(job.payment_settled);
    assert_eq!(job.status, JobStatus::Completed);
    assert!(!job.can_be_settled());
}

#[test]
fn settle_rounds_each_part_down() {
    let mut job = completed_job(7);
    assert_eq!(
        settle_job(&mut job),
        Ok(Settlement { operator_amount: 5, treasury_amount: 0, incentive_amount: 0 })
    );
    let mut job = completed_job(1);
    assert_eq!(
        settle_job(&mut job),
        Ok(Settlement { operator_amount: 0, treasury_amount: 0, incentive_amount: 0 })
    );
    let mut job = completed_job(u64::MAX);
    assert_eq!(
        settle_job(&mut job),
        Ok(Settlement {
            operator_amount: 14_757_395_258_967_641_292,
            treasury_amount: 1_844_674_407_370_955_161,
            incentive_amount: 922_337_203_685_477_580,
        })
    );
}

#[test]
fn settle_twice_fails_with_already_settled() {
    let mut job = completed_job(1_000);
    assert!(settle_job(&mut job).is_ok());
    let before = job.clone();
    assert_eq!(settle_job(&mut job), Err(JobReceiptError::JobAlreadySettled));
    assert_eq!(settle_job(&mut job), Err(JobReceiptError::JobAlreadySettled));
    assert_eq!(job, before);
}

#[test]
fn settle_rejects_job_that_is_not_completed() {
    for status in [
        JobStatus::Pending,
        JobStatus::Assigned,
        JobStatus::Running,
        JobStatus::Failed,
        JobStatus::Cancelled,
    ] {
        let mut job = assigned_job(10);
        job.status = status;
        let before = job.clone();
        assert_eq!(settle_job(&mut job), Err(JobReceiptError::JobNotCompleted));
        assert_eq!(job, before);
    }
}

#[test]
fn cancel_moves_pending_or_assigned_to_cancelled() {
    let mut job = pending_job(10);
    assert_eq!(cancel_job(&mut job, who(CLIENT)), Ok(()));
    assert_eq!(job.status, JobStatus::Cancelled);
    assert!(job.is_cancelled());
    assert_eq!(job.assigned_node, None);
    let mut job = assigned_job(10);
    assert_eq!(cancel_job(&mut job, who(CLIENT)), Ok(()));
    assert_eq!(job.status, JobStatus::Cancelled);
    assert_eq!(job.assigned_node, Some(who(WORKER)));
}

#[test]
fn cancel_rejects_other_callers() {
    let mut job = assigned_job(10);
    let before = job.clone();
    assert_eq!(cancel_job(&mut job, who(WORKER)), Err(JobReceiptError::Unauthorized));
    assert_eq!(job, before);
    // The caller is checked before the state.
    let mut done = completed_job(10);
    assert_eq!(cancel_job(&mut done, who(WORKER)), Err(JobReceiptError::Unauthorized));
}

#[test]
fn cancel_rejects_job_past_assignment() {
    for status in [
        JobStatus::Running,
        JobStatus::Completed,
        JobStatus::Failed,
        JobStatus::Cancelled,
    ] {
        let mut job = assigned_job(10);
        job.status = status;
        let before = job.clone();
        assert_eq!(cancel_job(&mut job, who(CLIENT)), Err(JobReceiptError::InvalidJobStatus));
        assert_eq!(job, before);
    }
}

#[test]
fn failed_job_is_recognised() {
    let mut job = assigned_job(10);
    job.status = JobStatus::Failed;
    assert!(job.is_failed());
    assert!(!job.is_completed());
}

#[test]
fn job_history_never_goes_back() {
    // Every order of the five operations, applied to a fresh job, yields a
    // history that begins pending → assigned → completed or ends cancelled.
    let allowed: [&[JobStatus]; 5] = [
        &[JobStatus::Pending],
        &[JobStatus::Pending, JobStatus::Assigned],
        &[JobStatus::Pending, JobStatus::Assigned, JobStatus::Completed],
        &[JobStatus::Pending, JobStatus::Cancelled],
        &[JobStatus::Pending, JobStatus::Assigned, JobStatus::Cancelled],
    ];
    for script in 0..(4u32.pow(6)) {
        let mut job = pending_job(1_000);
        let mut history = vec![job.status];
        let mut settlements = 0;
        let mut code = script;
        for _ in 0..6 {
            let before = job.clone();
            let ok = match code % 4 {
                0 => assign_job(&mut job, who(WORKER)).is_ok(),
                1 => submit_result(&mut job, who(WORKER), "h".to_string(), "u".to_string(), 9).is_ok(),
                2 => cancel_job(&mut job, who(CLIENT)).is_ok(),
                _ => {
                    let settled = settle_job(&mut job).is_ok();
                    if settled {
                        settlements += 1;
                    }
                    settled
                }
            };
            code /= 4;
            if !ok {
                assert_eq!(job, before);
            }
            if job.status != *history.last().unwrap() {
                assert!(history.last().unwrap().can_transition_to(job.status));
                history.push(job.status);
            }
        }
        assert!(allowed.contains(&history.as_slice()));
        assert!(settlements <= 1);
        assert_eq!(job.payment_settled, settlements == 1);
    }
}
