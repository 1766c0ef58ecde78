//! Job creation: validation, identifiers, totals, and the stored record.

use escrow::{Error, Escrow, JobStatus, MilestoneInput, MilestoneStatus};

fn milestone(description: &str, amount: i128, deadline: u64) -> MilestoneInput {
    MilestoneInput { description: String::from(description), amount, deadline }
}

const CLIENT: u64 = 11;
const FREELANCER: u64 = 22;
const TOKEN: u64 = 33;

#[test]
fn test_create_job() {
    let mut escrow = Escrow::new();

    let milestones = vec![
        milestone("Design mockups", 500, 2000),
        milestone("Frontend implementation", 1000, 3000),
        milestone("Backend integration", 1500, 4000),
    ];

    let job_id = escrow
        .create_job(CLIENT, FREELANCER, TOKEN, milestones, 5000, 1000)
        .unwrap();
    assert_eq!(job_id, 1);

    let job = escrow.get_job(job_id).unwrap();
    assert_eq!(job.client, CLIENT);
    assert_eq!(job.freelancer, FREELANCER);
    assert_eq!(job.total_amount, 3000);
    assert_eq!(job.status, JobStatus::Created);
    assert_eq!(job.milestones.len(), 3);
    assert_eq!(job.job_deadline, 5000);
}

#[test]
fn test_job_count_increments() {
    let mut escrow = Escrow::new();

    let id1 = escrow
        .create_job(CLIENT, FREELANCER, TOKEN, vec![milestone("Task 1", 100, 2000)], 2500, 1000)
        .unwrap();
    let id2 = escrow
        .create_job(CLIENT, FREELANCER, TOKEN, vec![milestone("Task 1", 100, 2000)], 2500, 1000)
        .unwrap();

    assert_eq!(id1, 1);
    assert_eq!(id2, 2);
    assert_eq!(escrow.get_job_count(), 2);
}

#[test]
fn test_create_job_invalid_deadline() {
    let mut escrow = Escrow::new();

    let r = escrow.create_job(
        CLIENT,
        FREELANCER,
        TOKEN,
        vec![milestone("Task 1", 100, 500)],
        2000,
        1000,
    );
    assert_eq!(r, Err(Error::InvalidDeadline));
    assert_eq!(escrow.get_job_count(), 0);
}

#[test]
fn invalid_job_deadline_rejected() {
    let mut escrow = Escrow::new();

    // The milestone deadline is fine; the overall job deadline is not.
    let r = escrow.create_job(
        CLIENT,
        FREELANCER,
        TOKEN,
        vec![milestone("Task 1", 100, 2000)],
        500,
        1000,
    );
    assert_eq!(r, Err(Error::InvalidDeadline));

    // A deadline exactly at the current time is also refused: the rule is
    // strictly greater.
    let r = escrow.create_job(
        CLIENT,
        FREELANCER,
        TOKEN,
        vec![milestone("Task 1", 100, 1000)],
        2000,
        1000,
    );
    assert_eq!(r, Err(Error::InvalidDeadline));
    assert_eq!(escrow.get_job_count(), 0);
}

#[test]
fn empty_milestone_list_rejected() {
    let mut escrow = Escrow::new();
    let r = escrow.create_job(CLIENT, FREELANCER, TOKEN, Vec::new(), 2000, 1000);
    assert_eq!(r, Err(Error::EmptyMilestones));
    assert_eq!(escrow.get_job_count(), 0);
}

#[test]
fn non_positive_amount_rejected() {
    let mut escrow = Escrow::new();
    let r = escrow.create_job(
        CLIENT,
        FREELANCER,
        TOKEN,
        vec![milestone("Task 1", 0, 2000)],
        2500,
        1000,
    );
    assert_eq!(r, Err(Error::InvalidAmount));

    let r = escrow.create_job(
        CLIENT,
        FREELANCER,
        TOKEN,
        vec![milestone("Task 1", -5, 2000)],
        2500,
        1000,
    );
    assert_eq!(r, Err(Error::InvalidAmount));
    assert_eq!(escrow.get_job_count(), 0);
}

#[test]
fn overflowing_total_rejected() {
    let mut escrow = Escrow::new();
    let r = escrow.create_job(
        CLIENT,
        FREELANCER,
        TOKEN,
        vec![milestone("Everything", i128::MAX, 2000), milestone("A bit more", 1, 2000)],
        2500,
        1000,
    );
    assert_eq!(r, Err(Error::AmountOverflow));
    assert_eq!(escrow.get_job_count(), 0);
}

#[test]
fn created_job_matches_arguments_exactly() {
    let mut escrow = Escrow::new();

    let milestones = vec![milestone("Write the report", 750, 4000), milestone("Revise it", 250, 6000)];
    let job_id = escrow
        .create_job(CLIENT, FREELANCER, TOKEN, milestones, 9000, 1000)
        .unwrap();

    let job = escrow.get_job(job_id).unwrap();
    assert_eq!(job.id, 1);
    assert_eq!(job.client, CLIENT);
    assert_eq!(job.freelancer, FREELANCER);
    assert_eq!(job.token, TOKEN);
    assert_eq!(job.total_amount, 1000);
    assert_eq!(job.status, JobStatus::Created);
    assert_eq!(job.job_deadline, 9000);
    assert_eq!(job.milestones.len(), 2);
    assert_eq!(job.milestones[0].description, "Write the report");
    assert_eq!(job.milestones[0].amount, 750);
    assert_eq!(job.milestones[0].deadline, 4000);
    assert_eq!(job.milestones[0].status, MilestoneStatus::Pending);
    assert_eq!(job.milestones[1].description, "Revise it");
    assert_eq!(job.milestones[1].amount, 250);
    assert_eq!(job.milestones[1].deadline, 6000);
    assert_eq!(job.milestones[1].status, MilestoneStatus::Pending);
}

#[test]
fn unknown_job_is_not_found() {
    let escrow = Escrow::new();
    assert!(matches!(escrow.get_job(1), Err(Error::JobNotFound)));
    assert!(matches!(escrow.get_job(0), Err(Error::JobNotFound)));
}
