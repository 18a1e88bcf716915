use inving::admission::{invoice_job_data, reminder_job_data, schedule_invoice, schedule_reminder, schedule_tag_reminders, AdmissionError, CustomerRef};
use inving::board::{Board, JobData, JobSchedule, JobType, PromoteStep, QueueRow, ScheduleError};
use inving::invoice::Invoice;
use inving::recurrence::{PlanError, SchedulePlan, ScheduleTiming};
use inving::status::{QueueStatus, ScheduleStatus};

fn data(invoice: Option<&str>) -> JobData {
    JobData {
        invoice_id: invoice.map(|s| s.to_string()),
        created_by: Some("u1".to_string()),
        customer_id: Some("c1".to_string()),
        customer_name: Some("Bob".to_string()),
        merchant_id: Some("m1".to_string()),
        merchant_name: Some("Shop".to_string()),
        title: Some("Hi".to_string()),
        description: Some("Check in".to_string()),
        total_amount: Some(111000),
        invoice_date: Some(0),
    }
}

fn sched(id: u64, job_type: JobType, invoice: Option<&str>, run_at: i64, interval: i64, remaining: i64) -> JobSchedule {
    JobSchedule {
        id,
        job_type,
        job_data: Some(data(invoice)),
        run_at,
        repeat_interval: Some(interval),
        remaining,
        status: ScheduleStatus::Scheduled,
    }
}

fn row(priority: i32, created_at: i64, status: QueueStatus, schedule_id: Option<u64>) -> QueueRow {
    QueueRow {
        job_type: JobType::SendReminder,
        job_data: None,
        schedule_id,
        priority,
        status,
        created_at,
    }
}

#[test]
fn priority_follows_job_type() {
    assert_eq!(JobType::SendInvoice.priority(), 0);
    assert_eq!(JobType::SendReminder.priority(), 1);
    assert_eq!(JobType::Other.priority(), 10);
    assert_eq!(JobType::parse("send_invoice"), JobType::SendInvoice);
    assert_eq!(JobType::parse("send_reminder"), JobType::SendReminder);
    assert_eq!(JobType::parse("cleanup"), JobType::Other);
}

#[test]
fn promoter_queues_a_due_reminder_once() {
    let mut b = Board::new();
    assert!(b.add_schedule(sched(7, JobType::SendReminder, None, 100, 60, 2)).is_ok());
    let waiting = b.promote_due(100);
    assert!(waiting.is_empty());
    assert_eq!(b.queue.len(), 1);
    assert_eq!(b.queue[0].schedule_id, Some(7));
    assert_eq!(b.queue[0].priority, 1);
    assert_eq!(b.queue[0].status, QueueStatus::Pending);
    assert_eq!(b.queue[0].created_at, 100);
    assert_eq!(b.schedules[0].status, ScheduleStatus::Pending);
    assert_eq!(b.open_count_for_schedule(7), 1);
}

#[test]
fn promoter_twice_adds_no_rows() {
    let mut b = Board::new();
    b.add_schedule(sched(1, JobType::SendReminder, None, 10, 60, 0)).unwrap();
    b.add_schedule(sched(2, JobType::SendReminder, None, 20, 60, 0)).unwrap();
    b.add_schedule(sched(3, JobType::SendReminder, None, 5000, 60, 0)).unwrap();
    b.promote_due(100);
    assert_eq!(b.queue.len(), 2);
    b.promote_due(100);
    assert_eq!(b.queue.len(), 2);
    for id in [1u64, 2, 3] {
        assert!(b.open_count_for_schedule(id) <= 1);
    }
}

#[test]
fn promote_steps_cover_each_case() {
    let mut b = Board::new();
    b.add_schedule(sched(1, JobType::SendReminder, None, 500, 60, 0)).unwrap();
    b.add_schedule(sched(2, JobType::SendInvoice, Some("inv1"), 10, 60, 0)).unwrap();
    b.add_schedule(sched(3, JobType::SendReminder, None, 10, 60, 0)).unwrap();
    assert_eq!(b.promote_at(0, 100), PromoteStep::NotDue);
    assert_eq!(b.promote_at(1, 100), PromoteStep::NeedsPreparation);
    assert_eq!(b.schedules[1].status, ScheduleStatus::Pending);
    assert_eq!(b.queue.len(), 0);
    assert_eq!(b.promote_at(2, 100), PromoteStep::Enqueued);
    assert_eq!(b.promote_at(2, 100), PromoteStep::Skipped);
}

#[test]
fn prepared_invoice_is_queued_first() {
    let mut b = Board::new();
    b.add_schedule(sched(2, JobType::SendInvoice, Some("inv1"), 10, 60, 0)).unwrap();
    let waiting = b.promote_due(100);
    assert_eq!(waiting, vec![0]);
    assert_eq!(b.queue.len(), 0);
    let mut patched = data(Some("inv1"));
    patched.invoice_date = Some(100);
    assert!(b.enqueue_prepared(0, patched, 100));
    assert_eq!(b.queue.len(), 1);
    assert_eq!(b.queue[0].priority, 0);
    assert_eq!(b.schedules[0].job_data.as_ref().unwrap().invoice_date, Some(100));
    assert!(!b.enqueue_prepared(0, data(Some("inv1")), 101));
    assert_eq!(b.queue.len(), 1);
}

#[test]
fn claim_takes_lowest_priority_then_oldest() {
    let mut b = Board::new();
    b.queue.push(row(1, 5, QueueStatus::Pending, None));
    b.queue.push(row(0, 9, QueueStatus::Pending, None));
    b.queue.push(row(0, 3, QueueStatus::Failed, None));
    b.queue.push(row(0, 1, QueueStatus::Completed, None));
    assert_eq!(b.claim_top(), Some(2));
    let mut c = Board::new();
    c.queue.push(row(1, 4, QueueStatus::Pending, None));
    c.queue.push(row(1, 4, QueueStatus::Pending, None));
    assert_eq!(c.claim_top(), Some(0));
    let mut d = Board::new();
    d.queue.push(row(0, 1, QueueStatus::Canceled, None));
    assert_eq!(d.claim_top(), None);
}

#[test]
fn one_shot_dispatch_completes_schedule() {
    let mut b = Board::new();
    b.add_schedule(sched(9, JobType::SendReminder, None, 10, 5, 0)).unwrap();
    b.promote_due(20);
    let qi = b.claim_top().unwrap();
    let sk = b.begin_dispatch(qi);
    assert_eq!(sk, Some(0));
    assert_eq!(b.schedules[0].status, ScheduleStatus::InProgress);
    assert_eq!(b.queue[qi].status, QueueStatus::InProgress);
    b.finish_dispatch(qi, sk, true);
    assert_eq!(b.queue[qi].status, QueueStatus::Completed);
    assert_eq!(b.schedules[0].status, ScheduleStatus::Completed);
    assert_eq!(b.schedules[0].remaining, 0);
    b.promote_due(1000);
    assert_eq!(b.queue.len(), 1);
}

#[test]
fn recurring_dispatch_moves_one_occurrence() {
    let mut b = Board::new();
    b.add_schedule(sched(4, JobType::SendReminder, None, 1000, 604800, 3)).unwrap();
    b.promote_due(1000);
    let qi = b.claim_top().unwrap();
    let sk = b.begin_dispatch(qi);
    assert_eq!(b.schedules[0].run_at, 1000);
    assert_eq!(b.schedules[0].remaining, 3);
    b.finish_dispatch(qi, sk, true);
    assert_eq!(b.schedules[0].status, ScheduleStatus::Scheduled);
    assert_eq!(b.schedules[0].run_at, 605800);
    assert_eq!(b.schedules[0].remaining, 2);
    b.promote_due(2000);
    assert_eq!(b.queue.len(), 1);
    b.promote_due(605800);
    assert_eq!(b.queue.len(), 2);
}

#[test]
fn failed_dispatch_is_retried_without_spending_an_occurrence() {
    let mut b = Board::new();
    b.add_schedule(sched(4, JobType::SendReminder, None, 1000, 60, 3)).unwrap();
    b.promote_due(1000);
    let qi = b.claim_top().unwrap();
    let sk = b.begin_dispatch(qi);
    b.finish_dispatch(qi, sk, false);
    assert_eq!(b.queue[qi].status, QueueStatus::Failed);
    assert_eq!(b.schedules[0].status, ScheduleStatus::InProgress);
    assert_eq!(b.schedules[0].remaining, 3);
    assert_eq!(b.claim_top(), Some(qi));
    let sk2 = b.begin_dispatch(qi);
    assert_eq!(sk2, Some(0));
    assert_eq!(b.schedules[0].remaining, 3);
    assert_eq!(b.schedules[0].run_at, 1000);
    b.promote_due(5000);
    assert_eq!(b.queue.len(), 1);
    b.finish_dispatch(qi, sk2, true);
    assert_eq!(b.schedules[0].status, ScheduleStatus::Scheduled);
    assert_eq!(b.schedules[0].remaining, 2);
    assert_eq!(b.schedules[0].run_at, 1060);
}

#[test]
fn cancel_stops_invoice_jobs() {
    let mut b = Board::new();
    b.add_schedule(sched(2, JobType::SendInvoice, Some("inv1"), 10, 60, 0)).unwrap();
    b.add_schedule(sched(3, JobType::SendInvoice, Some("inv2"), 10, 60, 0)).unwrap();
    b.promote_due(100);
    b.enqueue_prepared(0, data(Some("inv1")), 100);
    let qi = b.claim_top().unwrap();
    b.begin_dispatch(qi);
    assert_eq!(b.cancel_invoice("inv1", "u1"), 1);
    assert_eq!(b.schedules[0].status, ScheduleStatus::Canceled);
    assert_eq!(b.schedules[1].status, ScheduleStatus::Pending);
    assert_eq!(b.queue[qi].status, QueueStatus::Canceled);
    assert_eq!(b.promote_at(0, 200), PromoteStep::NotDue);
    assert_eq!(b.cancel_invoice("inv2", "someone-else"), 0);
}

#[test]
fn second_open_schedule_for_an_invoice_is_refused() {
    let mut b = Board::new();
    b.add_schedule(sched(2, JobType::SendInvoice, Some("inv1"), 10, 60, 0)).unwrap();
    assert_eq!(
        b.add_schedule(sched(3, JobType::SendInvoice, Some("inv1"), 10, 60, 0)),
        Err(ScheduleError::AlreadyScheduled)
    );
    assert!(b.invoice_scheduled("inv1"));
    b.cancel_invoice("inv1", "u1");
    assert!(!b.invoice_scheduled("inv1"));
    assert!(b.add_schedule(sched(3, JobType::SendInvoice, Some("inv1"), 10, 60, 0)).is_ok());
}

fn invoice() -> Invoice {
    Invoice {
        id: "inv9".to_string(),
        invoice_number: "INVC-u1-1".to_string(),
        merchant_id: "m1".to_string(),
        customer_id: "c1".to_string(),
        amount: 100000,
        total_amount: 111000,
        tax_amount: 11000,
        tax_rate: 11,
        invoice_date: 0,
        created_by: "u1".to_string(),
        title: Some("March".to_string()),
        description: None,
    }
}

#[test]
fn scheduling_an_invoice_checks_timing_then_binding() {
    let mut b = Board::new();
    let one_shot = ScheduleTiming { is_recurring: false, repeat_interval_type: None, start_at: None, end_at: None };
    assert_eq!(schedule_invoice(&mut b, 1, &invoice(), "Bob", "Shop", "u1", &one_shot, 1000), Ok(()));
    let s = &b.schedules[0];
    assert_eq!(s.run_at, 1005);
    assert_eq!(s.remaining, 0);
    assert_eq!(s.repeat_interval, Some(5));
    let d = s.job_data.as_ref().unwrap();
    assert_eq!(d.invoice_id.as_deref(), Some("inv9"));
    assert_eq!(d.merchant_name.as_deref(), Some("Shop"));
    assert_eq!(d.total_amount, Some(111000));
    assert_eq!(
        schedule_invoice(&mut b, 2, &invoice(), "Bob", "Shop", "u1", &one_shot, 1000),
        Err(AdmissionError::AlreadyScheduled)
    );
    let bad = ScheduleTiming { is_recurring: true, repeat_interval_type: None, start_at: None, end_at: None };
    assert_eq!(
        schedule_invoice(&mut b, 3, &invoice(), "Bob", "Shop", "u1", &bad, 1000),
        Err(AdmissionError::Timing(PlanError::MissingWindow))
    );
    assert_eq!(b.schedules.len(), 1);
}

#[test]
fn reminder_payload_and_schedule() {
    let d = reminder_job_data("Hi", "Check in", "c1", "Bob", "m1", "Shop", "u1");
    assert_eq!(d.title.as_deref(), Some("Hi"));
    assert_eq!(d.invoice_id, None);
    let mut b = Board::new();
    schedule_reminder(&mut b, 5, d, SchedulePlan { run_at: 60, repeat_interval: 604800, repeat_count: 4 });
    assert_eq!(b.schedules[0].job_type, JobType::SendReminder);
    assert_eq!(b.schedules[0].remaining, 4);
    let inv = invoice_job_data(&invoice(), "Bob", "Shop", "u1");
    assert_eq!(inv.customer_id.as_deref(), Some("c1"));
    assert_eq!(inv.created_by.as_deref(), Some("u1"));
}

#[test]
fn transitions_follow_the_lifecycle() {
    let mut b = Board::new();
    b.add_schedule(sched(1, JobType::SendReminder, None, 10, 60, 0)).unwrap();
    assert!(!b.transition_schedule(0, ScheduleStatus::Completed));
    assert_eq!(b.schedules[0].status, ScheduleStatus::Scheduled);
    assert!(b.transition_schedule(0, ScheduleStatus::Pending));
    assert!(b.transition_schedule(0, ScheduleStatus::Canceled));
    assert!(!b.transition_schedule(0, ScheduleStatus::Scheduled));
    assert!(!b.transition_schedule(0, ScheduleStatus::Canceled));
    assert_eq!(b.schedules[0].status, ScheduleStatus::Canceled);
    b.queue.push(row(1, 0, QueueStatus::Pending, Some(1)));
    assert!(!b.transition_row(0, QueueStatus::Completed));
    assert!(b.transition_row(0, QueueStatus::InProgress));
    assert!(b.transition_row(0, QueueStatus::Completed));
    assert!(!b.transition_row(0, QueueStatus::Canceled));
    assert!(!b.transition_row(0, QueueStatus::Completed));
    assert_eq!(b.queue[0].status, QueueStatus::Completed);
}

#[test]
fn rows_from_storage_are_checked() {
    let ok = Board::from_rows(vec![sched(1, JobType::SendReminder, None, 10, 60, 3)], vec![row(1, 0, QueueStatus::Pending, Some(1))]);
    assert!(ok.is_some());
    let twice = Board::from_rows(
        vec![sched(1, JobType::SendReminder, None, 10, 60, 3)],
        vec![row(1, 0, QueueStatus::Pending, Some(1)), row(1, 1, QueueStatus::Failed, Some(1))],
    );
    assert!(twice.is_none());
    let closed = Board::from_rows(vec![], vec![row(1, 0, QueueStatus::Completed, Some(1)), row(1, 1, QueueStatus::Pending, Some(1))]);
    assert!(closed.is_some());
    let mut bad = sched(2, JobType::SendReminder, None, i64::MAX - 10, 60, 1);
    assert!(Board::from_rows(vec![bad.clone()], vec![]).is_none());
    bad.repeat_interval = Some(0);
    assert!(Board::from_rows(vec![bad], vec![]).is_none());
}

#[test]
fn last_occurrence_is_still_sent() {
    let mut b = Board::new();
    b.add_schedule(sched(4, JobType::SendReminder, None, 0, 604800, 1)).unwrap();
    let mut sends = 0;
    for week in 0..4 {
        let now = week * 604800;
        b.promote_due(now);
        if let Some(qi) = b.claim_top() {
            let sk = b.begin_dispatch(qi);
            b.finish_dispatch(qi, sk, true);
            sends += 1;
        }
    }
    assert_eq!(sends, 2);
    assert_eq!(b.schedules[0].status, ScheduleStatus::Completed);
    assert_eq!(b.schedules[0].remaining, 0);
}

#[test]
fn one_reminder_per_tagged_customer() {
    let mut b = Board::new();
    let customers = vec![
        CustomerRef { id: "c1".to_string(), name: "Bob".to_string() },
        CustomerRef { id: "c2".to_string(), name: "Eve".to_string() },
    ];
    let plan = SchedulePlan { run_at: 60, repeat_interval: 604800, repeat_count: 4 };
    schedule_tag_reminders(&mut b, &vec![11, 12], &customers, "Hi", "Check in", "m1", "Shop", "u1", plan);
    assert_eq!(b.schedules.len(), 2);
    assert_eq!(b.schedules[1].id, 12);
    let d = b.schedules[1].job_data.as_ref().unwrap();
    assert_eq!(d.customer_id.as_deref(), Some("c2"));
    assert_eq!(d.customer_name.as_deref(), Some("Eve"));
    assert_eq!(d.title.as_deref(), Some("Hi"));
    b.promote_due(60);
    assert_eq!(b.queue.len(), 2);
}
