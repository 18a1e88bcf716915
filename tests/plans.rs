use inving::recurrence::{parse_interval_type, plan_schedule, validate_repeat_interval_type, PlanError, RepeatIntervalType, SchedulePlan, ScheduleTiming};
use inving::request::{plan_request, RequestError, RequestSchedule, ScheduleTarget};
use inving::status::{validate_status_job_schedule, QueueStatus, ScheduleStatus};

const NOW: i64 = 1_700_000_000;
const DAY: i64 = 86_400;

fn timing(recurring: bool, kind: Option<&str>, start: Option<i64>, end: Option<i64>) -> ScheduleTiming {
    ScheduleTiming {
        is_recurring: recurring,
        repeat_interval_type: kind.map(|s| s.to_string()),
        start_at: start,
        end_at: end,
    }
}

#[test]
fn status_names_round_trip() {
    for st in [
        ScheduleStatus::Scheduled,
        ScheduleStatus::Pending,
        ScheduleStatus::InProgress,
        ScheduleStatus::Completed,
        ScheduleStatus::Failed,
        ScheduleStatus::Canceled,
    ] {
        assert_eq!(ScheduleStatus::parse(&st.name()), Some(st));
    }
    assert_eq!(ScheduleStatus::parse("in_progress"), Some(ScheduleStatus::InProgress));
    assert_eq!(ScheduleStatus::parse("done"), None);
    assert_eq!(QueueStatus::parse("failed"), Some(QueueStatus::Failed));
    assert_eq!(QueueStatus::parse("scheduled"), None);
    assert_eq!(QueueStatus::Canceled.name(), "canceled");
    assert!(QueueStatus::Failed.open());
    assert!(!QueueStatus::Completed.open());
}

#[test]
fn lifecycle_steps() {
    assert!(ScheduleStatus::Scheduled.can_become(ScheduleStatus::Pending));
    assert!(ScheduleStatus::InProgress.can_become(ScheduleStatus::Scheduled));
    assert!(ScheduleStatus::Pending.can_become(ScheduleStatus::Canceled));
    assert!(!ScheduleStatus::Completed.can_become(ScheduleStatus::Canceled));
    assert!(!ScheduleStatus::Canceled.can_become(ScheduleStatus::Scheduled));
    assert!(!ScheduleStatus::Scheduled.can_become(ScheduleStatus::Completed));
    assert!(!ScheduleStatus::InProgress.can_become(ScheduleStatus::Pending));
    assert!(ScheduleStatus::Completed.can_become(ScheduleStatus::Completed));
}

#[test]
fn client_status_names() {
    assert!(validate_status_job_schedule("pending"));
    assert!(validate_status_job_schedule("failed"));
    assert!(validate_status_job_schedule("canceled"));
    assert!(!validate_status_job_schedule("scheduled"));
    assert!(!validate_status_job_schedule("PENDING"));
}

#[test]
fn interval_names_and_lengths() {
    assert_eq!(parse_interval_type("WEEKLY"), Some(RepeatIntervalType::Weekly));
    assert_eq!(parse_interval_type("ONCE"), Some(RepeatIntervalType::Once));
    assert!(validate_repeat_interval_type("ONCE"));
    assert!(validate_repeat_interval_type("MONTHLY"));
    assert!(!validate_repeat_interval_type("YEARLY"));
    assert_eq!(RepeatIntervalType::Once.seconds(), 5);
    assert_eq!(RepeatIntervalType::PerMinute.seconds(), 60);
    assert_eq!(RepeatIntervalType::Hourly.seconds(), 3600);
    assert_eq!(RepeatIntervalType::Daily.seconds(), 86400);
    assert_eq!(RepeatIntervalType::Weekly.seconds(), 604800);
    assert_eq!(RepeatIntervalType::Monthly.seconds(), 2419200);
}

#[test]
fn one_shot_runs_in_five_seconds() {
    assert_eq!(
        plan_schedule(&timing(false, None, None, None), NOW),
        Ok(SchedulePlan { run_at: NOW + 5, repeat_interval: 5, repeat_count: 0 })
    );
}

#[test]
fn weekly_over_thirty_days_repeats_four_times() {
    let start = NOW + 60;
    let end = start + 30 * DAY;
    assert_eq!(
        plan_schedule(&timing(true, Some("WEEKLY"), Some(start), Some(end)), NOW),
        Ok(SchedulePlan { run_at: start, repeat_interval: 604800, repeat_count: 4 })
    );
    assert_eq!(
        plan_schedule(&timing(true, Some("DAILY"), Some(start), Some(start + 5 * DAY)), NOW),
        Ok(SchedulePlan { run_at: start, repeat_interval: 86400, repeat_count: 5 })
    );
}

#[test]
fn each_timing_error() {
    assert_eq!(plan_schedule(&timing(true, Some("YEARLY"), Some(NOW + 1), Some(NOW + 9 * DAY)), NOW), Err(PlanError::InvalidIntervalType));
    assert_eq!(plan_schedule(&timing(true, Some("DAILY"), None, Some(NOW + 9 * DAY)), NOW), Err(PlanError::MissingWindow));
    assert_eq!(plan_schedule(&timing(true, Some("DAILY"), Some(NOW + 10), Some(NOW + 5)), NOW), Err(PlanError::EndBeforeStart));
    assert_eq!(plan_schedule(&timing(true, Some("DAILY"), Some(NOW - 10), Some(NOW + 9 * DAY)), NOW), Err(PlanError::StartInPast));
    assert_eq!(plan_schedule(&timing(true, Some("DAILY"), Some(NOW + 10), Some(NOW + 4 * DAY)), NOW), Err(PlanError::WindowTooShort));
    assert_eq!(plan_schedule(&timing(true, None, Some(NOW + 10), Some(NOW + 9 * DAY)), NOW), Err(PlanError::MissingIntervalType));
}

fn request(job_type: &str, external: Option<&str>, title: Option<&str>, description: Option<&str>, tag: Option<&str>) -> RequestSchedule {
    RequestSchedule {
        job_type: job_type.to_string(),
        external_id: external.map(|s| s.to_string()),
        title: title.map(|s| s.to_string()),
        description: description.map(|s| s.to_string()),
        tag: tag.map(|s| s.to_string()),
        timing: timing(false, None, None, None),
    }
}

#[test]
fn request_targets() {
    let r = plan_request(&request("send_invoice", Some("inv1"), None, None, None), NOW).unwrap();
    assert!(matches!(r.target, ScheduleTarget::Invoice(ref s) if s == "inv1"));
    assert_eq!(r.plan.run_at, NOW + 5);
    let r = plan_request(&request("send_reminder", None, Some("Hi"), Some("Check in"), Some("vip")), NOW).unwrap();
    assert!(matches!(r.target, ScheduleTarget::Tag(ref s) if s == "vip"));
    assert_eq!(r.title.as_deref(), Some("Hi"));
    let r = plan_request(&request("send_reminder", Some("c1"), Some("Hi"), Some("Check in"), Some("vip")), NOW).unwrap();
    assert!(matches!(r.target, ScheduleTarget::Customer(ref s) if s == "c1"));
}

#[test]
fn request_errors() {
    let e = |r: RequestSchedule| plan_request(&r, NOW).err();
    assert_eq!(e(request("send_invoice", None, None, None, None)), Some(RequestError::MissingExternalId));
    assert_eq!(e(request("send_reminder", None, None, Some("d"), Some("vip"))), Some(RequestError::MissingTitle));
    assert_eq!(e(request("send_reminder", None, Some(""), Some("d"), Some("vip"))), Some(RequestError::MissingTitle));
    assert_eq!(e(request("send_reminder", None, Some("t"), Some(""), Some("vip"))), Some(RequestError::MissingDescription));
    assert_eq!(e(request("send_reminder", None, Some("t"), Some("d"), Some(""))), Some(RequestError::MissingTag));
    assert_eq!(e(request("send_sms", None, None, None, None)), Some(RequestError::UnsupportedJobType));
    let mut r = request("send_invoice", Some("inv1"), None, None, None);
    r.timing = timing(true, None, None, None);
    assert_eq!(e(r), Some(RequestError::Timing(PlanError::MissingWindow)));
}
