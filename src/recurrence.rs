//! Recurrence rules: interval names, and the window checks that turn a
//! scheduling request into a first run time, an interval and a repeat count.
//!
//! Times are whole seconds since the Unix epoch.
use vstd::prelude::*;
use crate::text::same_text;

verus! {

/// Shortest window, in seconds, that a recurring schedule may span (five days).
pub const MIN_RECURRING_WINDOW: i64 = 432000;

/// Recurrence chosen from a fixed set of names.
#[derive(Clone, Copy, Debug, PartialEq, Eq, Structural)]
pub enum RepeatIntervalType {
    Once,
    PerMinute,
    Hourly,
    Daily,
    Weekly,
    Monthly,
}

impl RepeatIntervalType {
    pub open spec fn spec_seconds(self) -> i64 {
        match self {
            RepeatIntervalType::Once => 5,
            RepeatIntervalType::PerMinute => 60,
            RepeatIntervalType::Hourly => 3600,
            RepeatIntervalType::Daily => 86400,
            RepeatIntervalType::Weekly => 604800,
            RepeatIntervalType::Monthly => 2419200,
        }
    }

    /// Seconds between two occurrences; a month counts as four weeks.
    pub fn seconds(&self) -> (r: i64)
        ensures
            r == self.spec_seconds(),
            r > 0,
    {
        match self {
            RepeatIntervalType::Once => 5,
            RepeatIntervalType::PerMinute => 60,
            RepeatIntervalType::Hourly => 3600,
            RepeatIntervalType::Daily => 86400,
            RepeatIntervalType::Weekly => 604800,
            RepeatIntervalType::Monthly => 2419200,
        }
    }
}

/// The interval named `s`, if any.
pub open spec fn interval_type_of(s: Seq<char>) -> Option<RepeatIntervalType> {
    if s == "ONCE"@ {
        Some(RepeatIntervalType::Once)
    } else if s == "PERMINUTE"@ {
        Some(RepeatIntervalType::PerMinute)
    } else if s == "HOURLY"@ {
        Some(RepeatIntervalType::Hourly)
    } else if s == "DAILY"@ {
        Some(RepeatIntervalType::Daily)
    } else if s == "WEEKLY"@ {
        Some(RepeatIntervalType::Weekly)
    } else if s == "MONTHLY"@ {
        Some(RepeatIntervalType::Monthly)
    } else {
        None
    }
}

pub fn parse_interval_type(s: &str) -> (r: Option<RepeatIntervalType>)
    ensures
        r == interval_type_of(s@),
{
    if same_text(s, "ONCE") {
        Some(RepeatIntervalType::Once)
    } else if same_text(s, "PERMINUTE") {
        Some(RepeatIntervalType::PerMinute)
    } else if same_text(s, "HOURLY") {
        Some(RepeatIntervalType::Hourly)
    } else if same_text(s, "DAILY") {
        Some(RepeatIntervalType::Daily)
    } else if same_text(s, "WEEKLY") {
        Some(RepeatIntervalType::Weekly)
    } else if same_text(s, "MONTHLY") {
        Some(RepeatIntervalType::Monthly)
    } else {
        None
    }
}

/// Whether `s` is one of `ONCE`, `PERMINUTE`, `HOURLY`, `DAILY`, `WEEKLY`,
/// `MONTHLY`.
pub fn validate_repeat_interval_type(s: &str) -> (r: bool)
    ensures
        r == interval_type_of(s@).is_some(),
{
    parse_interval_type(s).is_some()
}

/// When a job should first run, and how it repeats.
#[derive(Clone, Copy, Debug, PartialEq, Eq, Structural)]
pub struct SchedulePlan {
    pub run_at: i64,
    pub repeat_interval: i64,
    pub repeat_count: i64,
}

/// Why a scheduling request was refused.
#[derive(Clone, Copy, Debug, PartialEq, Eq, Structural)]
pub enum PlanError {
    /// The interval name is not one of the accepted names.
    InvalidIntervalType,
    /// A recurring job lacks `start_at` or `end_at`.
    MissingWindow,
    EndBeforeStart,
    StartInPast,
    /// A recurring window spans less than five days.
    WindowTooShort,
    /// A recurring job lacks its interval name.
    MissingIntervalType,
}

/// The timing part of a scheduling request.
#[derive(Clone, Debug)]
pub struct ScheduleTiming {
    pub is_recurring: bool,
    pub repeat_interval_type: Option<String>,
    pub start_at: Option<i64>,
    pub end_at: Option<i64>,
}

impl ScheduleTiming {
    pub open spec fn interval_name(self) -> Option<Seq<char>> {
        match self.repeat_interval_type {
            Some(s) => Some(s@),
            None => None,
        }
    }
}

/// The plan for a request made at time `now`, checked in this order: the
/// interval name, the presence of the window, end not before start, start not
/// in the past, the five-day minimum and the interval name of a recurring job.
/// A one-shot job runs five seconds from now and repeats zero times; a
/// recurring one runs at `start_at` and repeats once per whole interval that
/// fits in the window.
pub open spec fn plan_spec(t: ScheduleTiming, now: int) -> Result<SchedulePlan, PlanError> {
    let start: int = if t.is_recurring { t.start_at.unwrap() as int } else { now + 5 };
    let end: int = if t.is_recurring { t.end_at.unwrap() as int } else { now + 10 };
    let kind = match t.interval_name() {
        Some(n) => interval_type_of(n).unwrap(),
        None => RepeatIntervalType::Once,
    };
    if t.interval_name() matches Some(n) && interval_type_of(n) is None {
        Err(PlanError::InvalidIntervalType)
    } else if t.is_recurring && (t.start_at is None || t.end_at is None) {
        Err(PlanError::MissingWindow)
    } else if end < start {
        Err(PlanError::EndBeforeStart)
    } else if start < now {
        Err(PlanError::StartInPast)
    } else if t.is_recurring && end - start < MIN_RECURRING_WINDOW {
        Err(PlanError::WindowTooShort)
    } else if t.is_recurring && t.repeat_interval_type is None {
        Err(PlanError::MissingIntervalType)
    } else {
        Ok(
            SchedulePlan {
                run_at: start as i64,
                repeat_interval: kind.spec_seconds(),
                repeat_count: if t.is_recurring {
                    ((end - start) / kind.spec_seconds() as int) as i64
                } else {
                    0
                },
            },
        )
    }
}

/// Checks the timing of a request made at `now` and plans the schedule.
pub fn plan_schedule(t: &ScheduleTiming, now: i64) -> (r: Result<SchedulePlan, PlanError>)
    requires
        now <= i64::MAX - 10,
    ensures
        r == plan_spec(*t, now as int),
        r matches Ok(p) ==> p.repeat_interval > 0 && p.repeat_count >= 0 && p.run_at
            + p.repeat_interval * p.repeat_count <= i64::MAX,
{
    let kind = match &t.repeat_interval_type {
        Some(name) => match parse_interval_type(name.as_str()) {
            Some(k) => k,
            None => {
                return Err(PlanError::InvalidIntervalType);
            },
        },
        None => RepeatIntervalType::Once,
    };
    if t.is_recurring && (t.start_at.is_none() || t.end_at.is_none()) {
        return Err(PlanError::MissingWindow);
    }
    let start: i64 = if t.is_recurring {
        t.start_at.unwrap()
    } else {
        now + 5
    };
    let end: i64 = if t.is_recurring {
        t.end_at.unwrap()
    } else {
        now + 10
    };
    if end < start {
        return Err(PlanError::EndBeforeStart);
    }
    if start < now {
        return Err(PlanError::StartInPast);
    }
    let span: i128 = end as i128 - start as i128;
    if t.is_recurring && span < MIN_RECURRING_WINDOW as i128 {
        return Err(PlanError::WindowTooShort);
    }
    if t.is_recurring && t.repeat_interval_type.is_none() {
        return Err(PlanError::MissingIntervalType);
    }
    let interval = kind.seconds();
    let count: i64 = if t.is_recurring {
        (span / interval as i128) as i64
    } else {
        0
    };
    proof {
        let s = span as int;
        let iv = interval as int;
        let c = count as int;
        if t.is_recurring {
            assert(c == s / iv);
            assert(iv * c <= s) by (nonlinear_arith)
                requires
                    c == s / iv,
                    iv > 0,
                    s >= 0,
            ;
            assert(c <= s) by (nonlinear_arith)
                requires
                    c == s / iv,
                    iv > 0,
                    s >= 0,
            ;
        }
    }
    Ok(SchedulePlan { run_at: start, repeat_interval: interval, repeat_count: count })
}

} // verus!
