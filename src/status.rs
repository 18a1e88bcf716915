//! Lifecycles of schedules and queue rows.
use vstd::prelude::*;
use vstd::string::*;
use crate::text::same_text;

verus! {

/// Status of a persisted schedule.
#[derive(Clone, Copy, Debug, PartialEq, Eq, Structural)]
pub enum ScheduleStatus {
    Scheduled,
    Pending,
    InProgress,
    Completed,
    Failed,
    Canceled,
}

/// Status of a queue row, one concrete dispatch attempt.
#[derive(Clone, Copy, Debug, PartialEq, Eq, Structural)]
pub enum QueueStatus {
    Pending,
    InProgress,
    Completed,
    Failed,
    Canceled,
}

impl ScheduleStatus {
    /// The wire name of a schedule status.
    pub open spec fn spec_name(self) -> Seq<char> {
        match self {
            ScheduleStatus::Scheduled => "scheduled"@,
            ScheduleStatus::Pending => "pending"@,
            ScheduleStatus::InProgress => "in_progress"@,
            ScheduleStatus::Completed => "completed"@,
            ScheduleStatus::Failed => "failed"@,
            ScheduleStatus::Canceled => "canceled"@,
        }
    }

    /// `completed` and `canceled` never change again.
    pub open spec fn is_terminal(self) -> bool {
        self is Completed || self is Canceled
    }

    /// The single steps of the schedule lifecycle: `scheduled -> pending ->
    /// in_progress -> completed | scheduled (next occurrence)`, `pending` or
    /// `in_progress -> failed`, and `canceled` from any non-terminal status.
    pub open spec fn step(self, to: ScheduleStatus) -> bool {
        match (self, to) {
            (ScheduleStatus::Scheduled, ScheduleStatus::Pending) => true,
            (ScheduleStatus::Pending, ScheduleStatus::InProgress) => true,
            (ScheduleStatus::InProgress, ScheduleStatus::Completed) => true,
            (ScheduleStatus::InProgress, ScheduleStatus::Scheduled) => true,
            (ScheduleStatus::Pending, ScheduleStatus::Failed) => true,
            (ScheduleStatus::InProgress, ScheduleStatus::Failed) => true,
            (_, ScheduleStatus::Canceled) => !self.is_terminal(),
            _ => false,
        }
    }

    /// A status either stays as it is or takes one step of the lifecycle.
    pub open spec fn may_become(self, to: ScheduleStatus) -> bool {
        self == to || self.step(to)
    }

    pub fn parse(s: &str) -> (r: Option<ScheduleStatus>)
        ensures
            r matches Some(st) ==> st.spec_name() == s@,
            r is None ==> forall|st: ScheduleStatus| st.spec_name() != s@,
    {
        if same_text(s, "scheduled") {
            Some(ScheduleStatus::Scheduled)
        } else if same_text(s, "pending") {
            Some(ScheduleStatus::Pending)
        } else if same_text(s, "in_progress") {
            Some(ScheduleStatus::InProgress)
        } else if same_text(s, "completed") {
            Some(ScheduleStatus::Completed)
        } else if same_text(s, "failed") {
            Some(ScheduleStatus::Failed)
        } else if same_text(s, "canceled") {
            Some(ScheduleStatus::Canceled)
        } else {
            None
        }
    }

    pub fn name(&self) -> (r: String)
        ensures
            r@ == self.spec_name(),
    {
        match self {
            ScheduleStatus::Scheduled => String::from_str("scheduled"),
            ScheduleStatus::Pending => String::from_str("pending"),
            ScheduleStatus::InProgress => String::from_str("in_progress"),
            ScheduleStatus::Completed => String::from_str("completed"),
            ScheduleStatus::Failed => String::from_str("failed"),
            ScheduleStatus::Canceled => String::from_str("canceled"),
        }
    }

    pub fn can_become(&self, to: ScheduleStatus) -> (r: bool)
        ensures
            r == self.may_become(to),
    {
        match (*self, to) {
            (ScheduleStatus::Scheduled, ScheduleStatus::Scheduled) => true,
            (ScheduleStatus::Pending, ScheduleStatus::Pending) => true,
            (ScheduleStatus::InProgress, ScheduleStatus::InProgress) => true,
            (ScheduleStatus::Completed, ScheduleStatus::Completed) => true,
            (ScheduleStatus::Failed, ScheduleStatus::Failed) => true,
            (ScheduleStatus::Canceled, ScheduleStatus::Canceled) => true,
            (ScheduleStatus::Scheduled, ScheduleStatus::Pending) => true,
            (ScheduleStatus::Pending, ScheduleStatus::InProgress) => true,
            (ScheduleStatus::InProgress, ScheduleStatus::Completed) => true,
            (ScheduleStatus::InProgress, ScheduleStatus::Scheduled) => true,
            (ScheduleStatus::Pending, ScheduleStatus::Failed) => true,
            (ScheduleStatus::InProgress, ScheduleStatus::Failed) => true,
            (ScheduleStatus::Completed, _) => false,
            (ScheduleStatus::Canceled, _) => false,
            (_, ScheduleStatus::Canceled) => true,
            _ => false,
        }
    }
}

impl QueueStatus {
    /// The wire name of a queue status.
    pub open spec fn spec_name(self) -> Seq<char> {
        match self {
            QueueStatus::Pending => "pending"@,
            QueueStatus::InProgress => "in_progress"@,
            QueueStatus::Completed => "completed"@,
            QueueStatus::Failed => "failed"@,
            QueueStatus::Canceled => "canceled"@,
        }
    }

    pub open spec fn is_terminal(self) -> bool {
        self is Completed || self is Canceled
    }

    /// A row still stands for work of its schedule: it is neither completed
    /// nor canceled.
    pub open spec fn is_open(self) -> bool {
        !self.is_terminal()
    }

    /// The single steps of a queue row: `pending -> in_progress -> completed |
    /// failed`, a failed row is claimed again (`failed -> in_progress`), and
    /// `canceled` from any non-terminal status.
    pub open spec fn step(self, to: QueueStatus) -> bool {
        match (self, to) {
            (QueueStatus::Pending, QueueStatus::InProgress) => true,
            (QueueStatus::Failed, QueueStatus::InProgress) => true,
            (QueueStatus::InProgress, QueueStatus::Completed) => true,
            (QueueStatus::InProgress, QueueStatus::Failed) => true,
            (_, QueueStatus::Canceled) => !self.is_terminal(),
            _ => false,
        }
    }

    pub open spec fn may_become(self, to: QueueStatus) -> bool {
        self == to || self.step(to)
    }

    pub fn parse(s: &str) -> (r: Option<QueueStatus>)
        ensures
            r matches Some(st) ==> st.spec_name() == s@,
            r is None ==> forall|st: QueueStatus| st.spec_name() != s@,
    {
        if same_text(s, "pending") {
            Some(QueueStatus::Pending)
        } else if same_text(s, "in_progress") {
            Some(QueueStatus::InProgress)
        } else if same_text(s, "completed") {
            Some(QueueStatus::Completed)
        } else if same_text(s, "failed") {
            Some(QueueStatus::Failed)
        } else if same_text(s, "canceled") {
            Some(QueueStatus::Canceled)
        } else {
            None
        }
    }

    pub fn name(&self) -> (r: String)
        ensures
            r@ == self.spec_name(),
    {
        match self {
            QueueStatus::Pending => String::from_str("pending"),
            QueueStatus::InProgress => String::from_str("in_progress"),
            QueueStatus::Completed => String::from_str("completed"),
            QueueStatus::Failed => String::from_str("failed"),
            QueueStatus::Canceled => String::from_str("canceled"),
        }
    }

    pub fn open(&self) -> (r: bool)
        ensures
            r == self.is_open(),
    {
        match self {
            QueueStatus::Completed => false,
            QueueStatus::Canceled => false,
            _ => true,
        }
    }
}

/// Whether `s` names a status that a client may set on a schedule:
/// `pending`, `in_progress`, `completed`, `failed` or `canceled`.
pub fn validate_status_job_schedule(s: &str) -> (r: bool)
    ensures
        r == (s@ == "pending"@ || s@ == "in_progress"@ || s@ == "completed"@ || s@ == "failed"@
            || s@ == "canceled"@),
{
    same_text(s, "pending") || same_text(s, "in_progress") || same_text(s, "completed")
        || same_text(s, "failed") || same_text(s, "canceled")
}

} // verus!
