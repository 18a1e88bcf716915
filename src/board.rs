//! Schedules and queue rows, and every change the promoter, the dispatcher and
//! the admission checks make to them.
//!
//! A `Board` holds the rows of both tables. Its invariant says, among other
//! things, that no schedule ever has two open queue rows.
use vstd::prelude::*;
use crate::recurrence::SchedulePlan;
use crate::status::{QueueStatus, ScheduleStatus};
use crate::text::same_text;

verus! {

#[derive(Clone, Copy, Debug, PartialEq, Eq, Structural)]
pub enum JobType {
    SendInvoice,
    SendReminder,
    /// Any other name; such jobs carry no message.
    Other,
}

impl JobType {
    pub open spec fn spec_priority(self) -> i32 {
        match self {
            JobType::SendInvoice => 0,
            JobType::SendReminder => 1,
            JobType::Other => 10,
        }
    }

    /// Queue priority of a job type; lower runs first.
    pub fn priority(&self) -> (r: i32)
        ensures
            r == self.spec_priority(),
    {
        match self {
            JobType::SendInvoice => 0,
            JobType::SendReminder => 1,
            JobType::Other => 10,
        }
    }

    pub fn parse(s: &str) -> (r: JobType)
        ensures
            s@ == "send_invoice"@ ==> r == JobType::SendInvoice,
            s@ == "send_reminder"@ ==> r == JobType::SendReminder,
            s@ != "send_invoice"@ && s@ != "send_reminder"@ ==> r == JobType::Other,
    {
        proof {
            reveal_strlit("send_invoice");
            reveal_strlit("send_reminder");
            assert("send_invoice"@.len() != "send_reminder"@.len());
        }
        if same_text(s, "send_invoice") {
            JobType::SendInvoice
        } else if same_text(s, "send_reminder") {
            JobType::SendReminder
        } else {
            JobType::Other
        }
    }
}

/// The denormalised payload of a job: everything needed to dispatch it.
/// Identifiers are kept in their text form.
#[derive(Clone, Debug)]
pub struct JobData {
    pub invoice_id: Option<String>,
    pub created_by: Option<String>,
    pub customer_id: Option<String>,
    pub customer_name: Option<String>,
    pub merchant_id: Option<String>,
    pub merchant_name: Option<String>,
    pub title: Option<String>,
    pub description: Option<String>,
    pub total_amount: Option<i64>,
    /// Date of the invoice, in seconds since the epoch.
    pub invoice_date: Option<i64>,
}

impl JobData {
    /// A copy equal to `self`.
    pub fn duplicate(&self) -> (r: JobData)
        ensures
            r == *self,
    {
        JobData {
            invoice_id: self.invoice_id.clone(),
            created_by: self.created_by.clone(),
            customer_id: self.customer_id.clone(),
            customer_name: self.customer_name.clone(),
            merchant_id: self.merchant_id.clone(),
            merchant_name: self.merchant_name.clone(),
            title: self.title.clone(),
            description: self.description.clone(),
            total_amount: self.total_amount,
            invoice_date: self.invoice_date,
        }
    }
}

pub open spec fn data_invoice(d: Option<JobData>) -> Option<Seq<char>> {
    match d {
        Some(jd) => match jd.invoice_id {
            Some(s) => Some(s@),
            None => None,
        },
        None => None,
    }
}

pub open spec fn data_creator(d: Option<JobData>) -> Option<Seq<char>> {
    match d {
        Some(jd) => match jd.created_by {
            Some(s) => Some(s@),
            None => None,
        },
        None => None,
    }
}

fn invoice_matches(d: &Option<JobData>, invoice_id: &str) -> (r: bool)
    ensures
        r == (data_invoice(*d) == Some(invoice_id@)),
{
    match d {
        Some(jd) => match &jd.invoice_id {
            Some(s) => same_text(s.as_str(), invoice_id),
            None => false,
        },
        None => false,
    }
}

fn creator_matches(d: &Option<JobData>, user_id: &str) -> (r: bool)
    ensures
        r == (data_creator(*d) == Some(user_id@)),
{
    match d {
        Some(jd) => match &jd.created_by {
            Some(s) => same_text(s.as_str(), user_id),
            None => false,
        },
        None => false,
    }
}

/// A persisted intent to run a job at `run_at`, `remaining` more times after
/// the next one, `repeat_interval` seconds apart.
#[derive(Clone, Debug)]
pub struct JobSchedule {
    pub id: u64,
    pub job_type: JobType,
    pub job_data: Option<JobData>,
    pub run_at: i64,
    pub repeat_interval: Option<i64>,
    pub remaining: i64,
    pub status: ScheduleStatus,
}

impl JobSchedule {
    /// Seconds that one recurrence step adds to `run_at`.
    pub open spec fn step_seconds(self) -> int {
        match self.repeat_interval {
            Some(iv) => iv as int,
            None => 0,
        }
    }

    /// The interval is positive, `remaining` is not negative, and every
    /// remaining occurrence still has a representable run time.
    pub open spec fn wf(self) -> bool {
        &&& self.step_seconds() >= 0
        &&& (self.repeat_interval matches Some(iv) ==> iv > 0)
        &&& self.remaining >= 0
        &&& self.run_at + self.step_seconds() * self.remaining <= i64::MAX
    }

    /// Whether the promoter picks the schedule up at time `now`.
    pub open spec fn is_due(self, now: int) -> bool {
        &&& (self.status is Scheduled || self.status is Pending || self.status is InProgress)
        &&& self.run_at <= now
    }

    /// A fresh `scheduled` schedule following a plan.
    pub fn from_plan(id: u64, job_type: JobType, job_data: Option<JobData>, plan: SchedulePlan) -> (r: JobSchedule)
        requires
            plan.repeat_interval > 0,
            plan.repeat_count >= 0,
            plan.run_at + plan.repeat_interval * plan.repeat_count <= i64::MAX,
        ensures
            r.wf(),
            r.id == id,
            r.job_type == job_type,
            r.job_data == job_data,
            r.run_at == plan.run_at,
            r.repeat_interval == Some(plan.repeat_interval),
            r.remaining == plan.repeat_count,
            r.status == ScheduleStatus::Scheduled,
    {
        JobSchedule {
            id,
            job_type,
            job_data,
            run_at: plan.run_at,
            repeat_interval: Some(plan.repeat_interval),
            remaining: plan.repeat_count,
            status: ScheduleStatus::Scheduled,
        }
    }
}

/// One concrete dispatch attempt. Rows are never removed.
#[derive(Clone, Debug)]
pub struct QueueRow {
    pub job_type: JobType,
    pub job_data: Option<JobData>,
    pub schedule_id: Option<u64>,
    pub priority: i32,
    pub status: QueueStatus,
    /// Creation time, in seconds since the epoch.
    pub created_at: i64,
}

/// A row that is open and belongs to schedule `sid`.
pub open spec fn open_for(r: QueueRow, sid: u64) -> bool {
    r.status.is_open() && r.schedule_id == Some(sid)
}

/// Number of open rows of schedule `sid`.
pub open spec fn open_count(q: Seq<QueueRow>, sid: u64) -> nat
    decreases q.len(),
{
    if q.len() == 0 {
        0
    } else {
        open_count(q.drop_last(), sid) + if open_for(q.last(), sid) {
            1nat
        } else {
            0nat
        }
    }
}

pub open spec fn has_open_row(q: Seq<QueueRow>, sid: u64) -> bool {
    exists|j: int| 0 <= j < q.len() && open_for(#[trigger] q[j], sid)
}

/// No two open rows belong to the same schedule.
pub open spec fn one_open_row_each(q: Seq<QueueRow>) -> bool {
    forall|i: int, j: int|
        0 <= i < q.len() && 0 <= j < q.len() && i != j && (#[trigger] q[i]).status.is_open()
            && (#[trigger] q[j]).status.is_open() && q[i].schedule_id is Some
            ==> q[i].schedule_id != q[j].schedule_id
}

/// Why a schedule was not added.
#[derive(Clone, Copy, Debug, PartialEq, Eq, Structural)]
pub enum ScheduleError {
    /// The invoice already has a schedule that is not completed or canceled.
    AlreadyScheduled,
}

/// The rows of the schedule table and of the queue table.
#[derive(Clone, Debug)]
pub struct Board {
    pub schedules: Vec<JobSchedule>,
    pub queue: Vec<QueueRow>,
}

/// Every schedule is well formed and no schedule has two open rows.
pub open spec fn rows_wf(schedules: Seq<JobSchedule>, queue: Seq<QueueRow>) -> bool {
    &&& forall|k: int| 0 <= k < schedules.len() ==> (#[trigger] schedules[k]).wf()
    &&& one_open_row_each(queue)
}

/// Whether a live (non-terminal) schedule is bound to invoice `inv`.
pub open spec fn invoice_bound(s: Seq<JobSchedule>, inv: Seq<char>) -> bool {
    exists|k: int|
        0 <= k < s.len() && !(#[trigger] s[k]).status.is_terminal() && data_invoice(s[k].job_data)
            == Some(inv)
}

impl Board {
    pub open spec fn wf(&self) -> bool {
        rows_wf(self.schedules@, self.queue@)
    }

    pub fn new() -> (r: Board)
        ensures
            r.wf(),
            r.schedules@.len() == 0,
            r.queue@.len() == 0,
    {
        Board { schedules: Vec::new(), queue: Vec::new() }
    }

    /// Number of open rows of schedule `sid`.
    pub fn open_count_for_schedule(&self, sid: u64) -> (r: usize)
        ensures
            r == open_count(self.queue@, sid),
    {
        let mut n: usize = 0;
        let mut i: usize = 0;
        while i < self.queue.len()
            invariant
                i <= self.queue@.len(),
                n == open_count(self.queue@.subrange(0, i as int), sid),
                n <= i,
            decreases self.queue@.len() - i,
        {
            let row = &self.queue[i];
            assert(self.queue@.subrange(0, i + 1).drop_last() =~= self.queue@.subrange(0, i as int));
            if row.status.open() && row.schedule_id == Some(sid) {
                n = n + 1;
            }
            i = i + 1;
        }
        assert(self.queue@.subrange(0, i as int) =~= self.queue@);
        n
    }

    /// Whether schedule `sid` has an open row.
    pub fn has_open(&self, sid: u64) -> (r: bool)
        ensures
            r == has_open_row(self.queue@, sid),
    {
        let mut i: usize = 0;
        while i < self.queue.len()
            invariant
                i <= self.queue@.len(),
                forall|j: int| 0 <= j < i ==> !open_for(#[trigger] self.queue@[j], sid),
            decreases self.queue@.len() - i,
        {
            let row = &self.queue[i];
            if row.status.open() && row.schedule_id == Some(sid) {
                return true;
            }
            i = i + 1;
        }
        false
    }

    /// Whether a schedule that is neither completed nor canceled is bound to
    /// invoice `invoice_id`.
    pub fn invoice_scheduled(&self, invoice_id: &str) -> (r: bool)
        ensures
            r == invoice_bound(self.schedules@, invoice_id@),
    {
        let mut i: usize = 0;
        while i < self.schedules.len()
            invariant
                i <= self.schedules@.len(),
                forall|k: int|
                    0 <= k < i ==> !(!(#[trigger] self.schedules@[k]).status.is_terminal()
                        && data_invoice(self.schedules@[k].job_data) == Some(invoice_id@)),
            decreases self.schedules@.len() - i,
        {
            let s = &self.schedules[i];
            let live = match s.status {
                ScheduleStatus::Completed => false,
                ScheduleStatus::Canceled => false,
                _ => true,
            };
            if live && invoice_matches(&s.job_data, invoice_id) {
                return true;
            }
            i = i + 1;
        }
        false
    }

    /// Adds a schedule. A `send_invoice` schedule is refused while its invoice
    /// is bound to a schedule that is neither completed nor canceled.
    pub fn add_schedule(&mut self, s: JobSchedule) -> (r: Result<(), ScheduleError>)
        requires
            old(self).wf(),
            s.wf(),
        ensures
            final(self).wf(),
            final(self).queue@ == old(self).queue@,
            r is Err <==> (s.job_type == JobType::SendInvoice && data_invoice(s.job_data) is Some
                && invoice_bound(old(self).schedules@, data_invoice(s.job_data).unwrap())),
            r is Err ==> final(self).schedules@ == old(self).schedules@,
            r is Ok ==> final(self).schedules@ == old(self).schedules@.push(s),
    {
        if s.job_type == JobType::SendInvoice {
            let bound = match &s.job_data {
                Some(jd) => match &jd.invoice_id {
                    Some(inv) => self.invoice_scheduled(inv.as_str()),
                    None => false,
                },
                None => false,
            };
            if bound {
                return Err(ScheduleError::AlreadyScheduled);
            }
        }
        self.schedules.push(s);
        Ok(())
    }
}

/// What the promoter did with one schedule.
#[derive(Clone, Copy, Debug, PartialEq, Eq, Structural)]
pub enum PromoteStep {
    /// Not due: completed, failed or canceled, or its time has not come.
    NotDue,
    /// Due, but a queue row of it is still open, or it is being dispatched.
    Skipped,
    /// An invoice job, now `pending`: the invoice must be prepared before
    /// `enqueue_prepared` queues it.
    NeedsPreparation,
    /// Now `pending`, with a new queue row at the end of the queue.
    Enqueued,
}

/// The same schedule with another status.
pub open spec fn with_status(s: JobSchedule, st: ScheduleStatus) -> JobSchedule {
    JobSchedule { status: st, ..s }
}

/// The queue row that promoting schedule `s` at time `now` creates.
pub open spec fn row_for(s: JobSchedule, now: i64) -> QueueRow {
    QueueRow {
        job_type: s.job_type,
        job_data: s.job_data,
        schedule_id: Some(s.id),
        priority: s.job_type.spec_priority(),
        status: QueueStatus::Pending,
        created_at: now,
    }
}

/// One step of a schedule between two observations: it keeps its identity and
/// interval, and either keeps its time and count or moves on by exactly one
/// occurrence.
pub open spec fn recurrence_step(a: JobSchedule, b: JobSchedule) -> bool {
    &&& b.id == a.id
    &&& b.job_type == a.job_type
    &&& b.repeat_interval == a.repeat_interval
    &&& ((b.run_at == a.run_at && b.remaining == a.remaining) || (a.remaining > 0 && b.remaining
        == a.remaining - 1 && b.run_at == a.run_at + a.step_seconds()))
}

/// Every existing schedule and row either keeps its status or takes one step
/// of its lifecycle, and rows that appear start `pending`.
pub open spec fn lifecycle_kept(a: Board, b: Board) -> bool {
    &&& b.schedules@.len() == a.schedules@.len()
    &&& forall|k: int|
        0 <= k < a.schedules@.len() ==> (#[trigger] a.schedules@[k]).status.may_become(
            b.schedules@[k].status,
        )
    &&& b.queue@.len() >= a.queue@.len()
    &&& forall|k: int|
        0 <= k < a.queue@.len() ==> (#[trigger] a.queue@[k]).status.may_become(b.queue@[k].status)
    &&& forall|k: int| a.queue@.len() <= k < b.queue@.len() ==> (#[trigger] b.queue@[k]).status
        is Pending
}

/// Every schedule takes at most one recurrence step.
pub open spec fn recurrence_kept(a: Board, b: Board) -> bool {
    &&& b.schedules@.len() == a.schedules@.len()
    &&& forall|k: int|
        0 <= k < a.schedules@.len() ==> recurrence_step(
            #[trigger] a.schedules@[k],
            b.schedules@[k],
        )
}

impl Board {
    /// Schedule `k` would get a queue row from the promoter at time `now`.
    pub open spec fn promotable(&self, k: int, now: int) -> bool {
        let s = self.schedules@[k];
        &&& s.is_due(now)
        &&& (s.status is Scheduled || s.status is Pending)
        &&& !has_open_row(self.queue@, s.id)
        &&& s.job_type != JobType::SendInvoice
    }

    /// Schedule `k` is an invoice job that the promoter hands out for
    /// preparation at time `now`.
    pub open spec fn awaits_preparation(&self, k: int, now: int) -> bool {
        let s = self.schedules@[k];
        &&& s.is_due(now)
        &&& (s.status is Scheduled || s.status is Pending)
        &&& !has_open_row(self.queue@, s.id)
        &&& s.job_type == JobType::SendInvoice
    }

    /// No schedule is left that the promoter would queue at time `now`.
    pub open spec fn settled(&self, now: int) -> bool {
        forall|k: int| 0 <= k < self.schedules@.len() ==> !#[trigger] self.promotable(k, now)
    }

    /// Promotes schedule `k` at time `now` (one step of the promoter's tick).
    pub fn promote_at(&mut self, k: usize, now: i64) -> (r: PromoteStep)
        requires
            old(self).wf(),
            k < old(self).schedules@.len(),
        ensures
            final(self).wf(),
            lifecycle_kept(*old(self), *final(self)),
            recurrence_kept(*old(self), *final(self)),
            final(self).queue@.subrange(0, old(self).queue@.len() as int) == old(self).queue@,
            (final(self).schedules@, final(self).queue@) == promote_one(
                old(self).schedules@,
                old(self).queue@,
                k as int,
                now,
            ),
            (r == PromoteStep::NotDue) <==> !old(self).schedules@[k as int].is_due(now as int),
            (r == PromoteStep::Skipped) <==> (old(self).schedules@[k as int].is_due(now as int) && (
            has_open_row(old(self).queue@, old(self).schedules@[k as int].id) || old(
                self,
            ).schedules@[k as int].status is InProgress)),
            (r == PromoteStep::NeedsPreparation) <==> old(self).awaits_preparation(k as int, now as int),
            (r == PromoteStep::Enqueued) <==> old(self).promotable(k as int, now as int),
            r == PromoteStep::NotDue || r == PromoteStep::Skipped ==> *final(self) == *old(self),
            r == PromoteStep::NeedsPreparation ==> final(self).queue@ == old(self).queue@
                && final(self).schedules@ == old(self).schedules@.update(
                k as int,
                with_status(old(self).schedules@[k as int], ScheduleStatus::Pending),
            ),
            r == PromoteStep::Enqueued ==> final(self).queue@ == old(self).queue@.push(
                row_for(old(self).schedules@[k as int], now),
            ) && final(self).schedules@ == old(self).schedules@.update(
                k as int,
                with_status(old(self).schedules@[k as int], ScheduleStatus::Pending),
            ),
    {
        let ghost before = *self;
        let sched = &self.schedules[k];
        let due = match sched.status {
            ScheduleStatus::Scheduled => sched.run_at <= now,
            ScheduleStatus::Pending => sched.run_at <= now,
            ScheduleStatus::InProgress => sched.run_at <= now,
            _ => false,
        };
        if !due {
            return PromoteStep::NotDue;
        }
        let sid = sched.id;
        if sched.status == ScheduleStatus::InProgress || self.has_open(sid) {
            return PromoteStep::Skipped;
        }
        let job_type = sched.job_type;
        let data = match &sched.job_data {
            Some(d) => Some(d.duplicate()),
            None => None,
        };
        self.schedules[k].status = ScheduleStatus::Pending;
        assert(self.schedules@ =~= before.schedules@.update(
            k as int,
            with_status(before.schedules@[k as int], ScheduleStatus::Pending),
        ));
        if job_type == JobType::SendInvoice {
            return PromoteStep::NeedsPreparation;
        }
        let row = QueueRow {
            job_type,
            job_data: data,
            schedule_id: Some(sid),
            priority: job_type.priority(),
            status: QueueStatus::Pending,
            created_at: now,
        };
        self.queue.push(row);
        assert(self.queue@.subrange(0, before.queue@.len() as int) =~= before.queue@);
        assert(one_open_row_each(self.queue@)) by {
            let q = self.queue@;
            assert forall|i: int, j: int|
                0 <= i < q.len() && 0 <= j < q.len() && i != j && (#[trigger] q[i]).status.is_open()
                    && (#[trigger] q[j]).status.is_open() && q[i].schedule_id is Some
                implies q[i].schedule_id != q[j].schedule_id by {
                let n = before.queue@.len() as int;
                if i == n {
                    assert(!open_for(before.queue@[j], sid));
                } else if j == n {
                    assert(!open_for(before.queue@[i], sid));
                } else {
                    assert(q[i] == before.queue@[i] && q[j] == before.queue@[j]);
                }
            }
        }
        PromoteStep::Enqueued
    }
}

/// One step of the promoter on schedule `k`: a due schedule that is neither
/// in progress nor has an open row becomes `pending`, and unless it is an
/// invoice job (which waits for preparation) it gets a new queue row.
pub open spec fn promote_one(s: Seq<JobSchedule>, q: Seq<QueueRow>, k: int, now: i64) -> (
    Seq<JobSchedule>,
    Seq<QueueRow>,
) {
    let x = s[k];
    if !x.is_due(now as int) || has_open_row(q, x.id) || x.status is InProgress {
        (s, q)
    } else if x.job_type == JobType::SendInvoice {
        (s.update(k, with_status(x, ScheduleStatus::Pending)), q)
    } else {
        (s.update(k, with_status(x, ScheduleStatus::Pending)), q.push(row_for(x, now)))
    }
}

/// The promoter's steps on the first `k` schedules, in order.
pub open spec fn promote_through(s: Seq<JobSchedule>, q: Seq<QueueRow>, now: i64, k: nat) -> (
    Seq<JobSchedule>,
    Seq<QueueRow>,
)
    decreases k,
{
    if k == 0 {
        (s, q)
    } else {
        let p = promote_through(s, q, now, (k - 1) as nat);
        promote_one(p.0, p.1, k - 1, now)
    }
}

/// What one pass of the promoter at time `now` guarantees: the board stays
/// well formed, nothing steps outside its lifecycle, existing rows are kept,
/// afterwards no schedule is left to queue, and a pass over a board with none
/// to queue adds no row.
pub open spec fn promoted(a: Board, now: int, b: Board) -> bool {
    &&& b.wf()
    &&& lifecycle_kept(a, b)
    &&& recurrence_kept(a, b)
    &&& b.queue@.subrange(0, a.queue@.len() as int) == a.queue@
    &&& b.settled(now)
    &&& (a.settled(now) ==> b.queue@ == a.queue@)
}

/// Running the promoter twice in a row, with no new schedules in between,
/// adds no queue rows the second time.
pub proof fn lemma_promote_twice(a: Board, b: Board, c: Board, now: int)
    requires
        promoted(a, now, b),
        promoted(b, now, c),
    ensures
        c.queue@ == b.queue@,
{
}

impl Board {
    /// One tick of the promoter at time `now`: promotes every schedule in
    /// order and returns the indices of the invoice schedules that now await
    /// preparation.
    pub fn promote_due(&mut self, now: i64) -> (r: Vec<usize>)
        requires
            old(self).wf(),
        ensures
            promoted(*old(self), now as int, *final(self)),
            (final(self).schedules@, final(self).queue@) == promote_through(
                old(self).schedules@,
                old(self).queue@,
                now,
                old(self).schedules@.len() as nat,
            ),
            forall|j: int|
                0 <= j < r@.len() ==> {
                    &&& (#[trigger] r@[j]) < final(self).schedules@.len()
                    &&& final(self).schedules@[r@[j] as int].status is Pending
                    &&& final(self).schedules@[r@[j] as int].job_type == JobType::SendInvoice
                },
    {
        let ghost before = *self;
        let mut waiting: Vec<usize> = Vec::new();
        let mut i: usize = 0;
        assert(self.queue@.subrange(0, before.queue@.len() as int) =~= before.queue@);
        while i < self.schedules.len()
            invariant
                self.wf(),
                i <= self.schedules@.len(),
                lifecycle_kept(before, *self),
                recurrence_kept(before, *self),
                self.queue@.subrange(0, before.queue@.len() as int) == before.queue@,
                forall|k: int| i <= k < self.schedules@.len() ==> self.schedules@[k] == before.schedules@[k],
                forall|k: int| 0 <= k < i ==> !#[trigger] self.promotable(k, now as int),
                before.settled(now as int) ==> self.queue@ == before.queue@,
                (self.schedules@, self.queue@) == promote_through(
                    before.schedules@,
                    before.queue@,
                    now,
                    i as nat,
                ),
                forall|j: int|
                    0 <= j < waiting@.len() ==> {
                        &&& (#[trigger] waiting@[j]) < i
                        &&& self.schedules@[waiting@[j] as int].status is Pending
                        &&& self.schedules@[waiting@[j] as int].job_type == JobType::SendInvoice
                    },
            decreases self.schedules@.len() - i,
        {
            let ghost prev = *self;
            assert(before.settled(now as int) ==> !before.promotable(i as int, now as int));
            let step = self.promote_at(i, now);
            assert forall|k: int| 0 <= k < i + 1 implies !#[trigger] self.promotable(k, now as int) by {
                if k < i {
                    assert(!prev.promotable(k, now as int));
                    assert(self.schedules@[k] == prev.schedules@[k]);
                    if has_open_row(prev.queue@, prev.schedules@[k].id) {
                        let j = choose|j: int|
                            0 <= j < prev.queue@.len() && open_for(#[trigger] prev.queue@[j], prev.schedules@[k].id);
                        assert(self.queue@[j] == prev.queue@[j]);
                    }
                } else {
                    if step == PromoteStep::Enqueued {
                        let n = prev.queue@.len() as int;
                        assert(open_for(self.queue@[n], self.schedules@[k].id));
                    } else if step == PromoteStep::Skipped {
                        if has_open_row(prev.queue@, prev.schedules@[k].id) {
                            let j = choose|j: int|
                                0 <= j < prev.queue@.len() && open_for(#[trigger] prev.queue@[j], prev.schedules@[k].id);
                            assert(self.queue@[j] == prev.queue@[j]);
                        }
                    }
                }
            }
            assert forall|k: int| 0 <= k < before.schedules@.len() implies (#[trigger] before.schedules@[k]).status.may_become(
                self.schedules@[k].status,
            ) by {
                if k != i {
                    assert(self.schedules@[k] == prev.schedules@[k]);
                }
            }
            assert forall|k: int| 0 <= k < before.queue@.len() implies (#[trigger] before.queue@[k]).status.may_become(
                self.queue@[k].status,
            ) by {
                assert(prev.queue@.subrange(0, before.queue@.len() as int)[k] == before.queue@[k]);
                assert(self.queue@.subrange(0, prev.queue@.len() as int)[k] == prev.queue@[k]);
            }
            assert forall|k: int| before.queue@.len() <= k < self.queue@.len() implies (#[trigger] self.queue@[k]).status
                is Pending by {
                if k < prev.queue@.len() {
                    assert(self.queue@.subrange(0, prev.queue@.len() as int)[k] == prev.queue@[k]);
                }
            }
            assert forall|k: int| 0 <= k < before.schedules@.len() implies recurrence_step(
                #[trigger] before.schedules@[k],
                self.schedules@[k],
            ) by {
                if k != i {
                    assert(self.schedules@[k] == prev.schedules@[k]);
                }
            }
            assert(self.queue@.subrange(0, before.queue@.len() as int) =~= before.queue@) by {
                assert forall|k: int| 0 <= k < before.queue@.len() implies self.queue@[k] == before.queue@[k] by {
                    assert(prev.queue@.subrange(0, before.queue@.len() as int)[k] == before.queue@[k]);
                    assert(self.queue@.subrange(0, prev.queue@.len() as int)[k] == prev.queue@[k]);
                }
            }
            if step == PromoteStep::NeedsPreparation {
                waiting.push(i);
            }
            i = i + 1;
        }
        waiting
    }

    /// Queues an invoice schedule once its invoice has been prepared, with the
    /// patched payload. Does nothing unless schedule `k` is a `pending`
    /// invoice job without an open row.
    pub fn enqueue_prepared(&mut self, k: usize, data: JobData, now: i64) -> (r: bool)
        requires
            old(self).wf(),
            k < old(self).schedules@.len(),
        ensures
            final(self).wf(),
            lifecycle_kept(*old(self), *final(self)),
            recurrence_kept(*old(self), *final(self)),
            r == (old(self).schedules@[k as int].status is Pending
                && old(self).schedules@[k as int].job_type == JobType::SendInvoice
                && !has_open_row(old(self).queue@, old(self).schedules@[k as int].id)),
            !r ==> *final(self) == *old(self),
            r ==> final(self).schedules@ == old(self).schedules@.update(
                k as int,
                (JobSchedule { job_data: Some(data), ..old(self).schedules@[k as int] }),
            ),
            r ==> final(self).queue@ == old(self).queue@.push(
                row_for(final(self).schedules@[k as int], now),
            ),
    {
        let ghost before = *self;
        let sched = &self.schedules[k];
        let sid = sched.id;
        if !(sched.status == ScheduleStatus::Pending && sched.job_type == JobType::SendInvoice) {
            return false;
        }
        if self.has_open(sid) {
            return false;
        }
        let row_data = data.duplicate();
        self.schedules[k].job_data = Some(data);
        let row = QueueRow {
            job_type: JobType::SendInvoice,
            job_data: Some(row_data),
            schedule_id: Some(sid),
            priority: 0,
            status: QueueStatus::Pending,
            created_at: now,
        };
        self.queue.push(row);
        assert(self.schedules@ =~= before.schedules@.update(
            k as int,
            (JobSchedule { job_data: Some(data), ..before.schedules@[k as int] }),
        ));
        assert forall|j: int| 0 <= j < self.schedules@.len() implies (#[trigger] self.schedules@[j]).wf() by {
            assert(before.schedules@[j].wf());
        }
        assert(one_open_row_each(self.queue@)) by {
            let q = self.queue@;
            assert forall|i: int, j: int|
                0 <= i < q.len() && 0 <= j < q.len() && i != j && (#[trigger] q[i]).status.is_open()
                    && (#[trigger] q[j]).status.is_open() && q[i].schedule_id is Some
                implies q[i].schedule_id != q[j].schedule_id by {
                let n = before.queue@.len() as int;
                if i == n {
                    assert(!open_for(before.queue@[j], sid));
                } else if j == n {
                    assert(!open_for(before.queue@[i], sid));
                } else {
                    assert(q[i] == before.queue@[i] && q[j] == before.queue@[j]);
                }
            }
        }
        true
    }
}

/// Rows the dispatcher may claim: `pending`, `failed` or `in_progress`.
pub open spec fn claimable(r: QueueRow) -> bool {
    r.status is Pending || r.status is Failed || r.status is InProgress
}

/// `a` runs no later than `b`: lower priority first, then older first.
pub open spec fn runs_first(a: QueueRow, b: QueueRow) -> bool {
    a.priority < b.priority || (a.priority == b.priority && a.created_at <= b.created_at)
}

/// `a` runs strictly before `b`.
pub open spec fn runs_strictly_first(a: QueueRow, b: QueueRow) -> bool {
    a.priority < b.priority || (a.priority == b.priority && a.created_at < b.created_at)
}

/// A schedule as the dispatcher leaves it when it claims a row of it: in
/// progress, its time and count untouched until the outcome is known.
pub open spec fn claimed(s: JobSchedule) -> JobSchedule {
    JobSchedule { status: ScheduleStatus::InProgress, ..s }
}

/// A schedule after a successful dispatch: when it repeats and occurrences
/// remain, scheduled again one interval later with one occurrence fewer;
/// otherwise completed.
pub open spec fn delivered(s: JobSchedule) -> JobSchedule {
    if s.repeat_interval is Some && s.remaining > 0 {
        JobSchedule {
            status: ScheduleStatus::Scheduled,
            run_at: (s.run_at + s.step_seconds()) as i64,
            remaining: (s.remaining - 1) as i64,
            ..s
        }
    } else {
        JobSchedule { status: ScheduleStatus::Completed, ..s }
    }
}

/// A delivered dispatch moves schedule `sk` on: the dispatch succeeded and
/// the schedule is in progress.
pub open spec fn closes_schedule(b: Board, sk: Option<usize>, ok: bool) -> bool {
    &&& ok
    &&& sk is Some
    &&& sk.unwrap() < b.schedules@.len()
    &&& b.schedules@[sk.unwrap() as int].status is InProgress
}

/// The same row with another status.
pub open spec fn row_with_status(r: QueueRow, st: QueueStatus) -> QueueRow {
    QueueRow { status: st, ..r }
}

/// Index of the first schedule with id `sid`, if any.
pub open spec fn first_with_id(s: Seq<JobSchedule>, sid: u64) -> Option<int>
    decreases s.len(),
{
    if s.len() == 0 {
        None
    } else if s[0].id == sid {
        Some(0)
    } else {
        match first_with_id(s.drop_first(), sid) {
            Some(k) => Some(k + 1),
            None => None,
        }
    }
}

/// What a schedule and a row have in common when a job is canceled: the
/// invoice and the user who created the job.
pub open spec fn bound_to(d: Option<JobData>, inv: Seq<char>, user: Seq<char>) -> bool {
    data_invoice(d) == Some(inv) && data_creator(d) == Some(user)
}

/// A schedule, observed twice, has kept its identity and interval, has not
/// gained occurrences and has not moved back in time.
pub open spec fn no_regress(a: JobSchedule, b: JobSchedule) -> bool {
    &&& b.id == a.id
    &&& b.repeat_interval == a.repeat_interval
    &&& b.remaining <= a.remaining
    &&& b.run_at >= a.run_at
}

/// One recurrence step never increases `remaining` and never moves `run_at`
/// back.
pub proof fn lemma_recurrence_monotone(a: JobSchedule, b: JobSchedule)
    requires
        a.wf(),
        recurrence_step(a, b),
    ensures
        no_regress(a, b),
{
}

/// Observations compose: what holds from a first to a second observation
/// and from the second to a third holds from the first to the third.
pub proof fn lemma_no_regress_chain(a: JobSchedule, b: JobSchedule, c: JobSchedule)
    requires
        no_regress(a, b),
        no_regress(b, c),
    ensures
        no_regress(a, c),
{
}

/// Completed and canceled schedules and rows never change status again.
pub proof fn lemma_terminal_stays(a: Board, b: Board)
    requires
        lifecycle_kept(a, b),
    ensures
        forall|k: int|
            0 <= k < a.schedules@.len() && (#[trigger] a.schedules@[k]).status.is_terminal()
                ==> b.schedules@[k].status == a.schedules@[k].status,
        forall|k: int|
            0 <= k < a.queue@.len() && (#[trigger] a.queue@[k]).status.is_terminal()
                ==> b.queue@[k].status == a.queue@[k].status,
{
    assert forall|k: int|
        0 <= k < a.schedules@.len() && (#[trigger] a.schedules@[k]).status.is_terminal()
        implies b.schedules@[k].status == a.schedules@[k].status by {
        assert(a.schedules@[k].status.may_become(b.schedules@[k].status));
    }
    assert forall|k: int|
        0 <= k < a.queue@.len() && (#[trigger] a.queue@[k]).status.is_terminal()
        implies b.queue@[k].status == a.queue@[k].status by {
        assert(a.queue@[k].status.may_become(b.queue@[k].status));
    }
}

/// Changing the status of row `i` from one open status to another status
/// keeps at most one open row per schedule.
proof fn lemma_row_status_change(q: Seq<QueueRow>, i: int, st: QueueStatus)
    requires
        one_open_row_each(q),
        0 <= i < q.len(),
        q[i].status.is_open(),
    ensures
        one_open_row_each(q.update(i, row_with_status(q[i], st))),
{
    let p = q.update(i, row_with_status(q[i], st));
    assert forall|a: int, b: int|
        0 <= a < p.len() && 0 <= b < p.len() && a != b && (#[trigger] p[a]).status.is_open()
            && (#[trigger] p[b]).status.is_open() && p[a].schedule_id is Some
        implies p[a].schedule_id != p[b].schedule_id by {
        assert(q[a].status.is_open() && q[b].status.is_open());
        assert(p[a].schedule_id == q[a].schedule_id && p[b].schedule_id == q[b].schedule_id);
    }
}

impl Board {
    /// The row the dispatcher takes next: the first of those with the lowest
    /// priority and, among them, the oldest.
    pub fn claim_top(&self) -> (r: Option<usize>)
        ensures
            r matches Some(i) ==> {
                &&& i < self.queue@.len()
                &&& claimable(self.queue@[i as int])
                &&& forall|j: int|
                    0 <= j < self.queue@.len() && claimable(#[trigger] self.queue@[j]) ==> runs_first(
                        self.queue@[i as int],
                        self.queue@[j],
                    )
                &&& forall|j: int|
                    0 <= j < i && claimable(#[trigger] self.queue@[j]) ==> runs_strictly_first(
                        self.queue@[i as int],
                        self.queue@[j],
                    )
            },
            r is None ==> forall|j: int| 0 <= j < self.queue@.len() ==> !claimable(#[trigger] self.queue@[j]),
    {
        let mut best: Option<usize> = None;
        let mut i: usize = 0;
        while i < self.queue.len()
            invariant
                i <= self.queue@.len(),
                best matches Some(b) ==> b < i && claimable(self.queue@[b as int]) && forall|j: int|
                    0 <= j < i && claimable(#[trigger] self.queue@[j]) ==> runs_first(
                        self.queue@[b as int],
                        self.queue@[j],
                    ) && forall|j: int|
                    0 <= j < b && claimable(#[trigger] self.queue@[j]) ==> runs_strictly_first(
                        self.queue@[b as int],
                        self.queue@[j],
                    ),
                best is None ==> forall|j: int| 0 <= j < i ==> !claimable(#[trigger] self.queue@[j]),
            decreases self.queue@.len() - i,
        {
            let row = &self.queue[i];
            let ok = match row.status {
                QueueStatus::Pending => true,
                QueueStatus::Failed => true,
                QueueStatus::InProgress => true,
                _ => false,
            };
            if ok {
                match best {
                    None => {
                        best = Some(i);
                    },
                    Some(b) => {
                        let cur = &self.queue[b];
                        if row.priority < cur.priority || (row.priority == cur.priority
                            && row.created_at < cur.created_at) {
                            best = Some(i);
                        }
                    },
                }
            }
            i = i + 1;
        }
        best
    }
}

impl Board {
    /// Index of the first schedule with id `sid`.
    pub fn find_schedule(&self, sid: u64) -> (r: Option<usize>)
        ensures
            r matches Some(k) ==> first_with_id(self.schedules@, sid) == Some(k as int) && k
                < self.schedules@.len() && self.schedules@[k as int].id == sid,
            r is None ==> first_with_id(self.schedules@, sid) is None,
    {
        let mut i: usize = 0;
        while i < self.schedules.len()
            invariant
                i <= self.schedules@.len(),
                forall|k: int| 0 <= k < i ==> (#[trigger] self.schedules@[k]).id != sid,
            decreases self.schedules@.len() - i,
        {
            if self.schedules[i].id == sid {
                proof {
                    lemma_first_with_id(self.schedules@, sid, i as int);
                }
                return Some(i);
            }
            i = i + 1;
        }
        proof {
            lemma_no_id(self.schedules@, sid);
        }
        None
    }

    /// The dispatcher claims row `qi`: the row goes `in_progress`. The first
    /// schedule with the row's schedule id goes `in_progress` when `pending`,
    /// and is left as it is when already `in_progress` (a failed row claimed
    /// again). Returns that schedule's index.
    pub fn begin_dispatch(&mut self, qi: usize) -> (r: Option<usize>)
        requires
            old(self).wf(),
            qi < old(self).queue@.len(),
            claimable(old(self).queue@[qi as int]),
        ensures
            final(self).wf(),
            lifecycle_kept(*old(self), *final(self)),
            recurrence_kept(*old(self), *final(self)),
            final(self).queue@ == old(self).queue@.update(
                qi as int,
                row_with_status(old(self).queue@[qi as int], QueueStatus::InProgress),
            ),
            r matches Some(k) ==> {
                &&& k < old(self).schedules@.len()
                &&& old(self).queue@[qi as int].schedule_id matches Some(sid)
                &&& first_with_id(old(self).schedules@, sid) == Some(k as int)
                &&& (old(self).schedules@[k as int].status is Pending
                    || old(self).schedules@[k as int].status is InProgress)
                &&& old(self).schedules@[k as int].status is Pending ==> final(self).schedules@
                    == old(self).schedules@.update(k as int, claimed(old(self).schedules@[k as int]))
                &&& old(self).schedules@[k as int].status is InProgress ==> final(self).schedules@
                    == old(self).schedules@
            },
            r is None ==> final(self).schedules@ == old(self).schedules@,
            r is None ==> !(old(self).queue@[qi as int].schedule_id matches Some(sid)
                && first_with_id(old(self).schedules@, sid) matches Some(k)
                && (old(self).schedules@[k].status is Pending
                || old(self).schedules@[k].status is InProgress)),
    {
        let ghost before = *self;
        self.queue[qi].status = QueueStatus::InProgress;
        proof {
            lemma_row_status_change(before.queue@, qi as int, QueueStatus::InProgress);
            assert(self.queue@ =~= before.queue@.update(
                qi as int,
                row_with_status(before.queue@[qi as int], QueueStatus::InProgress),
            ));
        }
        let sid = match self.queue[qi].schedule_id {
            Some(sid) => sid,
            None => {
                return None;
            },
        };
        let k = match self.find_schedule(sid) {
            Some(k) => k,
            None => {
                return None;
            },
        };
        let st = self.schedules[k].status;
        if st == ScheduleStatus::InProgress {
            return Some(k);
        }
        if st != ScheduleStatus::Pending {
            return None;
        }
        let ghost s0 = self.schedules@[k as int];
        self.schedules[k].status = ScheduleStatus::InProgress;
        assert(self.schedules@ =~= before.schedules@.update(k as int, claimed(s0)));
        assert forall|j: int| 0 <= j < self.schedules@.len() implies (#[trigger] self.schedules@[j]).wf() by {
            assert(before.schedules@[j].wf());
        }
        Some(k)
    }

    /// Records the outcome of the dispatch of row `qi`, whose schedule (if
    /// any) is at index `sk`. On delivery the row is completed and an
    /// in-progress schedule takes its recurrence step (see `delivered`); on
    /// failure the row is failed and the schedule is left as it is, for the
    /// row to be claimed again.
    pub fn finish_dispatch(&mut self, qi: usize, sk: Option<usize>, ok: bool)
        requires
            old(self).wf(),
            qi < old(self).queue@.len(),
            old(self).queue@[qi as int].status is InProgress,
            sk matches Some(k) ==> k < old(self).schedules@.len(),
        ensures
            final(self).wf(),
            lifecycle_kept(*old(self), *final(self)),
            recurrence_kept(*old(self), *final(self)),
            final(self).queue@ == old(self).queue@.update(
                qi as int,
                row_with_status(
                    old(self).queue@[qi as int],
                    if ok {
                        QueueStatus::Completed
                    } else {
                        QueueStatus::Failed
                    },
                ),
            ),
            closes_schedule(*old(self), sk, ok) ==> final(self).schedules@ == old(
                self,
            ).schedules@.update(sk.unwrap() as int, delivered(old(self).schedules@[sk.unwrap() as int])),
            !closes_schedule(*old(self), sk, ok) ==> final(self).schedules@ == old(self).schedules@,
    {
        let ghost before = *self;
        let st = if ok {
            QueueStatus::Completed
        } else {
            QueueStatus::Failed
        };
        self.queue[qi].status = st;
        proof {
            lemma_row_status_change(before.queue@, qi as int, st);
            assert(self.queue@ =~= before.queue@.update(
                qi as int,
                row_with_status(before.queue@[qi as int], st),
            ));
        }
        if ok {
            if let Some(k) = sk {
                if self.schedules[k].status == ScheduleStatus::InProgress {
                    let ghost s0 = self.schedules@[k as int];
                    assert(s0.wf());
                    match self.schedules[k].repeat_interval {
                        Some(iv) => {
                            if self.schedules[k].remaining > 0 {
                                assert(s0.run_at + s0.step_seconds() <= i64::MAX) by (nonlinear_arith)
                                    requires
                                        s0.run_at + s0.step_seconds() * s0.remaining <= i64::MAX,
                                        s0.remaining >= 1,
                                        s0.step_seconds() >= 0,
                                ;
                                self.schedules[k].run_at = self.schedules[k].run_at + iv;
                                self.schedules[k].remaining = self.schedules[k].remaining - 1;
                                self.schedules[k].status = ScheduleStatus::Scheduled;
                                assert(delivered(s0).wf()) by {
                                    let c = delivered(s0);
                                    assert(c.run_at + c.step_seconds() * c.remaining == s0.run_at
                                        + s0.step_seconds() * s0.remaining) by (nonlinear_arith)
                                        requires
                                            c.run_at == s0.run_at + s0.step_seconds(),
                                            c.remaining == s0.remaining - 1,
                                            c.step_seconds() == s0.step_seconds(),
                                    ;
                                }
                            } else {
                                self.schedules[k].status = ScheduleStatus::Completed;
                            }
                        },
                        None => {
                            self.schedules[k].status = ScheduleStatus::Completed;
                        },
                    }
                    assert(self.schedules@ =~= before.schedules@.update(
                        k as int,
                        delivered(before.schedules@[k as int]),
                    ));
                    assert forall|j: int| 0 <= j < self.schedules@.len() implies (#[trigger] self.schedules@[j]).wf() by {
                        assert(before.schedules@[j].wf());
                    }
                }
            }
        }
    }

    /// Cancels the jobs of an invoice created by `user_id`: every schedule
    /// and every open row bound to both that is not already completed or
    /// canceled. Returns how many schedules were canceled.
    pub fn cancel_invoice(&mut self, invoice_id: &str, user_id: &str) -> (r: usize)
        requires
            old(self).wf(),
        ensures
            final(self).wf(),
            lifecycle_kept(*old(self), *final(self)),
            recurrence_kept(*old(self), *final(self)),
            final(self).queue@.len() == old(self).queue@.len(),
            forall|k: int|
                0 <= k < old(self).schedules@.len() ==> (#[trigger] final(self).schedules@[k]) == if bound_to(
                    old(self).schedules@[k].job_data,
                    invoice_id@,
                    user_id@,
                ) && !old(self).schedules@[k].status.is_terminal() {
                    with_status(old(self).schedules@[k], ScheduleStatus::Canceled)
                } else {
                    old(self).schedules@[k]
                },
            forall|k: int|
                0 <= k < old(self).queue@.len() ==> (#[trigger] final(self).queue@[k]) == if bound_to(
                    old(self).queue@[k].job_data,
                    invoice_id@,
                    user_id@,
                ) && old(self).queue@[k].status.is_open() {
                    row_with_status(old(self).queue@[k], QueueStatus::Canceled)
                } else {
                    old(self).queue@[k]
                },
    {
        let ghost before = *self;
        let mut n: usize = 0;
        let mut i: usize = 0;
        while i < self.schedules.len()
            invariant
                self.wf(),
                self.queue@ == before.queue@,
                self.schedules@.len() == before.schedules@.len(),
                i <= self.schedules@.len(),
                n <= i,
                forall|k: int| i <= k < self.schedules@.len() ==> self.schedules@[k] == before.schedules@[k],
                forall|k: int|
                    0 <= k < i ==> (#[trigger] self.schedules@[k]) == if bound_to(
                        before.schedules@[k].job_data,
                        invoice_id@,
                        user_id@,
                    ) && !before.schedules@[k].status.is_terminal() {
                        with_status(before.schedules@[k], ScheduleStatus::Canceled)
                    } else {
                        before.schedules@[k]
                    },
            decreases self.schedules@.len() - i,
        {
            let st = self.schedules[i].status;
            let live = !(st == ScheduleStatus::Completed || st == ScheduleStatus::Canceled);
            if live && invoice_matches(&self.schedules[i].job_data, invoice_id) && creator_matches(
                &self.schedules[i].job_data,
                user_id,
            ) {
                let ghost prev = self.schedules@;
                self.schedules[i].status = ScheduleStatus::Canceled;
                n = n + 1;
                assert forall|j: int| 0 <= j < self.schedules@.len() implies (#[trigger] self.schedules@[j]).wf() by {
                    assert(prev[j].wf());
                }
            }
            i = i + 1;
        }
        let mut q: usize = 0;
        while q < self.queue.len()
            invariant
                self.wf(),
                self.queue@.len() == before.queue@.len(),
                forall|k: int| 0 <= k < self.schedules@.len() ==> self.schedules@[k] == if bound_to(
                    before.schedules@[k].job_data,
                    invoice_id@,
                    user_id@,
                ) && !before.schedules@[k].status.is_terminal() {
                    with_status(before.schedules@[k], ScheduleStatus::Canceled)
                } else {
                    before.schedules@[k]
                },
                self.schedules@.len() == before.schedules@.len(),
                q <= self.queue@.len(),
                forall|k: int| q <= k < self.queue@.len() ==> self.queue@[k] == before.queue@[k],
                forall|k: int|
                    0 <= k < q ==> (#[trigger] self.queue@[k]) == if bound_to(
                        before.queue@[k].job_data,
                        invoice_id@,
                        user_id@,
                    ) && before.queue@[k].status.is_open() {
                        row_with_status(before.queue@[k], QueueStatus::Canceled)
                    } else {
                        before.queue@[k]
                    },
            decreases self.queue@.len() - q,
        {
            if self.queue[q].status.open() && invoice_matches(&self.queue[q].job_data, invoice_id)
                && creator_matches(&self.queue[q].job_data, user_id) {
                let ghost prev = self.queue@;
                self.queue[q].status = QueueStatus::Canceled;
                proof {
                    lemma_row_status_change(prev, q as int, QueueStatus::Canceled);
                    assert(self.queue@ =~= prev.update(
                        q as int,
                        row_with_status(prev[q as int], QueueStatus::Canceled),
                    ));
                }
            }
            q = q + 1;
        }
        n
    }
}

impl Board {
    /// Sets the status of schedule `k` when the lifecycle allows that step;
    /// otherwise leaves the board as it is. A completed or canceled schedule
    /// refuses every move, to its own status too. Returns whether it was
    /// allowed.
    pub fn transition_schedule(&mut self, k: usize, to: ScheduleStatus) -> (r: bool)
        requires
            old(self).wf(),
            k < old(self).schedules@.len(),
        ensures
            final(self).wf(),
            lifecycle_kept(*old(self), *final(self)),
            recurrence_kept(*old(self), *final(self)),
            final(self).queue@ == old(self).queue@,
            r == (!old(self).schedules@[k as int].status.is_terminal() && old(
                self,
            ).schedules@[k as int].status.may_become(to)),
            r ==> final(self).schedules@ == old(self).schedules@.update(
                k as int,
                with_status(old(self).schedules@[k as int], to),
            ),
            !r ==> final(self).schedules@ == old(self).schedules@,
    {
        let ghost before = *self;
        let from = self.schedules[k].status;
        if from == ScheduleStatus::Completed || from == ScheduleStatus::Canceled || !from.can_become(
            to,
        ) {
            return false;
        }
        self.schedules[k].status = to;
        assert(self.schedules@ =~= before.schedules@.update(
            k as int,
            with_status(before.schedules@[k as int], to),
        ));
        assert forall|j: int| 0 <= j < self.schedules@.len() implies (#[trigger] self.schedules@[j]).wf() by {
            assert(before.schedules@[j].wf());
        }
        true
    }

    /// Sets the status of row `qi` when the lifecycle allows that step;
    /// otherwise leaves the board as it is. A completed or canceled row
    /// refuses every move, to its own status too. Returns whether it was
    /// allowed.
    pub fn transition_row(&mut self, qi: usize, to: QueueStatus) -> (r: bool)
        requires
            old(self).wf(),
            qi < old(self).queue@.len(),
        ensures
            final(self).wf(),
            lifecycle_kept(*old(self), *final(self)),
            recurrence_kept(*old(self), *final(self)),
            final(self).schedules@ == old(self).schedules@,
            r == (!old(self).queue@[qi as int].status.is_terminal() && old(
                self,
            ).queue@[qi as int].status.may_become(to)),
            r ==> final(self).queue@ == old(self).queue@.update(
                qi as int,
                row_with_status(old(self).queue@[qi as int], to),
            ),
            !r ==> final(self).queue@ == old(self).queue@,
    {
        let ghost before = *self;
        let from = self.queue[qi].status;
        let allowed = match (from, to) {
            (QueueStatus::Pending, QueueStatus::Pending) => true,
            (QueueStatus::InProgress, QueueStatus::InProgress) => true,
            (QueueStatus::Failed, QueueStatus::Failed) => true,
            (QueueStatus::Pending, QueueStatus::InProgress) => true,
            (QueueStatus::Failed, QueueStatus::InProgress) => true,
            (QueueStatus::InProgress, QueueStatus::Completed) => true,
            (QueueStatus::InProgress, QueueStatus::Failed) => true,
            (QueueStatus::Completed, _) => false,
            (QueueStatus::Canceled, _) => false,
            (_, QueueStatus::Canceled) => true,
            _ => false,
        };
        if !allowed {
            return false;
        }
        if from == to {
            return true;
        }
        self.queue[qi].status = to;
        proof {
            lemma_row_status_change(before.queue@, qi as int, to);
            assert(self.queue@ =~= before.queue@.update(
                qi as int,
                row_with_status(before.queue@[qi as int], to),
            ));
        }
        true
    }
}

/// The first index with the id, when no earlier one has it.
proof fn lemma_first_with_id(s: Seq<JobSchedule>, sid: u64, i: int)
    requires
        0 <= i < s.len(),
        s[i].id == sid,
        forall|k: int| 0 <= k < i ==> (#[trigger] s[k]).id != sid,
    ensures
        first_with_id(s, sid) == Some(i),
    decreases i,
{
    if i > 0 {
        let t = s.drop_first();
        assert forall|k: int| 0 <= k < i - 1 implies (#[trigger] t[k]).id != sid by {
            assert(t[k] == s[k + 1]);
        }
        lemma_first_with_id(t, sid, i - 1);
    }
}

/// No index has the id.
proof fn lemma_no_id(s: Seq<JobSchedule>, sid: u64)
    requires
        forall|k: int| 0 <= k < s.len() ==> (#[trigger] s[k]).id != sid,
    ensures
        first_with_id(s, sid) is None,
    decreases s.len(),
{
    if s.len() > 0 {
        let t = s.drop_first();
        assert forall|k: int| 0 <= k < t.len() implies (#[trigger] t[k]).id != sid by {
            assert(t[k] == s[k + 1]);
        }
        lemma_no_id(t, sid);
    }
}

/// Rows `a` and `b` are two open rows of one schedule.
pub open spec fn clash(q: Seq<QueueRow>, a: int, b: int) -> bool {
    &&& a != b
    &&& q[a].status.is_open()
    &&& q[b].status.is_open()
    &&& q[a].schedule_id is Some
    &&& q[a].schedule_id == q[b].schedule_id
}

impl JobSchedule {
    /// Whether the schedule meets `wf`.
    pub fn check(&self) -> (r: bool)
        ensures
            r == self.wf(),
    {
        let step: i64 = match self.repeat_interval {
            Some(iv) => {
                if iv <= 0 {
                    return false;
                }
                iv
            },
            None => 0,
        };
        if self.remaining < 0 {
            return false;
        }
        let st = step as i128;
        let rem = self.remaining as i128;
        assert(0 <= st * rem <= 0x7fff_ffff_ffff_ffff_i128 * 0x7fff_ffff_ffff_ffff_i128) by (nonlinear_arith)
            requires
                0 <= st <= 0x7fff_ffff_ffff_ffff_i128,
                0 <= rem <= 0x7fff_ffff_ffff_ffff_i128,
        ;
        let last: i128 = self.run_at as i128 + st * rem;
        last <= i64::MAX as i128
    }
}

impl Board {
    /// A board over rows read back from storage, when they are well formed.
    pub fn from_rows(schedules: Vec<JobSchedule>, queue: Vec<QueueRow>) -> (r: Option<Board>)
        ensures
            r matches Some(b) ==> b.wf() && b.schedules@ == schedules@ && b.queue@ == queue@,
            r is None ==> !rows_wf(schedules@, queue@),
    {
        let mut i: usize = 0;
        while i < schedules.len()
            invariant
                i <= schedules@.len(),
                forall|k: int| 0 <= k < i ==> (#[trigger] schedules@[k]).wf(),
            decreases schedules@.len() - i,
        {
            if !schedules[i].check() {
                assert(!schedules@[i as int].wf());
                return None;
            }
            i = i + 1;
        }
        let mut a: usize = 0;
        while a < queue.len()
            invariant
                a <= queue@.len(),
                forall|x: int, y: int|
                    0 <= x < a && x < y < queue@.len() ==> !#[trigger] clash(queue@, x, y),
            decreases queue@.len() - a,
        {
            let mut b: usize = a + 1;
            while b < queue.len()
                invariant
                    a < queue@.len(),
                    a + 1 <= b <= queue@.len(),
                    forall|x: int, y: int|
                        0 <= x < a && x < y < queue@.len() ==> !#[trigger] clash(queue@, x, y),
                    forall|y: int| a < y < b ==> !#[trigger] clash(queue@, a as int, y),
                decreases queue@.len() - b,
            {
                let ra = &queue[a];
                let rb = &queue[b];
                if ra.status.open() && rb.status.open() && ra.schedule_id.is_some()
                    && ra.schedule_id == rb.schedule_id {
                    assert(clash(queue@, a as int, b as int));
                    assert(!one_open_row_each(queue@));
                    return None;
                }
                b = b + 1;
            }
            a = a + 1;
        }
        assert(one_open_row_each(queue@)) by {
            assert forall|x: int, y: int|
                0 <= x < queue@.len() && 0 <= y < queue@.len() && x != y
                    && (#[trigger] queue@[x]).status.is_open() && (#[trigger] queue@[y]).status.is_open()
                    && queue@[x].schedule_id is Some implies queue@[x].schedule_id != queue@[y].schedule_id by {
                if x < y {
                    assert(!clash(queue@, x, y));
                } else {
                    assert(!clash(queue@, y, x));
                }
            }
        }
        Some(Board { schedules, queue })
    }
}

/// A positive count of open rows has a witness row.
proof fn lemma_count_witness(q: Seq<QueueRow>, sid: u64)
    ensures
        open_count(q, sid) > 0 ==> has_open_row(q, sid),
    decreases q.len(),
{
    if q.len() > 0 {
        lemma_count_witness(q.drop_last(), sid);
        if open_for(q.last(), sid) {
            assert(open_for(q[q.len() - 1], sid));
        } else if open_count(q.drop_last(), sid) > 0 {
            let j = choose|j: int| 0 <= j < q.drop_last().len() && open_for(q.drop_last()[j], sid);
            assert(open_for(q[j], sid));
        }
    }
}

/// At any moment each schedule has at most one open queue row.
pub proof fn lemma_at_most_one_open_row(b: Board, sid: u64)
    requires
        b.wf(),
    ensures
        open_count(b.queue@, sid) <= 1,
{
    lemma_open_count_bound(b.queue@, sid);
}

/// Pairwise distinct open rows count at most once per schedule.
proof fn lemma_open_count_bound(q: Seq<QueueRow>, sid: u64)
    requires
        one_open_row_each(q),
    ensures
        open_count(q, sid) <= 1,
    decreases q.len(),
{
    if q.len() > 0 {
        let p = q.drop_last();
        assert(one_open_row_each(p)) by {
            assert forall|i: int, j: int|
                0 <= i < p.len() && 0 <= j < p.len() && i != j && (#[trigger] p[i]).status.is_open()
                    && (#[trigger] p[j]).status.is_open() && p[i].schedule_id is Some
                implies p[i].schedule_id != p[j].schedule_id by {
                assert(p[i] == q[i] && p[j] == q[j]);
            }
        }
        lemma_open_count_bound(p, sid);
        lemma_count_witness(p, sid);
        if open_for(q.last(), sid) && open_count(p, sid) > 0 {
            let j = choose|j: int| 0 <= j < p.len() && open_for(#[trigger] p[j], sid);
            assert(q[j] == p[j]);
            assert(open_for(q[q.len() - 1], sid));
            assert(false);
        }
    }
}

} // verus!
