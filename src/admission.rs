//! Admission of new schedules: the payload each job carries, and the checks
//! made before a schedule is written.
use vstd::prelude::*;
use vstd::string::*;
use crate::board::{invoice_bound, Board, JobData, JobSchedule, JobType, ScheduleError};
use crate::invoice::Invoice;
use crate::recurrence::{plan_schedule, plan_spec, PlanError, SchedulePlan, ScheduleTiming};
use crate::status::ScheduleStatus;

verus! {

/// The payload of a `send_invoice` job for an invoice.
pub open spec fn invoice_payload(
    invoice: Invoice,
    customer_name: Seq<char>,
    merchant_name: Seq<char>,
    created_by: Seq<char>,
    d: JobData,
) -> bool {
    &&& d.invoice_id matches Some(x) && x@ == invoice.id@
    &&& d.created_by matches Some(x) && x@ == created_by
    &&& d.customer_id matches Some(x) && x@ == invoice.customer_id@
    &&& d.customer_name matches Some(x) && x@ == customer_name
    &&& d.merchant_id matches Some(x) && x@ == invoice.merchant_id@
    &&& d.merchant_name matches Some(x) && x@ == merchant_name
    &&& d.title == invoice.title
    &&& d.description == invoice.description
    &&& d.total_amount == Some(invoice.total_amount)
    &&& d.invoice_date == Some(invoice.invoice_date)
}

/// Builds the payload of a `send_invoice` job.
pub fn invoice_job_data(invoice: &Invoice, customer_name: &str, merchant_name: &str, created_by: &str) -> (r: JobData)
    ensures
        invoice_payload(*invoice, customer_name@, merchant_name@, created_by@, r),
{
    JobData {
        invoice_id: Some(invoice.id.clone()),
        created_by: Some(String::from_str(created_by)),
        customer_id: Some(invoice.customer_id.clone()),
        customer_name: Some(String::from_str(customer_name)),
        merchant_id: Some(invoice.merchant_id.clone()),
        merchant_name: Some(String::from_str(merchant_name)),
        title: invoice.title.clone(),
        description: invoice.description.clone(),
        total_amount: Some(invoice.total_amount),
        invoice_date: Some(invoice.invoice_date),
    }
}

/// The payload of a `send_reminder` job.
pub open spec fn reminder_payload(
    d: JobData,
    title: Seq<char>,
    description: Seq<char>,
    customer_id: Seq<char>,
    customer_name: Seq<char>,
    merchant_id: Seq<char>,
    merchant_name: Seq<char>,
    created_by: Seq<char>,
) -> bool {
    &&& d.title matches Some(x) && x@ == title
    &&& d.description matches Some(x) && x@ == description
    &&& d.customer_id matches Some(x) && x@ == customer_id
    &&& d.customer_name matches Some(x) && x@ == customer_name
    &&& d.merchant_id matches Some(x) && x@ == merchant_id
    &&& d.merchant_name matches Some(x) && x@ == merchant_name
    &&& d.created_by matches Some(x) && x@ == created_by
    &&& d.invoice_id is None
    &&& d.total_amount is None
    &&& d.invoice_date is None
}

/// Builds the payload of a `send_reminder` job.
pub fn reminder_job_data(
    title: &str,
    description: &str,
    customer_id: &str,
    customer_name: &str,
    merchant_id: &str,
    merchant_name: &str,
    created_by: &str,
) -> (r: JobData)
    ensures
        reminder_payload(
            r,
            title@,
            description@,
            customer_id@,
            customer_name@,
            merchant_id@,
            merchant_name@,
            created_by@,
        ),
{
    JobData {
        invoice_id: None,
        created_by: Some(String::from_str(created_by)),
        customer_id: Some(String::from_str(customer_id)),
        customer_name: Some(String::from_str(customer_name)),
        merchant_id: Some(String::from_str(merchant_id)),
        merchant_name: Some(String::from_str(merchant_name)),
        title: Some(String::from_str(title)),
        description: Some(String::from_str(description)),
        total_amount: None,
        invoice_date: None,
    }
}

#[derive(Clone, Copy, Debug, PartialEq, Eq, Structural)]
pub enum AdmissionError {
    Timing(PlanError),
    /// The invoice already has a schedule that is neither completed nor
    /// canceled.
    AlreadyScheduled,
}

/// Schedules the dispatch of an invoice, requested at `now`, as schedule
/// `id`. The timing is checked first, then that the invoice is free.
pub fn schedule_invoice(
    board: &mut Board,
    id: u64,
    invoice: &Invoice,
    customer_name: &str,
    merchant_name: &str,
    created_by: &str,
    timing: &ScheduleTiming,
    now: i64,
) -> (r: Result<(), AdmissionError>)
    requires
        old(board).wf(),
        now <= i64::MAX - 10,
    ensures
        final(board).wf(),
        final(board).queue@ == old(board).queue@,
        match plan_spec(*timing, now as int) {
            Err(e) => r == Err::<(), AdmissionError>(AdmissionError::Timing(e))
                && final(board).schedules@ == old(board).schedules@,
            Ok(p) => if invoice_bound(old(board).schedules@, invoice.id@) {
                r == Err::<(), AdmissionError>(AdmissionError::AlreadyScheduled)
                    && final(board).schedules@ == old(board).schedules@
            } else {
                &&& r is Ok
                &&& final(board).schedules@.len() == old(board).schedules@.len() + 1
                &&& final(board).schedules@.drop_last() == old(board).schedules@
                &&& ({
                    let s = final(board).schedules@.last();
                    &&& s.id == id
                    &&& s.job_type == JobType::SendInvoice
                    &&& s.status == ScheduleStatus::Scheduled
                    &&& s.run_at == p.run_at
                    &&& s.repeat_interval == Some(p.repeat_interval)
                    &&& s.remaining == p.repeat_count
                    &&& s.job_data matches Some(d) && invoice_payload(
                        *invoice,
                        customer_name@,
                        merchant_name@,
                        created_by@,
                        d,
                    )
                })
            },
        },
{
    let plan = match plan_schedule(timing, now) {
        Ok(p) => p,
        Err(e) => {
            return Err(AdmissionError::Timing(e));
        },
    };
    let data = invoice_job_data(invoice, customer_name, merchant_name, created_by);
    let s = JobSchedule::from_plan(id, JobType::SendInvoice, Some(data), plan);
    match board.add_schedule(s) {
        Ok(()) => {
            assert(board.schedules@.drop_last() =~= old(board).schedules@);
            Ok(())
        },
        Err(ScheduleError::AlreadyScheduled) => Err(AdmissionError::AlreadyScheduled),
    }
}

/// Schedules a reminder following an accepted plan as schedule `id`.
pub fn schedule_reminder(board: &mut Board, id: u64, data: JobData, plan: SchedulePlan)
    requires
        old(board).wf(),
        plan.repeat_interval > 0,
        plan.repeat_count >= 0,
        plan.run_at + plan.repeat_interval * plan.repeat_count <= i64::MAX,
    ensures
        final(board).wf(),
        final(board).queue@ == old(board).queue@,
        final(board).schedules@ == old(board).schedules@.push(
            (JobSchedule {
                id,
                job_type: JobType::SendReminder,
                job_data: Some(data),
                run_at: plan.run_at,
                repeat_interval: Some(plan.repeat_interval),
                remaining: plan.repeat_count,
                status: ScheduleStatus::Scheduled,
            }),
        ),
{
    let s = JobSchedule::from_plan(id, JobType::SendReminder, Some(data), plan);
    let r = board.add_schedule(s);
    assert(r is Ok);
}

/// A customer that a reminder goes to.
#[derive(Clone, Debug)]
pub struct CustomerRef {
    pub id: String,
    pub name: String,
}

/// Schedule `s` is the reminder for customer `c` with schedule id `id`.
pub open spec fn reminder_schedule(
    s: JobSchedule,
    id: u64,
    c: CustomerRef,
    title: Seq<char>,
    description: Seq<char>,
    merchant_id: Seq<char>,
    merchant_name: Seq<char>,
    created_by: Seq<char>,
    plan: SchedulePlan,
) -> bool {
    &&& s.id == id
    &&& s.job_type == JobType::SendReminder
    &&& s.status == ScheduleStatus::Scheduled
    &&& s.run_at == plan.run_at
    &&& s.repeat_interval == Some(plan.repeat_interval)
    &&& s.remaining == plan.repeat_count
    &&& s.job_data matches Some(d) && reminder_payload(
        d,
        title,
        description,
        c.id@,
        c.name@,
        merchant_id,
        merchant_name,
        created_by,
    )
}

/// Schedules one reminder per customer (the customers with a tag), in
/// order, the `i`-th as schedule `ids[i]`.
pub fn schedule_tag_reminders(
    board: &mut Board,
    ids: &Vec<u64>,
    customers: &Vec<CustomerRef>,
    title: &str,
    description: &str,
    merchant_id: &str,
    merchant_name: &str,
    created_by: &str,
    plan: SchedulePlan,
)
    requires
        old(board).wf(),
        ids@.len() == customers@.len(),
        plan.repeat_interval > 0,
        plan.repeat_count >= 0,
        plan.run_at + plan.repeat_interval * plan.repeat_count <= i64::MAX,
    ensures
        final(board).wf(),
        final(board).queue@ == old(board).queue@,
        final(board).schedules@.len() == old(board).schedules@.len() + customers@.len(),
        final(board).schedules@.subrange(0, old(board).schedules@.len() as int) == old(
            board,
        ).schedules@,
        forall|i: int|
            0 <= i < customers@.len() ==> reminder_schedule(
                #[trigger] final(board).schedules@[old(board).schedules@.len() + i],
                ids@[i],
                customers@[i],
                title@,
                description@,
                merchant_id@,
                merchant_name@,
                created_by@,
                plan,
            ),
{
    let ghost start = board.schedules@;
    let mut i: usize = 0;
    assert(board.schedules@.subrange(0, start.len() as int) =~= start);
    while i < customers.len()
        invariant
            board.wf(),
            board.queue@ == old(board).queue@,
            start == old(board).schedules@,
            ids@.len() == customers@.len(),
            i <= customers@.len(),
            plan.repeat_interval > 0,
            plan.repeat_count >= 0,
            plan.run_at + plan.repeat_interval * plan.repeat_count <= i64::MAX,
            board.schedules@.len() == start.len() + i,
            board.schedules@.subrange(0, start.len() as int) == start,
            forall|j: int|
                0 <= j < i ==> reminder_schedule(
                    #[trigger] board.schedules@[start.len() + j],
                    ids@[j],
                    customers@[j],
                    title@,
                    description@,
                    merchant_id@,
                    merchant_name@,
                    created_by@,
                    plan,
                ),
        decreases customers@.len() - i,
    {
        let c = &customers[i];
        let data = reminder_job_data(
            title,
            description,
            c.id.as_str(),
            c.name.as_str(),
            merchant_id,
            merchant_name,
            created_by,
        );
        let ghost before = board.schedules@;
        schedule_reminder(board, ids[i], data, plan);
        assert forall|j: int| 0 <= j < i + 1 implies reminder_schedule(
            #[trigger] board.schedules@[start.len() + j],
            ids@[j],
            customers@[j],
            title@,
            description@,
            merchant_id@,
            merchant_name@,
            created_by@,
            plan,
        ) by {
            if j < i {
                assert(board.schedules@[start.len() + j] == before[start.len() + j]);
            }
        }
        assert(board.schedules@.subrange(0, start.len() as int) =~= start) by {
            assert forall|k: int| 0 <= k < start.len() implies board.schedules@[k] == start[k] by {
                assert(board.schedules@[k] == before[k]);
                assert(before.subrange(0, start.len() as int)[k] == start[k]);
            }
        }
        i = i + 1;
    }
}

} // verus!
