//! Fan-out of one dispatch over a customer's contact channels.
//!
//! For each channel the dispatcher plans one delivery; the outcomes are then
//! folded into the verdict on the whole dispatch: it succeeded when at least
//! one channel accepted the message. A channel that fails does not stop the
//! others.
use vstd::prelude::*;
use vstd::string::*;
use crate::board::{JobData, JobType};
use crate::messages::{
    amount_spec, clock_text, invoice_body, message_builder_invoice, message_builder_reminder, reminder_spec,
    MessageError, DUE_DELAY, TEMPLATE_COUNT,
};
use crate::text::{same_text, MAX_CLOCK};

verus! {

/// The first tick of the cron expression `expr` after the instant `t`
/// (seconds since the epoch, UTC), as cron computes it; `None` when the
/// expression is not valid or has no later tick.
pub uninterp spec fn cron_next_after(expr: Seq<char>, t: i64) -> Option<i64>;

#[verifier::external_type_specification]
#[verifier::external_body]
pub struct ExCronSchedule(cron::Schedule);

/// The pace of WhatsApp sends: a cron expression and its parsed schedule.
/// Only `SendPace::parse` builds one, so the two always agree.
pub struct SendPace {
    expr: String,
    schedule: cron::Schedule,
}

/// Relies on cron's `Schedule::from_str`: a parsed schedule is kept with
/// the text it was parsed from.
#[verifier::external_body]
fn parse_cron(expr: &str) -> (r: Option<SendPace>)
    ensures
        r matches Some(p) ==> p.expr_text() == expr@,
{
    let schedule = <cron::Schedule as std::str::FromStr>::from_str(expr).ok()?;
    Some(SendPace { expr: expr.to_string(), schedule })
}

/// Relies on cron's `Schedule::after`: its first instant is the next tick of
/// the expression, at least one second after the one it starts from.
#[verifier::external_body]
fn next_tick_after(pace: &SendPace, t: i64) -> (r: Option<i64>)
    requires
        0 <= t <= MAX_CLOCK,
    ensures
        r == cron_next_after(pace.expr_text(), t),
        r matches Some(x) ==> x > t,
{
    let start = chrono::DateTime::from_timestamp(t, 0)?;
    pace.schedule.after(&start).next().map(|d| d.timestamp())
}

impl SendPace {
    /// The cron expression this pace follows.
    pub closed spec fn expr_text(&self) -> Seq<char> {
        self.expr@
    }

    /// The pace of a cron expression, or `None` when cron refuses it.
    pub fn parse(expr: &str) -> (r: Option<SendPace>)
        ensures
            r matches Some(p) ==> p.expr_text() == expr@,
    {
        parse_cron(expr)
    }

    /// The expression text.
    pub fn expr(&self) -> (r: &str)
        ensures
            r@ == self.expr_text(),
    {
        self.expr.as_str()
    }
}

/// The send window is open once a tick of the schedule lies between the last
/// delivery and now: the first tick after the last delivery is not later
/// than now.
pub open spec fn opens(next_tick: Option<i64>, now: i64) -> bool {
    next_tick matches Some(x) && x <= now
}

/// Whether the send window is open at `now`, given the first tick after
/// the last delivery.
pub fn window_open(next_tick: Option<i64>, now: i64) -> (r: bool)
    ensures
        r == opens(next_tick, now),
{
    match next_tick {
        Some(x) => x <= now,
        None => false,
    }
}

/// Whether a WhatsApp delivery may go out at `now`, the last one having gone
/// out at `last_sent`: only once the first tick after `last_sent` has come,
/// so at most one delivery goes out per tick of the expression.
pub fn whatsapp_window(pace: &SendPace, last_sent: i64, now: i64) -> (r: bool)
    requires
        0 <= last_sent <= MAX_CLOCK,
    ensures
        r == opens(cron_next_after(pace.expr_text(), last_sent), now),
        r ==> last_sent < now,
{
    let next = next_tick_after(pace, last_sent);
    window_open(next, now)
}

/// After a send at `t1`, a second send at `t2` finds the window open only
/// when a tick of the expression lies in `(t1, t2]`: two sends never share
/// one tick window.
pub proof fn lemma_one_send_per_tick(expr: Seq<char>, t1: i64, t2: i64)
    requires
        opens(cron_next_after(expr, t1), t2),
    ensures
        cron_next_after(expr, t1) matches Some(x) && x <= t2,
{
}

/// A customer's contact channel: its name (`whatsapp`, `email` or
/// `telegram`), the address on it, and for Telegram the bound chat id.
#[derive(Clone, Debug)]
pub struct ContactRow {
    pub name: String,
    pub value: String,
    pub additional_value: Option<String>,
}

/// Why a channel cannot be used.
#[derive(Clone, Copy, Debug, PartialEq, Eq, Structural)]
pub enum ChannelFailure {
    /// A Telegram channel whose chat has not been bound yet.
    NoAdditionalValue,
    /// A Telegram channel whose chat id is not a number.
    BadChatId,
}

/// What to do on one channel.
#[derive(Clone, Debug)]
pub enum Delivery {
    WhatsApp(String),
    Email(String),
    Telegram(i64),
    /// WhatsApp, while the send window is closed.
    Held,
    Unusable(ChannelFailure),
    /// A channel of another name.
    Ignored,
}

pub open spec fn is_digit(c: char) -> bool {
    48 <= c as u32 <= 57
}

pub open spec fn digit_value(c: char) -> int {
    c as u32 - 48
}

pub open spec fn all_digits(s: Seq<char>) -> bool {
    forall|i: int| 0 <= i < s.len() ==> is_digit(#[trigger] s[i])
}

/// Value of a string of decimal digits.
pub open spec fn digits_value(s: Seq<char>) -> int
    decreases s.len(),
{
    if s.len() == 0 {
        0
    } else {
        digits_value(s.drop_last()) * 10 + digit_value(s.last())
    }
}

/// A leading `+` or `-`.
pub open spec fn signed(s: Seq<char>) -> bool {
    s.len() > 0 && (s[0] == '-' || s[0] == '+')
}

/// An optional `+` or `-` followed by at least one decimal digit.
pub open spec fn integer_syntax(s: Seq<char>) -> bool {
    if signed(s) {
        s.len() > 1 && all_digits(s.drop_first())
    } else {
        s.len() > 0 && all_digits(s)
    }
}

pub open spec fn integer_value(s: Seq<char>) -> int {
    if s.len() > 0 && s[0] == '-' {
        -digits_value(s.drop_first())
    } else if s.len() > 0 && s[0] == '+' {
        digits_value(s.drop_first())
    } else {
        digits_value(s)
    }
}

/// The integer written in `s`, if it is one and fits in an `i64`.
pub open spec fn chat_id_of(s: Seq<char>) -> Option<i64> {
    if integer_syntax(s) && i64::MIN <= integer_value(s) <= i64::MAX {
        Some(integer_value(s) as i64)
    } else {
        None
    }
}

/// A run of digits has a value of at least zero.
proof fn lemma_digits_nonneg(s: Seq<char>)
    requires
        all_digits(s),
    ensures
        digits_value(s) >= 0,
    decreases s.len(),
{
    if s.len() > 0 {
        assert(all_digits(s.drop_last())) by {
            assert forall|i: int| 0 <= i < s.drop_last().len() implies is_digit(#[trigger] s.drop_last()[i]) by {
                assert(s.drop_last()[i] == s[i]);
            }
        }
        lemma_digits_nonneg(s.drop_last());
        assert(is_digit(s[s.len() - 1]));
    }
}

/// A longer run of digits is worth at least as much as its prefix.
proof fn lemma_digits_grow(s: Seq<char>, i: int)
    requires
        all_digits(s),
        0 <= i <= s.len(),
    ensures
        digits_value(s.subrange(0, i)) <= digits_value(s),
    decreases s.len() - i,
{
    if i < s.len() {
        let p = s.subrange(0, i + 1);
        assert(p.drop_last() =~= s.subrange(0, i));
        assert(all_digits(p)) by {
            assert forall|j: int| 0 <= j < p.len() implies is_digit(#[trigger] p[j]) by {
                assert(p[j] == s[j]);
            }
        }
        lemma_digits_nonneg(s.subrange(0, i));
        assert(is_digit(p.last()));
        lemma_digits_grow(s, i + 1);
    } else {
        assert(s.subrange(0, i) =~= s);
    }
}

/// Reads a Telegram chat id as `i64` parsing does: an optional `+` or `-`
/// and decimal digits whose value fits in an `i64`.
pub fn parse_chat_id(s: &str) -> (r: Option<i64>)
    ensures
        r == chat_id_of(s@),
{
    let n = s.unicode_len();
    if n == 0 {
        return None;
    }
    let c0 = s.get_char(0);
    let neg = c0 == '-';
    let has_sign = neg || c0 == '+';
    let start: usize = if has_sign {
        1
    } else {
        0
    };
    if start >= n {
        return None;
    }
    let ghost body = s@.subrange(start as int, n as int);
    assert(has_sign ==> body =~= s@.drop_first());
    assert(!has_sign ==> body =~= s@);
    let bound: u128 = 9223372036854775808;
    let mut acc: u128 = 0;
    let mut i: usize = start;
    while i < n
        invariant
            start <= i <= n,
            n == s@.len(),
            body == s@.subrange(start as int, n as int),
            all_digits(body.subrange(0, i - start)),
            acc == digits_value(body.subrange(0, i - start)),
            acc <= bound,
            bound == 9223372036854775808u128,
            n > 0,
            neg == (s@[0] == '-'),
            has_sign == signed(s@),
            start == (if has_sign { 1usize } else { 0usize }),
            has_sign ==> body == s@.drop_first(),
            !has_sign ==> body == s@,
        decreases n - i,
    {
        let c = s.get_char(i);
        let ghost p = body.subrange(0, i - start + 1);
        assert(p.drop_last() =~= body.subrange(0, i - start));
        assert(p.last() == c);
        if !(48 <= c as u32 && c as u32 <= 57) {
            assert(!all_digits(body)) by {
                assert(body[i - start] == c);
            }
            return None;
        }
        acc = acc * 10 + (c as u32 - 48) as u128;
        assert(all_digits(p)) by {
            assert forall|j: int| 0 <= j < p.len() implies is_digit(#[trigger] p[j]) by {
                if j < p.len() - 1 {
                    assert(p[j] == body.subrange(0, i - start)[j]);
                }
            }
        }
        if acc > bound {
            proof {
                if all_digits(body) {
                    lemma_digits_grow(body, i - start + 1);
                }
            }
            return None;
        }
        i = i + 1;
    }
    assert(body.subrange(0, n - start) =~= body);
    if neg {
        Some(-(acc as i128) as i64)
    } else if acc <= 9223372036854775807 {
        Some(acc as i64)
    } else {
        None
    }
}

/// The delivery planned on one channel.
pub open spec fn delivery_spec(c: ContactRow, whatsapp_open: bool, d: Delivery) -> bool {
    if c.name@ == "whatsapp"@ {
        if whatsapp_open {
            d matches Delivery::WhatsApp(n) && n@ == c.value@
        } else {
            d is Held
        }
    } else if c.name@ == "email"@ {
        d matches Delivery::Email(a) && a@ == c.value@
    } else if c.name@ == "telegram"@ {
        match c.additional_value {
            None => d == Delivery::Unusable(ChannelFailure::NoAdditionalValue),
            Some(v) => match chat_id_of(v@) {
                Some(id) => d == Delivery::Telegram(id),
                None => d == Delivery::Unusable(ChannelFailure::BadChatId),
            },
        }
    } else {
        d is Ignored
    }
}

/// Plans the delivery on one channel.
pub fn plan_delivery(c: &ContactRow, whatsapp_open: bool) -> (r: Delivery)
    ensures
        delivery_spec(*c, whatsapp_open, r),
{
    if same_text(c.name.as_str(), "whatsapp") {
        if whatsapp_open {
            Delivery::WhatsApp(c.value.clone())
        } else {
            Delivery::Held
        }
    } else if same_text(c.name.as_str(), "email") {
        Delivery::Email(c.value.clone())
    } else if same_text(c.name.as_str(), "telegram") {
        match &c.additional_value {
            None => Delivery::Unusable(ChannelFailure::NoAdditionalValue),
            Some(v) => match parse_chat_id(v.as_str()) {
                Some(id) => Delivery::Telegram(id),
                None => Delivery::Unusable(ChannelFailure::BadChatId),
            },
        }
    } else {
        Delivery::Ignored
    }
}

/// Plans one delivery per channel, in the channels' order.
pub fn plan_deliveries(channels: &Vec<ContactRow>, whatsapp_open: bool) -> (r: Vec<Delivery>)
    ensures
        r@.len() == channels@.len(),
        forall|i: int| 0 <= i < r@.len() ==> delivery_spec(channels@[i], whatsapp_open, #[trigger] r@[i]),
{
    let mut out: Vec<Delivery> = Vec::new();
    let mut i: usize = 0;
    while i < channels.len()
        invariant
            i <= channels@.len(),
            out@.len() == i,
            forall|j: int| 0 <= j < i ==> delivery_spec(channels@[j], whatsapp_open, #[trigger] out@[j]),
        decreases channels@.len() - i,
    {
        let d = plan_delivery(&channels[i], whatsapp_open);
        out.push(d);
        i = i + 1;
    }
    out
}

/// A dispatch succeeded when at least one channel accepted the message.
pub fn fanout_succeeded(accepted: &Vec<bool>) -> (r: bool)
    ensures
        r == exists|i: int| 0 <= i < accepted@.len() && #[trigger] accepted@[i],
{
    let mut i: usize = 0;
    while i < accepted.len()
        invariant
            i <= accepted@.len(),
            forall|j: int| 0 <= j < i ==> !#[trigger] accepted@[j],
        decreases accepted@.len() - i,
    {
        if accepted[i] {
            return true;
        }
        i = i + 1;
    }
    false
}

/// What a dispatch needs from a job's payload.
#[derive(Clone, Debug)]
pub struct DispatchContext {
    pub customer_id: String,
    pub merchant_id: String,
    pub merchant_name: String,
}

/// Why a job could not be dispatched.
#[derive(Clone, Copy, Debug, PartialEq, Eq, Structural)]
pub enum DispatchError {
    /// The job has no payload.
    MissingData,
    /// The payload lacks the customer, the merchant or the merchant's name.
    MissingField,
    Message(MessageError),
    /// An invoice job whose invoice has no payment link.
    MissingInvoiceUrl,
}

/// Reads customer id, merchant id and merchant name from a job's payload.
pub fn dispatch_context(data: &Option<JobData>) -> (r: Result<DispatchContext, DispatchError>)
    ensures
        data is None ==> r == Err::<DispatchContext, DispatchError>(DispatchError::MissingData),
        data matches Some(d) ==> match (d.customer_id, d.merchant_id, d.merchant_name) {
            (Some(c), Some(m), Some(n)) => r matches Ok(ctx) && ctx.customer_id@ == c@
                && ctx.merchant_id@ == m@ && ctx.merchant_name@ == n@,
            _ => r == Err::<DispatchContext, DispatchError>(DispatchError::MissingField),
        },
{
    let d = match data {
        Some(d) => d,
        None => {
            return Err(DispatchError::MissingData);
        },
    };
    match (&d.customer_id, &d.merchant_id, &d.merchant_name) {
        (Some(c), Some(m), Some(n)) => Ok(
            DispatchContext {
                customer_id: c.clone(),
                merchant_id: m.clone(),
                merchant_name: n.clone(),
            },
        ),
        _ => Err(DispatchError::MissingField),
    }
}

/// The message of a job: an invoice body (which needs the payment link), a
/// reminder body, or an empty text for any other job type.
pub fn compose_for_job(
    job_type: JobType,
    data: &JobData,
    merchant_name: &str,
    invoice_url: &Option<String>,
    now: i64,
) -> (r: Result<String, DispatchError>)
    requires
        now <= i64::MAX - DUE_DELAY,
    ensures
        job_type == JobType::Other ==> (r matches Ok(m) && m@.len() == 0),
        job_type == JobType::SendInvoice && invoice_url is None ==> r == Err::<String, DispatchError>(
            DispatchError::MissingInvoiceUrl,
        ),
        job_type == JobType::SendInvoice && invoice_url is Some ==> {
            &&& data.total_amount is None ==> r == Err::<String, DispatchError>(
                DispatchError::Message(MessageError::MissingAmount),
            )
            &&& data.total_amount is Some && 0 <= now + DUE_DELAY <= MAX_CLOCK ==> r is Ok
            &&& r is Err ==> r == Err::<String, DispatchError>(
                DispatchError::Message(MessageError::MissingAmount),
            ) || r == Err::<String, DispatchError>(DispatchError::Message(MessageError::BadClock))
            &&& r matches Ok(m) ==> data.total_amount matches Some(total) && exists|i: int|
                0 <= i < TEMPLATE_COUNT && m@ == #[trigger] invoice_body(
                    i,
                    merchant_name@,
                    amount_spec(total as int),
                    invoice_url.unwrap()@,
                    clock_text((now + DUE_DELAY) as i64),
                )
        },
        job_type == JobType::SendReminder ==> match reminder_spec(*data, merchant_name@) {
            Ok(m) => r matches Ok(x) && x@ == m,
            Err(e) => r == Err::<String, DispatchError>(DispatchError::Message(e)),
        },
{
    match job_type {
        JobType::SendInvoice => {
            let url = match invoice_url {
                Some(u) => u,
                None => {
                    return Err(DispatchError::MissingInvoiceUrl);
                },
            };
            match message_builder_invoice(data, merchant_name, url.as_str(), now) {
                Ok(m) => Ok(m),
                Err(e) => Err(DispatchError::Message(e)),
            }
        },
        JobType::SendReminder => match message_builder_reminder(data, merchant_name) {
            Ok(m) => Ok(m),
            Err(e) => Err(DispatchError::Message(e)),
        },
        JobType::Other => Ok(String::new()),
    }
}

} // verus!
