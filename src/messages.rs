//! Message bodies for invoice and reminder jobs.
use vstd::prelude::*;
use vstd::string::*;
use crate::board::JobData;
use crate::text::{decimal_text, int_text, MAX_CLOCK};

verus! {

/// Number of invoice templates.
pub const TEMPLATE_COUNT: usize = 10;

/// Seconds from dispatch to the due time quoted in an invoice message.
pub const DUE_DELAY: i64 = 86400;

/// The text that `chrono` writes for the instant `t` (seconds since the
/// epoch, UTC) with the pattern `%d/%m/%Y - %H:%M`.
pub uninterp spec fn clock_text(t: i64) -> Seq<char>;

/// Fixed text of invoice template `i` after its `k`-th placeholder; the four
/// placeholders take, in order, the merchant name, the amount, the payment
/// link and the due time.
pub open spec fn invoice_segment(i: int, k: int) -> Seq<char> {
    if i == 0 {
        if k == 0 {
            " here, as a reminder, we ask that you please make a payment of *"@
        } else if k == 1 {
            "* to avoid any late fees. The payment can be made at the following link: "@
        } else if k == 2 {
            ". The due date for this payment is "@
        } else {
            "."@
        }
    } else if i == 1 {
        if k == 0 {
            " here, to avoid incurring late fees, we request that you make a payment of *"@
        } else if k == 1 {
            "* as soon as possible. You can easily do so by following this payment link: "@
        } else if k == 2 {
            ". The deadline for this payment is "@
        } else {
            "."@
        }
    } else if i == 2 {
        if k == 0 {
            " here, we strongly encourage you to make a payment of *"@
        } else if k == 1 {
            "* to avoid late fees. You can make the payment by clicking on the following link: "@
        } else if k == 2 {
            ". The due date is "@
        } else {
            "."@
        }
    } else if i == 3 {
        if k == 0 {
            " here, to avoid being charged late fees, we request that you make a payment of *"@
        } else if k == 1 {
            "*. You can access the payment link here: "@
        } else if k == 2 {
            ". Please pay by "@
        } else {
            "."@
        }
    } else if i == 4 {
        if k == 0 {
            " here, please make a payment of *"@
        } else if k == 1 {
            "* to avoid late fees. You can make the payment at the following link: "@
        } else if k == 2 {
            ". The due date is "@
        } else {
            "."@
        }
    } else if i == 5 {
        if k == 0 {
            " here, we request that you make a payment of *"@
        } else if k == 1 {
            "* as soon as possible to avoid any late fees. The payment link can be found here: "@
        } else if k == 2 {
            ". Please note that the payment is due on "@
        } else {
            "."@
        }
    } else if i == 6 {
        if k == 0 {
            " here, to avoid late fees, we ask that you make a payment of *"@
        } else if k == 1 {
            "*. You can make the payment using the following link: "@
        } else if k == 2 {
            ". The due date is "@
        } else {
            "."@
        }
    } else if i == 7 {
        if k == 0 {
            " here, as a reminder, a payment of *"@
        } else if k == 1 {
            "* is due to avoid late fees. You can make the payment at the following link: "@
        } else if k == 2 {
            ". The payment is due on "@
        } else {
            "."@
        }
    } else if i == 8 {
        if k == 0 {
            " here, we request that you make a payment of *"@
        } else if k == 1 {
            "* to avoid any late fees. The payment link is available here: "@
        } else if k == 2 {
            ". Please pay by "@
        } else {
            "."@
        }
    } else {
        if k == 0 {
            " here, to avoid being charged late fees, we ask that you make a payment of *"@
        } else if k == 1 {
            "* as soon as possible. The payment link is provided here: "@
        } else if k == 2 {
            ". Please note that the payment is due on "@
        } else {
            "."@
        }
    }
}

/// Invoice template `i` filled in.
pub open spec fn invoice_body(i: int, merchant: Seq<char>, amount: Seq<char>, url: Seq<char>, due: Seq<char>) -> Seq<char> {
    merchant + invoice_segment(i, 0) + amount + invoice_segment(i, 1) + url + invoice_segment(i, 2)
        + due + invoice_segment(i, 3)
}

/// An amount of rupiah as `Rp` followed by its decimal digits and `.00`.
pub open spec fn amount_spec(total: int) -> Seq<char> {
    "Rp"@ + decimal_text(total) + ".00"@
}

/// The reminder body.
pub open spec fn reminder_body(merchant: Seq<char>, title: Seq<char>, description: Seq<char>) -> Seq<char> {
    merchant + " here, we have a message for you \""@ + title + "\", \""@ + description + "\"."@
}

fn segment(i: usize, k: usize) -> (r: &'static str)
    requires
        i < 10,
        k < 4,
    ensures
        r@ == invoice_segment(i as int, k as int),
{
    match (i, k) {
        (0, 0) => " here, as a reminder, we ask that you please make a payment of *",
        (0, 1) => "* to avoid any late fees. The payment can be made at the following link: ",
        (0, 2) => ". The due date for this payment is ",
        (0, 3) => ".",
        (1, 0) => " here, to avoid incurring late fees, we request that you make a payment of *",
        (1, 1) => "* as soon as possible. You can easily do so by following this payment link: ",
        (1, 2) => ". The deadline for this payment is ",
        (1, 3) => ".",
        (2, 0) => " here, we strongly encourage you to make a payment of *",
        (2, 1) => "* to avoid late fees. You can make the payment by clicking on the following link: ",
        (2, 2) => ". The due date is ",
        (2, 3) => ".",
        (3, 0) => " here, to avoid being charged late fees, we request that you make a payment of *",
        (3, 1) => "*. You can access the payment link here: ",
        (3, 2) => ". Please pay by ",
        (3, 3) => ".",
        (4, 0) => " here, please make a payment of *",
        (4, 1) => "* to avoid late fees. You can make the payment at the following link: ",
        (4, 2) => ". The due date is ",
        (4, 3) => ".",
        (5, 0) => " here, we request that you make a payment of *",
        (5, 1) => "* as soon as possible to avoid any late fees. The payment link can be found here: ",
        (5, 2) => ". Please note that the payment is due on ",
        (5, 3) => ".",
        (6, 0) => " here, to avoid late fees, we ask that you make a payment of *",
        (6, 1) => "*. You can make the payment using the following link: ",
        (6, 2) => ". The due date is ",
        (6, 3) => ".",
        (7, 0) => " here, as a reminder, a payment of *",
        (7, 1) => "* is due to avoid late fees. You can make the payment at the following link: ",
        (7, 2) => ". The payment is due on ",
        (7, 3) => ".",
        (8, 0) => " here, we request that you make a payment of *",
        (8, 1) => "* to avoid any late fees. The payment link is available here: ",
        (8, 2) => ". Please pay by ",
        (8, 3) => ".",
        (9, 0) => " here, to avoid being charged late fees, we ask that you make a payment of *",
        (9, 1) => "* as soon as possible. The payment link is provided here: ",
        (9, 2) => ". Please note that the payment is due on ",
        _ => ".",
    }
}

/// Relies on rand's `Rng::gen_range` over `0..10`: a value in the range.
#[verifier::external_body]
fn draw_template() -> (r: usize)
    ensures
        r < 10,
{
    rand::Rng::gen_range(&mut rand::thread_rng(), 0..10)
}

/// Relies on chrono's `DateTime::from_timestamp` and `format`: the text
/// depends on the instant alone; `None` only for instants chrono cannot
/// represent, which lie outside years 1970 to 9999.
#[verifier::external_body]
fn format_clock(t: i64) -> (r: Option<String>)
    ensures
        r matches Some(s) ==> s@ == clock_text(t),
        0 <= t <= MAX_CLOCK ==> r is Some,
{
    chrono::DateTime::from_timestamp(t, 0).map(|d| d.format("%d/%m/%Y - %H:%M").to_string())
}

/// The amount as it appears in an invoice message.
pub fn amount_text(total: i64) -> (r: String)
    ensures
        r@ == amount_spec(total as int),
{
    let mut s = String::from_str("Rp");
    let digits = int_text(total);
    s.append(digits.as_str());
    s.append(".00");
    s
}

/// Invoice template `template` filled in with the given texts.
pub fn compose_invoice_message(
    template: usize,
    merchant_name: &str,
    amount: &str,
    invoice_url: &str,
    due: &str,
) -> (r: String)
    requires
        template < TEMPLATE_COUNT,
    ensures
        r@ == invoice_body(template as int, merchant_name@, amount@, invoice_url@, due@),
{
    let mut s = String::from_str(merchant_name);
    s.append(segment(template, 0));
    s.append(amount);
    s.append(segment(template, 1));
    s.append(invoice_url);
    s.append(segment(template, 2));
    s.append(due);
    s.append(segment(template, 3));
    s
}

/// The reminder body for a merchant, a title and a description.
pub fn compose_reminder_message(merchant_name: &str, title: &str, description: &str) -> (r: String)
    ensures
        r@ == reminder_body(merchant_name@, title@, description@),
{
    let mut s = String::from_str(merchant_name);
    s.append(" here, we have a message for you \"");
    s.append(title);
    s.append("\", \"");
    s.append(description);
    s.append("\".");
    s
}

/// Why a message could not be built.
#[derive(Clone, Copy, Debug, PartialEq, Eq, Structural)]
pub enum MessageError {
    MissingTitle,
    MissingDescription,
    MissingAmount,
    /// The due time cannot be written as a date (it lies after the year
    /// 9999).
    BadClock,
}

/// The reminder body from a job's payload, or the first missing field.
pub open spec fn reminder_spec(data: JobData, merchant: Seq<char>) -> Result<Seq<char>, MessageError> {
    match (data.title, data.description) {
        (None, _) => Err(MessageError::MissingTitle),
        (Some(_), None) => Err(MessageError::MissingDescription),
        (Some(t), Some(d)) => Ok(reminder_body(merchant, t@, d@)),
    }
}

/// The reminder body from a job's payload.
pub fn message_builder_reminder(data: &JobData, merchant_name: &str) -> (r: Result<String, MessageError>)
    ensures
        match reminder_spec(*data, merchant_name@) {
            Ok(m) => r matches Ok(x) && x@ == m,
            Err(e) => r == Err::<String, MessageError>(e),
        },
{
    let title = match &data.title {
        Some(t) => t,
        None => {
            return Err(MessageError::MissingTitle);
        },
    };
    let description = match &data.description {
        Some(d) => d,
        None => {
            return Err(MessageError::MissingDescription);
        },
    };
    Ok(compose_reminder_message(merchant_name, title.as_str(), description.as_str()))
}

/// The invoice body for a job dispatched at `now`, with a randomly chosen
/// template; the due time is a day after `now`.
pub fn message_builder_invoice(data: &JobData, merchant_name: &str, invoice_url: &str, now: i64) -> (r: Result<String, MessageError>)
    requires
        now <= i64::MAX - DUE_DELAY,
    ensures
        data.total_amount is None ==> r == Err::<String, MessageError>(MessageError::MissingAmount),
        data.total_amount is Some && 0 <= now + DUE_DELAY <= MAX_CLOCK ==> r is Ok,
        r is Err ==> r == Err::<String, MessageError>(MessageError::MissingAmount) || r == Err::<String, MessageError>(MessageError::BadClock),
        r matches Ok(m) ==> data.total_amount matches Some(total) && exists|i: int|
            0 <= i < TEMPLATE_COUNT && m@ == #[trigger] invoice_body(
                i,
                merchant_name@,
                amount_spec(total as int),
                invoice_url@,
                clock_text((now + DUE_DELAY) as i64),
            ),
{
    let total = match data.total_amount {
        Some(t) => t,
        None => {
            return Err(MessageError::MissingAmount);
        },
    };
    let due = match format_clock(now + DUE_DELAY) {
        Some(d) => d,
        None => {
            return Err(MessageError::BadClock);
        },
    };
    let amount = amount_text(total);
    let template = draw_template();
    let m = compose_invoice_message(template, merchant_name, amount.as_str(), invoice_url, due.as_str());
    assert(m@ == invoice_body(template as int, merchant_name@, amount_spec(total as int), invoice_url@, clock_text((now + DUE_DELAY) as i64)));
    Ok(m)
}

} // verus!
