//! Invoices: their amounts and number, and the preparation that refreshes an
//! invoice before the promoter queues its dispatch.
use vstd::prelude::*;
use vstd::string::*;
use crate::board::JobData;
use crate::text::{decimal_text, int_text, MAX_CLOCK};

verus! {

/// Tax rate applied to every invoice, in percent.
pub const TAX_RATE: i64 = 11;

pub const MIN_AMOUNT: i64 = 10000;

pub const MAX_AMOUNT: i64 = 10000000;

/// The text that `chrono` writes for the instant `t` (seconds since the
/// epoch, UTC) as a naive date and time, `%Y-%m-%d %H:%M:%S`.
pub uninterp spec fn date_time_text(t: i64) -> Seq<char>;

/// Relies on chrono's `DateTime::from_timestamp` and the `Display` of
/// `NaiveDateTime`: the text depends on the instant alone; `None` only for
/// instants chrono cannot represent, which lie outside years 1970 to 9999.
#[verifier::external_body]
fn format_date_time(t: i64) -> (r: Option<String>)
    ensures
        r matches Some(s) ==> s@ == date_time_text(t),
        0 <= t <= MAX_CLOCK ==> r is Some,
{
    chrono::DateTime::from_timestamp(t, 0).map(|d| d.naive_utc().to_string())
}

#[derive(Clone, Copy, Debug, PartialEq, Eq, Structural)]
pub enum InvoiceError {
    /// The amount lies outside 10 000 to 10 000 000.
    AmountOutOfRange,
    /// The invoice date cannot be written as a date (it lies outside years
    /// 1970 to 9999).
    BadDate,
}

/// Tax and total of an amount: `tax = floor(amount * 11 / 100)`,
/// `total = amount + tax`.
pub open spec fn amounts_spec(amount: int) -> (int, int) {
    (amount * TAX_RATE / 100, amount + amount * TAX_RATE / 100)
}

/// Tax and total of an invoice amount; the amount must lie between 10 000
/// and 10 000 000.
pub fn invoice_amounts(amount: i64) -> (r: Result<(i64, i64), InvoiceError>)
    ensures
        (MIN_AMOUNT <= amount <= MAX_AMOUNT) ==> (r matches Ok((tax, total)) && (tax as int, total as int)
            == amounts_spec(amount as int)),
        !(MIN_AMOUNT <= amount <= MAX_AMOUNT) ==> r == Err::<(i64, i64), InvoiceError>(
            InvoiceError::AmountOutOfRange,
        ),
{
    if amount < MIN_AMOUNT || amount > MAX_AMOUNT {
        return Err(InvoiceError::AmountOutOfRange);
    }
    let tax = amount * TAX_RATE / 100;
    Ok((tax, amount + tax))
}

/// `INVC-{creator_id}-{unix_seconds}`.
pub fn invoice_number(creator_id: &str, now: i64) -> (r: String)
    ensures
        r@ == "INVC-"@ + creator_id@ + "-"@ + decimal_text(now as int),
{
    let mut s = String::from_str("INVC-");
    s.append(creator_id);
    s.append("-");
    let t = int_text(now);
    s.append(t.as_str());
    s
}

/// An invoice as the dispatch pipeline reads it; the date is in seconds
/// since the epoch.
#[derive(Clone, Debug)]
pub struct Invoice {
    pub id: String,
    pub invoice_number: String,
    pub merchant_id: String,
    pub customer_id: String,
    pub amount: i64,
    pub total_amount: i64,
    pub tax_amount: i64,
    pub tax_rate: i64,
    pub invoice_date: i64,
    pub created_by: String,
    pub title: Option<String>,
    pub description: Option<String>,
}

pub open spec fn summary_spec(customer_id: Seq<char>, total: int, date: Seq<char>) -> Seq<char> {
    "customer_id: "@ + customer_id + ", total_amount: "@ + decimal_text(total)
        + ", invoice_date: "@ + date
}

impl Invoice {
    /// The one-line summary sent to the payment provider as the invoice's
    /// description.
    pub fn to_string(&self) -> (r: Result<String, InvoiceError>)
        ensures
            r matches Ok(s) ==> s@ == summary_spec(
                self.customer_id@,
                self.total_amount as int,
                date_time_text(self.invoice_date),
            ),
            r is Err ==> r == Err::<String, InvoiceError>(InvoiceError::BadDate),
            0 <= self.invoice_date <= MAX_CLOCK ==> r is Ok,
    {
        let date = match format_date_time(self.invoice_date) {
            Some(d) => d,
            None => {
                return Err(InvoiceError::BadDate);
            },
        };
        let mut s = String::from_str("customer_id: ");
        s.append(self.customer_id.as_str());
        s.append(", total_amount: ");
        let t = int_text(self.total_amount);
        s.append(t.as_str());
        s.append(", invoice_date: ");
        s.append(date.as_str());
        Ok(s)
    }
}

/// What the promoter writes and sends when it prepares an invoice job at
/// `now`: the invoice dated `now`, the job's payload with the same date, and
/// the payment-link request (external id, amount, description).
#[derive(Clone, Debug)]
pub struct InvoicePreparation {
    pub invoice: Invoice,
    pub job_data: JobData,
    pub external_id: String,
    pub amount: i64,
    pub description: String,
}

/// Prepares an invoice job at `now`.
pub fn prepare_invoice(invoice: &Invoice, data: &JobData, now: i64) -> (r: Result<
    InvoicePreparation,
    InvoiceError,
>)
    ensures
        r matches Ok(p) ==> {
            &&& p.invoice == (Invoice { invoice_date: now, ..*invoice })
            &&& p.job_data == (JobData { invoice_date: Some(now), ..*data })
            &&& p.external_id@ == invoice.invoice_number@
            &&& p.amount == invoice.total_amount
            &&& p.description@ == summary_spec(
                invoice.customer_id@,
                invoice.total_amount as int,
                date_time_text(now),
            )
        },
        r is Err ==> r == Err::<InvoicePreparation, InvoiceError>(InvoiceError::BadDate),
        0 <= now <= MAX_CLOCK ==> r is Ok,
{
    let dated = Invoice {
        id: invoice.id.clone(),
        invoice_number: invoice.invoice_number.clone(),
        merchant_id: invoice.merchant_id.clone(),
        customer_id: invoice.customer_id.clone(),
        amount: invoice.amount,
        total_amount: invoice.total_amount,
        tax_amount: invoice.tax_amount,
        tax_rate: invoice.tax_rate,
        invoice_date: now,
        created_by: invoice.created_by.clone(),
        title: invoice.title.clone(),
        description: invoice.description.clone(),
    };
    let description = match dated.to_string() {
        Ok(s) => s,
        Err(e) => {
            return Err(e);
        },
    };
    let mut job_data = data.duplicate();
    job_data.invoice_date = Some(now);
    Ok(
        InvoicePreparation {
            external_id: invoice.invoice_number.clone(),
            amount: invoice.total_amount,
            description,
            invoice: dated,
            job_data,
        },
    )
}

} // verus!
