use inving::board::JobData;
use inving::invoice::{invoice_amounts, invoice_number, prepare_invoice, Invoice, InvoiceError};
use inving::routing::{bearer_token, merchant_route, parse_tags, split_text, MerchantRoute};

fn invoice() -> Invoice {
    Invoice {
        id: "inv1".to_string(),
        invoice_number: "INVC-u1-1700000000".to_string(),
        merchant_id: "m1".to_string(),
        customer_id: "c1".to_string(),
        amount: 100000,
        total_amount: 111000,
        tax_amount: 11000,
        tax_rate: 11,
        invoice_date: 0,
        created_by: "u1".to_string(),
        title: Some("March".to_string()),
        description: None,
    }
}

#[test]
fn tax_and_total() {
    assert_eq!(invoice_amounts(100000), Ok((11000, 111000)));
    assert_eq!(invoice_amounts(12345), Ok((1357, 13702)));
    assert_eq!(invoice_amounts(10000), Ok((1100, 11100)));
    assert_eq!(invoice_amounts(10000000), Ok((1100000, 11100000)));
    assert_eq!(invoice_amounts(9999), Err(InvoiceError::AmountOutOfRange));
    assert_eq!(invoice_amounts(10000001), Err(InvoiceError::AmountOutOfRange));
}

#[test]
fn invoice_numbers() {
    assert_eq!(invoice_number("u1", 1700000000), "INVC-u1-1700000000");
}

#[test]
fn invoice_summary() {
    assert_eq!(invoice().to_string().unwrap(), "customer_id: c1, total_amount: 111000, invoice_date: 1970-01-01 00:00:00");
}

#[test]
fn preparation_dates_invoice_and_payload() {
    let d = JobData {
        invoice_id: Some("inv1".to_string()),
        created_by: Some("u1".to_string()),
        customer_id: Some("c1".to_string()),
        customer_name: Some("Bob".to_string()),
        merchant_id: Some("m1".to_string()),
        merchant_name: Some("Shop".to_string()),
        title: None,
        description: None,
        total_amount: Some(111000),
        invoice_date: Some(0),
    };
    let p = prepare_invoice(&invoice(), &d, 86400).unwrap();
    assert_eq!(p.invoice.invoice_date, 86400);
    assert_eq!(p.job_data.invoice_date, Some(86400));
    assert_eq!(p.job_data.customer_name.as_deref(), Some("Bob"));
    assert_eq!(p.external_id, "INVC-u1-1700000000");
    assert_eq!(p.amount, 111000);
    assert_eq!(p.description, "customer_id: c1, total_amount: 111000, invoice_date: 1970-01-02 00:00:00");
}

#[test]
fn bearer_tokens() {
    assert_eq!(bearer_token("Bearer abc123"), Some("abc123".to_string()));
    assert_eq!(bearer_token("Bearer"), None);
    assert_eq!(bearer_token("Bearer a b"), None);
    assert_eq!(bearer_token(""), None);
    assert_eq!(bearer_token("Bearer "), Some("".to_string()));
    assert_eq!(bearer_token("Basic abc123"), None);
}

#[test]
fn merchant_paths() {
    assert!(matches!(merchant_route("/merchant/123/customer"), MerchantRoute::Merchant(ref id) if id == "123"));
    assert!(matches!(merchant_route("/merchant/abc"), MerchantRoute::Merchant(ref id) if id == "abc"));
    assert!(matches!(merchant_route("/merchant"), MerchantRoute::Other));
    assert!(matches!(merchant_route("/users"), MerchantRoute::Other));
    assert!(matches!(merchant_route(""), MerchantRoute::Other));
}

#[test]
fn tag_filters() {
    assert_eq!(parse_tags(&Some("vip,new".to_string())), vec!["vip".to_string(), "new".to_string()]);
    assert_eq!(parse_tags(&Some("vip".to_string())), vec!["vip".to_string()]);
    assert_eq!(parse_tags(&Some("vip,".to_string())), vec!["vip".to_string(), "".to_string()]);
    assert!(parse_tags(&Some("".to_string())).is_empty());
    assert!(parse_tags(&None).is_empty());
    assert_eq!(split_text("a,,b", ','), vec!["a".to_string(), "".to_string(), "b".to_string()]);
    assert_eq!(split_text("", ','), vec!["".to_string()]);
}
