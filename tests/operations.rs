use std::cell::RefCell;

use stripe::client::{Client, Response};
use stripe::error::Error;
use stripe::list::List;
use stripe::payment_intents::{
    PaymentErrorType, PaymentIntent, PaymentIntentCancelParams, PaymentIntentConfirmParams,
    PaymentIntentCreateParams, PaymentIntentListParams, PaymentIntentStatus,
};
use stripe::payout::{Payout, PayoutStatus, PayoutType};
use stripe::client::Identifiable;

/// A transport that answers from a queue and records what it was asked.
struct Double {
    answers: RefCell<Vec<Result<Response, String>>>,
    sent: RefCell<Vec<(String, String, Option<String>)>>,
}

impl Double {
    fn new(answers: Vec<Result<Response, String>>) -> Double {
        Double { answers: RefCell::new(answers), sent: RefCell::new(Vec::new()) }
    }

    fn next(&self) -> Result<Response, String> {
        self.answers.borrow_mut().remove(0)
    }
}

impl Client for Double {
    fn get(&self, path: &str) -> Result<Response, String> {
        self.sent.borrow_mut().push(("GET".to_string(), path.to_string(), None));
        self.next()
    }

    fn post(&self, path: &str, body: &str) -> Result<Response, String> {
        self.sent.borrow_mut().push(("POST".to_string(), path.to_string(), Some(body.to_string())));
        self.next()
    }

    fn post_empty(&self, path: &str) -> Result<Response, String> {
        self.sent.borrow_mut().push(("POST".to_string(), path.to_string(), None));
        self.next()
    }
}

fn ok(body: &str) -> Result<Response, String> {
    Ok(Response { status: 200, body: body.as_bytes().to_vec() })
}

fn intent_json(id: &str, status: &str) -> String {
    format!(
        r#"{{"id":"{}","object":"payment_intent","allowed_source_types":["card"],"amount":1000,
        "amount_capturable":0,"amount_received":0,"application":null,"application_fee_amount":null,
        "canceled_at":null,"cancellation_reason":null,"capture_method":"automatic",
        "client_secret":"secret","confirmation_method":"publishable","created":1546300800,
        "currency":"usd","customer":null,"description":null,"last_payment_error":null,
        "livemode":false,"metadata":{{"order":"42"}},"next_source_action":null,"on_behalf_of":null,
        "receipt_email":null,"review":null,"source":"src_1","statement_descriptor":null,
        "status":"{}","transfer_data":null,"transfer_group":null}}"#,
        id, status
    )
}

fn page_json(ids: &[&str], has_more: bool) -> String {
    let items: Vec<String> = ids.iter().map(|id| intent_json(id, "succeeded")).collect();
    format!(
        r#"{{"object":"list","data":[{}],"has_more":{},"url":"/v1/payment_intents"}}"#,
        items.join(","),
        has_more
    )
}

#[test]
fn create_then_cancel() {
    let t = Double::new(vec![
        ok(&intent_json("pi_123", "requires_confirmation")),
        ok(&intent_json("pi_123", "canceled")),
    ]);
    let params = PaymentIntentCreateParams {
        amount: 1000,
        currency: "usd".to_string(),
        ..Default::default()
    };
    let created = PaymentIntent::create(&t, params).unwrap();
    assert_eq!(created.id(), "pi_123");
    assert_eq!(created.status, PaymentIntentStatus::RequiresConfirmation);
    assert_eq!(created.metadata.get("order").map(|s| s.as_str()), Some("42"));
    assert_eq!(created.allowed_source_types, vec!["card".to_string()]);
    assert_eq!(created.amount, 1000);
    assert_eq!(created.created, 1546300800);
    assert_eq!(created.currency, "usd");
    assert_eq!(created.customer, None);
    assert_eq!(created.client_secret.as_deref(), Some("secret"));
    assert!(!created.livemode);
    let canceled =
        PaymentIntent::cancel(&t, "pi_123", PaymentIntentCancelParams { cancellation_reason: None })
            .unwrap();
    assert_eq!(canceled.status, PaymentIntentStatus::Canceled);
    let sent = t.sent.borrow();
    assert_eq!(
        sent[0],
        ("POST".to_string(), "/payment_intents".to_string(), Some("amount=1000&currency=usd".to_string()))
    );
    assert_eq!(
        sent[1],
        ("POST".to_string(), "/payment_intents/pi_123/cancel".to_string(), Some(String::new()))
    );
}

#[test]
fn unknown_status_decodes_as_other() {
    let t = Double::new(vec![ok(&intent_json("pi_7", "requires_payment_method"))]);
    let p = PaymentIntent::retrieve(&t, "pi_7").unwrap();
    assert_eq!(p.status, PaymentIntentStatus::Other);
    assert_eq!(t.sent.borrow()[0].1, "/payment_intents/pi_7");
}

#[test]
fn card_declined_is_an_api_error() {
    let body = r#"{"error":{"type":"card_error","code":"card_declined","message":"Your card was declined."}}"#;
    let t = Double::new(vec![Ok(Response { status: 402, body: body.as_bytes().to_vec() })]);
    let r = PaymentIntent::confirm(&t, "pi_123", PaymentIntentConfirmParams::default());
    match r {
        Err(Error::Api { status, error }) => {
            assert_eq!(status, 402);
            assert_eq!(error.payment_error_type, PaymentErrorType::Card);
            assert_eq!(error.code.as_deref(), Some("card_declined"));
            assert_eq!(error.message.as_deref(), Some("Your card was declined."));
            assert_eq!(error.param, None);
        },
        other => panic!("unexpected result {:?}", other),
    }
    assert_eq!(t.sent.borrow()[0].1, "/payment_intents/pi_123/confirm");
}

#[test]
fn error_without_envelope_is_a_decode_error() {
    let t = Double::new(vec![Ok(Response { status: 500, body: b"<html>oops</html>".to_vec() })]);
    assert!(matches!(PaymentIntent::retrieve(&t, "pi_1"), Err(Error::Decode)));
}

#[test]
fn transport_failure_is_passed_on() {
    let t = Double::new(vec![Err("connection reset".to_string())]);
    match PaymentIntent::retrieve(&t, "pi_1") {
        Err(Error::Transport(m)) => assert_eq!(m, "connection reset"),
        other => panic!("unexpected result {:?}", other),
    }
}

#[test]
fn body_of_wrong_shape_is_a_decode_error() {
    let t = Double::new(vec![ok(r#"{"id":"pi_1"}"#), ok("not json")]);
    assert!(matches!(PaymentIntent::retrieve(&t, "pi_1"), Err(Error::Decode)));
    assert!(matches!(PaymentIntent::retrieve(&t, "pi_1"), Err(Error::Decode)));
}

#[test]
fn pagination_visits_each_page_once_in_order() {
    let t = Double::new(vec![
        ok(&page_json(&["pi_1", "pi_2"], true)),
        ok(&page_json(&["pi_3", "pi_4"], true)),
        ok(&page_json(&["pi_5"], false)),
    ]);
    let params = PaymentIntentListParams { limit: Some(2), ..Default::default() };
    let mut page: List<PaymentIntent> = PaymentIntent::list(&t, params.clone()).unwrap();
    let mut seen: Vec<String> = page.data().iter().map(|p| p.id.clone()).collect();
    let mut fetched = 1;
    while page.has_more() {
        page = page.next_page(&t, &params).unwrap();
        fetched += 1;
        seen.extend(page.data().iter().map(|p| p.id.clone()));
    }
    assert_eq!(fetched, 3);
    assert_eq!(seen, vec!["pi_1", "pi_2", "pi_3", "pi_4", "pi_5"]);
    assert!(!page.has_more());
    let sent = t.sent.borrow();
    assert_eq!(sent.len(), 3);
    assert_eq!(sent[0].1, "/payment_intents?limit=2");
    assert_eq!(sent[1].1, "/payment_intents?limit=2&starting_after=pi_2");
    assert_eq!(sent[2].1, "/payment_intents?limit=2&starting_after=pi_4");
}

#[test]
fn next_page_cursor_is_last_id_and_replaces_old_cursors() {
    let t = Double::new(vec![
        ok(&page_json(&["pi_a", "pi_b"], true)),
        ok(&page_json(&[], false)),
    ]);
    let params = PaymentIntentListParams {
        starting_after: Some("pi_old".to_string()),
        ending_before: Some("pi_older".to_string()),
        ..Default::default()
    };
    let page = PaymentIntent::list(&t, params.clone()).unwrap();
    let req = page.next_page_request(&params).unwrap();
    assert_eq!(req.path, "/payment_intents?starting_after=pi_b");
    let next = page.next_page(&t, &params).unwrap();
    assert_eq!(next.data().len(), 0);
    assert_eq!(t.sent.borrow()[1].1, "/payment_intents?starting_after=pi_b");
    let back = page.previous_page_request(&params).unwrap();
    assert_eq!(back.path, "/payment_intents?ending_before=pi_a");
}

#[test]
fn last_page_fetches_nothing() {
    let t = Double::new(vec![ok(&page_json(&["pi_1"], false))]);
    let params = PaymentIntentListParams::default();
    let page = PaymentIntent::list(&t, params.clone()).unwrap();
    let next = page.next_page(&t, &params).unwrap();
    assert_eq!(next.data().len(), 0);
    assert!(!next.has_more());
    assert_eq!(t.sent.borrow().len(), 1);
}

#[test]
fn empty_page_with_more_is_an_invalid_cursor() {
    let t = Double::new(vec![ok(&page_json(&[], true))]);
    let params = PaymentIntentListParams::default();
    let page = PaymentIntent::list(&t, params.clone()).unwrap();
    assert!(matches!(page.next_page(&t, &params), Err(Error::InvalidCursor)));
    assert_eq!(t.sent.borrow().len(), 1);
}

fn payout_json(id: &str, status: &str) -> String {
    format!(
        r#"{{"id":"{}","object":"payout","amount":500,"arrival_date":1546387200,
        "balance_transaction":"txn_1","created":1546300800,"currency":"usd","description":"STRIPE PAYOUT",
        "destination":"ba_1","failure_balance_transaction":null,"failure_code":"account_closed",
        "failure_message":null,"livemode":true,"metadata":{{}},"method":"standard",
        "source_type":"card","statement_descriptor":null,"status":"{}","type":"bank_account"}}"#,
        id, status
    )
}

#[test]
fn payout_cancel_posts_without_body() {
    let t = Double::new(vec![ok(&payout_json("po_1", "canceled"))]);
    let p = Payout::cancel(&t, "po_1").unwrap();
    assert_eq!(p.id(), "po_1");
    assert_eq!(p.status, PayoutStatus::Canceled);
    assert_eq!(p.payout_type, PayoutType::BankAccount);
    assert_eq!(p.arrival_date, 1546387200);
    assert_eq!(p.metadata.len(), 0);
    assert_eq!(t.sent.borrow()[0], ("POST".to_string(), "/payouts/po_1/cancel".to_string(), None));
}

#[test]
fn payout_update_sends_metadata() {
    let t = Double::new(vec![ok(&payout_json("po_2", "paid"))]);
    let mut m = stripe::params::Metadata::new();
    m.insert("batch".to_string(), "7".to_string());
    let p = Payout::update(&t, "po_2", Some(m)).unwrap();
    assert_eq!(p.status, PayoutStatus::Paid);
    assert_eq!(
        t.sent.borrow()[0],
        ("POST".to_string(), "/payouts/po_2".to_string(), Some("metadata[batch]=7".to_string()))
    );
}
