use stripe::form::{decimal_string, encode_form, FormField};
use stripe::params::{Metadata, RangeQuery};
use stripe::payment_intents::{
    CancellationReason, CaptureMethod, PaymentIntentCancelParams, PaymentIntentCreateParams,
    PaymentIntentListParams, PaymentIntentStatus, PaymentErrorType, TransferData,
};
use stripe::payout::{PayoutFailureCode, PayoutStatus, PayoutType};

fn range_text(q: &RangeQuery) -> String {
    let mut fields = Vec::new();
    q.push_fields("created", &mut fields);
    encode_form(&fields)
}

#[test]
fn decimal_text_of_numbers() {
    assert_eq!(decimal_string(0), "0");
    assert_eq!(decimal_string(1546300800), "1546300800");
    assert_eq!(decimal_string(-42), "-42");
    assert_eq!(decimal_string(i64::MIN), "-9223372036854775808");
}

#[test]
fn form_escapes_reserved_bytes() {
    let fields = vec![
        FormField::plain("description", "a b&c=d".to_string()),
        FormField::nested("metadata", "käy".to_string(), "x/y".to_string()),
    ];
    assert_eq!(
        encode_form(&fields),
        "description=a+b%26c%3Dd&metadata[k%C3%A4y]=x%2Fy"
    );
}

#[test]
fn empty_form_is_empty_text() {
    assert_eq!(encode_form(&Vec::new()), "");
}

#[test]
fn range_with_no_bound_encodes_nothing() {
    assert_eq!(range_text(&RangeQuery::new()), "");
}

#[test]
fn range_encodes_each_set_bound() {
    let q = RangeQuery { gt: Some(5), gte: None, lt: None, lte: Some(10) };
    assert_eq!(range_text(&q), "created[gt]=5&created[lte]=10");
    let all = RangeQuery { gt: Some(1), gte: Some(2), lt: Some(-3), lte: Some(4) };
    assert_eq!(
        range_text(&all),
        "created[gt]=1&created[gte]=2&created[lt]=-3&created[lte]=4"
    );
}

#[test]
fn range_bounds_read_back() {
    let q = RangeQuery { gt: None, gte: Some(1546300800), lt: Some(1546387200), lte: None };
    let mut fields = Vec::new();
    q.push_fields("created", &mut fields);
    assert_eq!(fields.len(), 2);
    assert_eq!(fields[0].sub.as_deref(), Some("gte"));
    assert_eq!(fields[0].value.parse::<i64>().unwrap(), 1546300800);
    assert_eq!(fields[1].sub.as_deref(), Some("lt"));
    assert_eq!(fields[1].value.parse::<i64>().unwrap(), 1546387200);
}

#[test]
fn metadata_keeps_insertion_order_and_replaces_in_place() {
    let mut m = Metadata::new();
    m.insert("b".to_string(), "1".to_string());
    m.insert("a".to_string(), "2".to_string());
    m.insert("b".to_string(), "3".to_string());
    assert_eq!(m.len(), 2);
    let (k0, v0) = m.entry(0);
    assert_eq!((k0.as_str(), v0.as_str()), ("b", "3"));
    let (k1, v1) = m.entry(1);
    assert_eq!((k1.as_str(), v1.as_str()), ("a", "2"));
    assert_eq!(m.get("a").map(|s| s.as_str()), Some("2"));
    assert_eq!(m.get("A"), None);
}

#[test]
fn metadata_round_trips_through_fields() {
    let mut m = Metadata::new();
    m.insert("order_id".to_string(), "6735".to_string());
    m.insert("note".to_string(), "gift wrap".to_string());
    let mut fields = Vec::new();
    m.push_fields("metadata", &mut fields);
    assert_eq!(encode_form(&fields), "metadata[order_id]=6735&metadata[note]=gift+wrap");
    let back = Metadata::from_fields(&fields, "metadata");
    assert_eq!(back.len(), 2);
    assert_eq!(back.entry(0).0.as_str(), "order_id");
    assert_eq!(back.entry(0).1.as_str(), "6735");
    assert_eq!(back.entry(1).0.as_str(), "note");
    assert_eq!(back.entry(1).1.as_str(), "gift wrap");
}

#[test]
fn empty_metadata_encodes_to_no_field() {
    let params = PaymentIntentCreateParams {
        amount: 1000,
        currency: "usd".to_string(),
        metadata: Some(Metadata::new()),
        ..Default::default()
    };
    assert_eq!(encode_form(&params.to_form()), "amount=1000&currency=usd");
}

#[test]
fn create_params_encode_in_field_order() {
    let mut m = Metadata::new();
    m.insert("k".to_string(), "v".to_string());
    let params = PaymentIntentCreateParams {
        allowed_source_types: vec!["card".to_string()],
        amount: 1000,
        currency: "usd".to_string(),
        capture_method: Some(CaptureMethod::Manual),
        confirm: Some(true),
        metadata: Some(m),
        transfer_data: Some(TransferData { destination: Some("acct_1".to_string()) }),
        ..Default::default()
    };
    assert_eq!(
        encode_form(&params.to_form()),
        "allowed_source_types[0]=card&amount=1000&currency=usd&capture_method=manual&confirm=true&metadata[k]=v&transfer_data[destination]=acct_1"
    );
}

#[test]
fn list_params_encode_range_and_cursor() {
    let params = PaymentIntentListParams {
        created: Some(RangeQuery { gt: Some(100), gte: None, lt: None, lte: None }),
        limit: Some(3),
        starting_after: Some("pi_9".to_string()),
        ..Default::default()
    };
    assert_eq!(
        encode_form(&stripe::list::ListParams::to_form(&params)),
        "created[gt]=100&limit=3&starting_after=pi_9"
    );
}

#[test]
fn cancel_params_encode_reason() {
    let p = PaymentIntentCancelParams { cancellation_reason: Some(CancellationReason::RequestedByCustomer) };
    assert_eq!(encode_form(&p.to_form()), "cancellation_reason=requested_by_customer");
    assert_eq!(encode_form(&PaymentIntentCancelParams::default().to_form()), "");
}

#[test]
fn unknown_enum_names_read_as_other() {
    assert_eq!(PaymentIntentStatus::from_wire("requires_payment_method"), PaymentIntentStatus::Other);
    assert_eq!(PaymentIntentStatus::from_wire("requires_capture"), PaymentIntentStatus::RequiresCapture);
    assert_eq!(PaymentIntentStatus::from_wire(""), PaymentIntentStatus::Other);
    assert_eq!(PayoutStatus::from_wire("in_transit"), PayoutStatus::InTransit);
    assert_eq!(PayoutStatus::from_wire("IN_TRANSIT"), PayoutStatus::Other);
    assert_eq!(PayoutFailureCode::from_wire("no_account"), PayoutFailureCode::NoAccount);
    assert_eq!(PayoutType::from_wire("bank_account"), PayoutType::BankAccount);
    assert_eq!(PaymentErrorType::from_wire("card_error"), PaymentErrorType::Card);
    assert_eq!(PaymentErrorType::from_wire("something_new"), PaymentErrorType::Other);
}

#[test]
fn enum_names_as_the_api_writes_them() {
    assert_eq!(PaymentIntentStatus::RequiresSourceAction.as_str(), "requires_source_action");
    assert_eq!(PayoutFailureCode::IncorrectAccountHolderName.as_str(), "incorrect_account_holder_name");
    assert_eq!(PaymentErrorType::RateLimit.as_str(), "rate_limit_error");
    assert_eq!(CaptureMethod::Automatic.as_str(), "automatic");
}

#[test]
fn metadata_from_pairs_keeps_first_position_of_repeated_key() {
    let m = Metadata::from_pairs(vec![
        ("x".to_string(), "1".to_string()),
        ("y".to_string(), "2".to_string()),
        ("x".to_string(), "3".to_string()),
    ]);
    assert_eq!(m.len(), 2);
    assert_eq!(m.entry(0).0.as_str(), "x");
    assert_eq!(m.entry(0).1.as_str(), "3");
    assert_eq!(m.entry(1).0.as_str(), "y");
    assert!(Metadata::from_pairs(Vec::new()).is_empty());
}

#[test]
fn range_field_count_matches_set_bounds() {
    for mask in 0u32..16 {
        let pick = |bit: u32, v: i64| if mask & (1 << bit) != 0 { Some(v) } else { None };
        let q = RangeQuery { gt: pick(0, 10), gte: pick(1, 20), lt: pick(2, 30), lte: pick(3, 40) };
        let mut fields = Vec::new();
        q.push_fields("arrival_date", &mut fields);
        assert_eq!(fields.len() as u32, mask.count_ones());
        for f in &fields {
            assert_eq!(f.name, "arrival_date");
            let v: i64 = f.value.parse().unwrap();
            let expected = match f.sub.as_deref() {
                Some("gt") => q.gt,
                Some("gte") => q.gte,
                Some("lt") => q.lt,
                Some("lte") => q.lte,
                _ => None,
            };
            assert_eq!(Some(v), expected);
        }
    }
}
