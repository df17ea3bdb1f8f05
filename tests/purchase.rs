use ppob_ledger::catalog::ProductEntry;
use ppob_ledger::error::{FlowError, Invalid, LedgerError, Missing};
use ppob_ledger::provider::{ProviderConfig, ProviderReply};
use ppob_ledger::saga::{
    Action, DigiflazzPascaInquiryReq, Event, PayOrder, PrepaidOrder, Saga, StoredTx, TxStatus,
};

fn config() -> ProviderConfig {
    ProviderConfig {
        username: "user".to_string(),
        dev_key: "dev".to_string(),
        prod_key: "prod".to_string(),
        use_production: false,
    }
}

fn unusable() -> ProviderConfig {
    ProviderConfig {
        username: String::new(),
        dev_key: String::new(),
        prod_key: String::new(),
        use_production: false,
    }
}

fn order(pin: &str) -> PrepaidOrder {
    PrepaidOrder {
        pin: pin.to_string(),
        buyer_sku_code: "xld10".to_string(),
        customer_no: "0812".to_string(),
        commands: None,
    }
}

fn product(price: i64) -> ProductEntry {
    ProductEntry {
        category: "Pulsa".to_string(),
        brand: "XL".to_string(),
        product_type: "Umum".to_string(),
        price,
    }
}

fn ok_reply(body: &str) -> Event {
    Event::Replied(ProviderReply::Answered { status: 200, body: body.to_string() })
}

/// A toy ledger account that applies the saga's money actions.
struct Account {
    balance: i64,
    debit_calls: usize,
    credit_calls: usize,
}

impl Account {
    fn apply(&mut self, a: &Action) {
        match a {
            Action::Debit { amount } => {
                self.balance -= amount;
                self.debit_calls += 1;
            }
            Action::Credit { amount } => {
                self.balance += amount;
                self.credit_calls += 1;
            }
            _ => {}
        }
    }
}

/// Drives a prepaid purchase up to the provider's answer to the purchase.
fn prepaid_until_submitted(account: &mut Account) -> Saga {
    let mut s = Saga::prepaid(config(), order("123456"), "ref-1".to_string());
    let events = vec![
        Event::Start,
        Event::PinChecked(true),
        Event::Product(Some(product(5000))),
        ok_reply(r#"{"data":{"deposit":100000}}"#),
        Event::Debited(Ok(())),
        Event::Saved(Some(7)),
    ];
    for e in events {
        let a = s.step(e);
        account.apply(&a);
    }
    s
}

#[test]
fn prepaid_success_debits_price_once() {
    let mut account = Account { balance: 20000, debit_calls: 0, credit_calls: 0 };
    let mut s = prepaid_until_submitted(&mut account);
    let sukses = r#"{"data":{"status":"Sukses","rc":"00","message":"Transaksi Sukses","sn":"SN1"}}"#;
    let a = s.step(ok_reply(sukses));
    assert!(matches!(a, Action::Wait));
    let a = s.step(Event::Waited);
    match &a {
        Action::Submit(req) => {
            assert!(req.commands.is_none());
            assert_eq!(req.ref_id, "ref-1");
            assert_eq!(req.sign, "82d80a7460d85978e46de39b348b48a0");
        }
        _ => panic!("expected a status query"),
    }
    let a = s.step(ok_reply(sukses));
    match &a {
        Action::UpdateRecord { tx_id, ref_id, status, obs } => {
            assert_eq!(*tx_id, 7);
            assert_eq!(ref_id, "ref-1");
            assert_eq!(*status, TxStatus::Success);
            assert_eq!(obs.rc, "00");
            assert_eq!(obs.sn.as_deref(), Some("SN1"));
        }
        _ => panic!("expected a record update"),
    }
    let a = s.step(Event::Updated);
    assert!(matches!(a, Action::Finish));
    assert!(s.is_done());
    assert!(matches!(s.outcome, Some(Ok(_))));
    assert_eq!(account.balance, 15000);
    assert_eq!(account.debit_calls, 1);
    assert_eq!(account.credit_calls, 0);
}

#[test]
fn prepaid_gagal_is_reversed() {
    let mut account = Account { balance: 20000, debit_calls: 0, credit_calls: 0 };
    let mut s = prepaid_until_submitted(&mut account);
    let a = s.step(ok_reply(r#"{"data":{"status":"Gagal","rc":"40","message":"gagal"}}"#));
    assert!(matches!(a, Action::Credit { amount: 5000 }));
    account.apply(&a);
    let a = s.step(Event::Credited(true));
    match &a {
        Action::UpdateRecord { status, obs, .. } => {
            assert_eq!(*status, TxStatus::Reversed);
            assert_eq!(status.label(), "REVERSED");
            assert_eq!(obs.rc, "40");
        }
        _ => panic!("expected a record update"),
    }
    let a = s.step(Event::Updated);
    assert!(matches!(a, Action::Finish));
    assert!(matches!(s.outcome, Some(Err(FlowError::BusinessFailure))));
    assert_eq!(account.balance, 20000);
    assert_eq!(account.debit_calls, 1);
    assert_eq!(account.credit_calls, 1);
}

#[test]
fn prepaid_http_error_is_reversed() {
    let mut account = Account { balance: 9000, debit_calls: 0, credit_calls: 0 };
    let mut s = prepaid_until_submitted(&mut account);
    let a = s.step(Event::Replied(ProviderReply::Answered {
        status: 502,
        body: "bad gateway".to_string(),
    }));
    account.apply(&a);
    assert!(matches!(a, Action::Credit { amount: 5000 }));
    let a = s.step(Event::Credited(true));
    match &a {
        Action::UpdateRecord { obs, .. } => {
            assert_eq!(obs.message, "digiflazz http error");
            assert_eq!(obs.rc, "502");
            assert_eq!(obs.response.as_deref(), Some("bad gateway"));
        }
        _ => panic!("expected a record update"),
    }
    s.step(Event::Updated);
    assert!(matches!(s.outcome, Some(Err(FlowError::ExternalService))));
    assert_eq!(account.balance, 9000);
}

#[test]
fn prepaid_failed_confirmation_is_reversed() {
    let mut account = Account { balance: 5000, debit_calls: 0, credit_calls: 0 };
    let mut s = prepaid_until_submitted(&mut account);
    s.step(ok_reply(r#"{"data":{"status":"Pending"}}"#));
    s.step(Event::Waited);
    let a = s.step(ok_reply(r#"{"data":{"status":" FAILED "}}"#));
    account.apply(&a);
    assert!(matches!(a, Action::Credit { amount: 5000 }));
    assert_eq!(account.balance, 5000);
}

#[test]
fn prepaid_pending_is_not_reversed() {
    let mut account = Account { balance: 5000, debit_calls: 0, credit_calls: 0 };
    let mut s = prepaid_until_submitted(&mut account);
    s.step(ok_reply(r#"{"data":{"status":"Pending"}}"#));
    s.step(Event::Waited);
    let a = s.step(ok_reply(r#"{"data":{"status":"Pending"}}"#));
    match &a {
        Action::UpdateRecord { status, .. } => assert_eq!(*status, TxStatus::Submitted),
        _ => panic!("expected a record update"),
    }
    assert_eq!(account.balance, 0);
    assert_eq!(account.credit_calls, 0);
}

#[test]
fn five_digit_pin_is_refused_without_calls() {
    let mut s = Saga::prepaid(config(), order("12345"), "ref-1".to_string());
    let a = s.step(Event::Start);
    assert!(matches!(a, Action::Finish));
    assert!(s.is_done());
    assert!(matches!(
        s.outcome,
        Some(Err(FlowError::Validation(Invalid::PinFormat)))
    ));
    assert_eq!(s.debits, 0);
}

#[test]
fn pin_is_trimmed_before_checking() {
    let mut s = Saga::prepaid(config(), order(" 123456 "), "ref-1".to_string());
    match s.step(Event::Start) {
        Action::VerifyPin { pin } => assert_eq!(pin, "123456"),
        _ => panic!("expected a PIN check"),
    }
}

#[test]
fn wrong_pin_is_unauthorized() {
    let mut s = Saga::prepaid(config(), order("123456"), "ref-1".to_string());
    s.step(Event::Start);
    let a = s.step(Event::PinChecked(false));
    assert!(matches!(a, Action::Finish));
    assert!(matches!(s.outcome, Some(Err(FlowError::Authorization))));
}

#[test]
fn unknown_product_is_not_found() {
    let mut s = Saga::prepaid(config(), order("123456"), "ref-1".to_string());
    s.step(Event::Start);
    s.step(Event::PinChecked(true));
    s.step(Event::Product(None));
    assert!(matches!(s.outcome, Some(Err(FlowError::NotFound(Missing::Product)))));
}

#[test]
fn balance_request_is_signed_with_depo() {
    let mut s = Saga::prepaid(config(), order("123456"), "ref-1".to_string());
    s.step(Event::Start);
    s.step(Event::PinChecked(true));
    match s.step(Event::Product(Some(product(5000)))) {
        Action::CheckBalance(req) => {
            assert_eq!(req.cmd, "deposit");
            assert_eq!(req.username, "user");
            assert_eq!(req.sign, "0cfd8287f6136e935c18b67a0c302ac0");
        }
        _ => panic!("expected a balance check"),
    }
}

#[test]
fn low_provider_deposit_stops_before_debit() {
    let mut s = Saga::prepaid(config(), order("123456"), "ref-1".to_string());
    s.step(Event::Start);
    s.step(Event::PinChecked(true));
    s.step(Event::Product(Some(product(5000))));
    let a = s.step(ok_reply(r#"{"data":{"deposit":4999}}"#));
    assert!(matches!(a, Action::Finish));
    assert!(matches!(s.outcome, Some(Err(FlowError::InsufficientBalance))));
    assert_eq!(s.debits, 0);
}

#[test]
fn refused_debit_is_not_compensated() {
    let mut s = Saga::prepaid(config(), order("123456"), "ref-1".to_string());
    s.step(Event::Start);
    s.step(Event::PinChecked(true));
    s.step(Event::Product(Some(product(5000))));
    s.step(ok_reply(r#"{"data":{"deposit":5000}}"#));
    let a = s.step(Event::Debited(Err(LedgerError::InsufficientFunds)));
    assert!(matches!(a, Action::Finish));
    assert!(matches!(
        s.outcome,
        Some(Err(FlowError::Ledger(LedgerError::InsufficientFunds)))
    ));
    assert_eq!(s.credits, 0);
}

#[test]
fn failed_record_write_after_debit_is_reversed() {
    let mut s = Saga::prepaid(config(), order("123456"), "ref-1".to_string());
    s.step(Event::Start);
    s.step(Event::PinChecked(true));
    s.step(Event::Product(Some(product(5000))));
    s.step(ok_reply(r#"{"data":{"deposit":5000}}"#));
    match s.step(Event::Debited(Ok(()))) {
        Action::SaveRecord(rec) => {
            assert_eq!(rec.ref_id, "ref-1");
            assert_eq!(rec.amount, 5000);
            assert_eq!(rec.price, 5000);
            assert_eq!(rec.product_type, "Umum");
        }
        _ => panic!("expected a record write"),
    }
    let a = s.step(Event::Saved(None));
    assert!(matches!(a, Action::Credit { amount: 5000 }));
    let a = s.step(Event::Credited(true));
    assert!(matches!(a, Action::Finish));
    assert_eq!(s.credited, 5000);
}

#[test]
fn unusable_configuration_is_refused_before_the_balance_check() {
    let mut cfg = config();
    cfg.use_production = true;
    cfg.prod_key = String::new();
    let mut s = Saga::prepaid(cfg, order("123456"), "ref-1".to_string());
    assert!(matches!(s.step(Event::Start), Action::VerifyPin { .. }));
    s.step(Event::PinChecked(true));
    let a = s.step(Event::Product(Some(product(5000))));
    assert!(matches!(a, Action::Finish));
    assert!(matches!(s.outcome, Some(Err(FlowError::ExternalService))));
    assert_eq!(s.debits, 0);
}

#[test]
fn bad_pin_is_reported_before_configuration() {
    let mut s = Saga::prepaid(unusable(), order("12a456"), "ref-1".to_string());
    s.step(Event::Start);
    assert!(matches!(s.outcome, Some(Err(FlowError::Validation(Invalid::PinFormat)))));
}

#[test]
fn emoney_amount_is_checked_before_configuration() {
    let mut s = Saga::inquiry(unusable(), inquiry("emoney", None), String::new());
    let a = s.step(Event::Start);
    assert!(matches!(a, Action::Finish));
    assert!(matches!(
        s.outcome,
        Some(Err(FlowError::Validation(Invalid::NonPositiveAmount)))
    ));
}

#[test]
fn unknown_transaction_is_reported_before_configuration() {
    let mut s = Saga::status_check(unusable(), "nope".to_string(), false);
    assert!(matches!(s.step(Event::Start), Action::LoadTransaction { .. }));
    s.step(Event::Stored(None));
    assert!(matches!(s.outcome, Some(Err(FlowError::NotFound(Missing::Transaction)))));
    let e = s.caller_error().unwrap();
    assert_eq!(e.status_code(), 404);
    assert_eq!(e.message(), "transaction not found");
}

#[test]
fn payment_with_unusable_configuration_is_not_charged() {
    let mut s = Saga::pay(
        unusable(),
        PayOrder {
            pin: "123456".to_string(),
            ref_id: Some("ref-9".to_string()),
            amount: None,
            year: None,
            testing: None,
        },
    );
    s.step(Event::Start);
    s.step(Event::PinChecked(true));
    s.step(Event::Stored(Some(stored(125000, "pln"))));
    let a = s.step(Event::Product(None));
    assert!(matches!(a, Action::Finish));
    assert!(matches!(s.outcome, Some(Err(FlowError::ExternalService))));
    assert_eq!(s.debits, 0);
}

#[test]
fn provider_http_failure_message_names_status_and_body() {
    let mut s = Saga::inquiry(config(), inquiry("pln", None), String::new());
    s.step(Event::Start);
    s.step(Event::Product(None));
    s.step(Event::Replied(ProviderReply::Answered { status: 503, body: "maintenance".to_string() }));
    s.step(Event::Saved(Some(1)));
    s.step(Event::Updated);
    let e = s.caller_error().unwrap();
    assert_eq!(e.status_code(), 500);
    assert_eq!(e.message(), "digiflazz status 503: maintenance");
    let mut t = Saga::status_check(config(), "ref-1".to_string(), false);
    t.step(Event::Start);
    t.step(Event::Stored(Some(stored(5000, "xld10"))));
    t.step(Event::Saved(Some(2)));
    t.step(Event::Replied(ProviderReply::Answered { status: 404, body: "gone".to_string() }));
    t.step(Event::Updated);
    assert_eq!(t.caller_error().unwrap().message(), "digiflazz status 404: gone");
}

#[test]
fn fractional_deposit_is_read_by_integer_part() {
    let mut s = Saga::prepaid(config(), order("123456"), "ref-1".to_string());
    s.step(Event::Start);
    s.step(Event::PinChecked(true));
    s.step(Event::Product(Some(product(5000))));
    let a = s.step(ok_reply(r#"{"data":{"deposit":150000.5}}"#));
    assert!(matches!(a, Action::Debit { amount: 5000 }));
}

#[test]
fn fresh_ref_id_is_a_uuid() {
    let s = Saga::prepaid_fresh(config(), order("123456"));
    assert_eq!(s.ref_id.len(), 36);
    assert_eq!(s.ref_id.matches('-').count(), 4);
    let t = Saga::prepaid_fresh(config(), order("123456"));
    assert_ne!(s.ref_id, t.ref_id);
}

fn stored(price: i64, sku: &str) -> StoredTx {
    StoredTx {
        buyer_sku_code: sku.to_string(),
        customer_no: "5310".to_string(),
        product_type: "pasca".to_string(),
        amount: 0,
        price,
        status: "INQUIRY".to_string(),
    }
}

#[test]
fn payment_charges_inquired_bill_not_caller_amount() {
    let mut s = Saga::pay(
        config(),
        PayOrder {
            pin: "123456".to_string(),
            ref_id: Some("ref-9".to_string()),
            amount: Some(1),
            year: None,
            testing: Some(true),
        },
    );
    assert!(matches!(s.step(Event::Start), Action::VerifyPin { .. }));
    match s.step(Event::PinChecked(true)) {
        Action::LoadTransaction { ref_id } => assert_eq!(ref_id, "ref-9"),
        _ => panic!("expected a load"),
    }
    assert!(matches!(s.step(Event::Stored(Some(stored(125000, "pln")))), Action::FindProduct { .. }));
    let a = s.step(Event::Product(Some(product(0))));
    assert!(matches!(a, Action::Debit { amount: 125000 }));
    s.step(Event::Debited(Ok(())));
    match s.step(Event::Saved(Some(3))) {
        Action::Submit(req) => {
            assert_eq!(req.commands.as_deref(), Some("pay-pasca"));
            assert_eq!(req.ref_id, "ref-9");
            assert_eq!(req.sign, "72a30caa390e11424fd71ac796169cc8");
            assert_eq!(req.amount, None);
            assert_eq!(req.testing, Some(true));
        }
        _ => panic!("expected the payment call"),
    }
    match s.step(ok_reply(r#"{"data":{"status":"Pending","rc":"03"}}"#)) {
        Action::UpdateRecord { tx_id, status, obs, .. } => {
            assert_eq!(tx_id, 3);
            assert_eq!(status, TxStatus::Submitted);
            assert_eq!(obs.rc, "03");
        }
        _ => panic!("expected the payment reply to be recorded"),
    }
    match s.step(Event::Updated) {
        Action::Submit(req) => assert_eq!(req.commands.as_deref(), Some("status-pasca")),
        _ => panic!("expected the status query"),
    }
    let a = s.step(ok_reply(r#"{"data":{"status":"Sukses"}}"#));
    assert!(matches!(a, Action::UpdateRecord { status: TxStatus::Success, .. }));
    s.step(Event::Updated);
    assert!(matches!(s.outcome, Some(Ok(_))));
}

#[test]
fn payment_without_ref_id_is_refused() {
    let mut s = Saga::pay(
        config(),
        PayOrder { pin: "123456".to_string(), ref_id: None, amount: None, year: None, testing: None },
    );
    s.step(Event::Start);
    assert!(matches!(
        s.outcome,
        Some(Err(FlowError::Validation(Invalid::MissingRefId)))
    ));
}

#[test]
fn payment_of_unknown_inquiry_is_not_found() {
    let mut s = Saga::pay(
        config(),
        PayOrder {
            pin: "123456".to_string(),
            ref_id: Some("nope".to_string()),
            amount: None,
            year: None,
            testing: None,
        },
    );
    s.step(Event::Start);
    s.step(Event::PinChecked(true));
    s.step(Event::Stored(None));
    assert!(matches!(s.outcome, Some(Err(FlowError::NotFound(Missing::Transaction)))));
}

#[test]
fn payment_without_inquired_bill_is_refused() {
    let mut s = Saga::pay(
        config(),
        PayOrder {
            pin: "123456".to_string(),
            ref_id: Some("ref-9".to_string()),
            amount: Some(50000),
            year: None,
            testing: None,
        },
    );
    s.step(Event::Start);
    s.step(Event::PinChecked(true));
    s.step(Event::Stored(Some(stored(0, "pln"))));
    let a = s.step(Event::Product(None));
    assert!(matches!(a, Action::Finish));
    assert!(matches!(
        s.outcome,
        Some(Err(FlowError::Validation(Invalid::InquiryAmountMissing)))
    ));
}

#[test]
fn emoney_payment_sends_recorded_nominal() {
    let mut s = Saga::pay(
        config(),
        PayOrder {
            pin: "123456".to_string(),
            ref_id: Some("ref-9".to_string()),
            amount: None,
            year: None,
            testing: None,
        },
    );
    s.step(Event::Start);
    s.step(Event::PinChecked(true));
    let mut tx = stored(51000, "EMONEY");
    tx.amount = 50000;
    let a = s.step(Event::Stored(Some(tx)));
    assert!(matches!(a, Action::Debit { amount: 51000 }));
    s.step(Event::Debited(Ok(())));
    match s.step(Event::Saved(Some(1))) {
        Action::Submit(req) => assert_eq!(req.amount, Some(50000)),
        _ => panic!("expected the payment call"),
    }
}

#[test]
fn payment_confirmed_failed_is_reversed() {
    let mut s = Saga::pay(
        config(),
        PayOrder {
            pin: "123456".to_string(),
            ref_id: Some("ref-9".to_string()),
            amount: None,
            year: None,
            testing: None,
        },
    );
    s.step(Event::Start);
    s.step(Event::PinChecked(true));
    s.step(Event::Stored(Some(stored(125000, "pln"))));
    s.step(Event::Product(None));
    s.step(Event::Debited(Ok(())));
    s.step(Event::Saved(Some(3)));
    match s.step(Event::Replied(ProviderReply::Answered { status: 500, body: "down".to_string() })) {
        Action::UpdateRecord { obs, .. } => {
            assert_eq!(obs.rc, "500");
            assert_eq!(obs.message, "digiflazz http error");
        }
        _ => panic!("expected the payment reply to be recorded"),
    }
    s.step(Event::Updated);
    let a = s.step(ok_reply(r#"{"data":{"status":"gagal"}}"#));
    assert!(matches!(a, Action::Credit { amount: 125000 }));
}

fn inquiry(sku: &str, amount: Option<i64>) -> DigiflazzPascaInquiryReq {
    DigiflazzPascaInquiryReq {
        buyer_sku_code: sku.to_string(),
        customer_no: "5310".to_string(),
        ref_id: Some("ref-1".to_string()),
        amount,
        year: Some(2024),
        testing: None,
    }
}

#[test]
fn inquiry_records_bill_without_ledger() {
    let mut s = Saga::inquiry(config(), inquiry("pln", Some(99)), String::new());
    assert!(matches!(s.step(Event::Start), Action::FindProduct { .. }));
    match s.step(Event::Product(Some(product(0)))) {
        Action::Submit(req) => {
            assert_eq!(req.commands.as_deref(), Some("inq-pasca"));
            assert_eq!(req.amount, None);
            assert_eq!(req.year, Some(2024));
            assert_eq!(req.sign, "82d80a7460d85978e46de39b348b48a0");
        }
        _ => panic!("expected the inquiry call"),
    }
    let body = r#"{"data":{"selling_price":125000,"price":120000,"status":"Sukses","rc":"00"}}"#;
    match s.step(ok_reply(body)) {
        Action::SaveRecord(rec) => {
            assert_eq!(rec.price, 125000);
            assert_eq!(rec.amount, 125000);
            assert_eq!(rec.product_type, "pasca");
        }
        _ => panic!("expected a record write"),
    }
    match s.step(Event::Saved(Some(4))) {
        Action::UpdateRecord { status, tx_id, .. } => {
            assert_eq!(status, TxStatus::Inquiry);
            assert_eq!(tx_id, 4);
        }
        _ => panic!("expected a record update"),
    }
    s.step(Event::Updated);
    assert!(matches!(s.outcome, Some(Ok(ref b)) if b == body));
    assert_eq!(s.debits, 0);
    assert_eq!(s.credits, 0);
}

#[test]
fn emoney_inquiry_needs_positive_amount() {
    let mut s = Saga::inquiry(config(), inquiry("emoney", Some(0)), String::new());
    s.step(Event::Start);
    assert!(matches!(
        s.outcome,
        Some(Err(FlowError::Validation(Invalid::NonPositiveAmount)))
    ));
}

#[test]
fn emoney_inquiry_sends_customer_amount() {
    let mut s = Saga::inquiry(config(), inquiry("dana", Some(50000)), String::new());
    s.step(Event::Start);
    let entry = ProductEntry {
        category: " e-money ".to_string(),
        brand: "DANA".to_string(),
        product_type: "Umum".to_string(),
        price: 0,
    };
    match s.step(Event::Product(Some(entry))) {
        Action::Submit(req) => assert_eq!(req.amount, Some(50000)),
        _ => panic!("expected the inquiry call"),
    }
    match s.step(ok_reply(r#"{"data":{"price":1500}}"#)) {
        Action::SaveRecord(rec) => {
            assert_eq!(rec.amount, 50000);
            assert_eq!(rec.price, 1500);
        }
        _ => panic!("expected a record write"),
    }
}

#[test]
fn inquiry_keeps_its_ref_id_or_makes_one() {
    let s = Saga::inquiry_fresh(config(), inquiry("pln", None));
    assert_eq!(s.ref_id, "ref-1");
    let mut req = inquiry("pln", None);
    req.ref_id = None;
    let t = Saga::inquiry_fresh(config(), req);
    assert_eq!(t.ref_id.len(), 36);
}

#[test]
fn status_check_rewrites_the_same_row() {
    let mut s = Saga::status_check(config(), "ref-1".to_string(), true);
    match s.step(Event::Start) {
        Action::LoadTransaction { ref_id } => assert_eq!(ref_id, "ref-1"),
        _ => panic!("expected a load"),
    }
    let mut tx = stored(125000, "pln");
    tx.status = "REVERSED".to_string();
    match s.step(Event::Stored(Some(tx))) {
        Action::SaveRecord(rec) => assert_eq!(rec.ref_id, "ref-1"),
        _ => panic!("expected a record write"),
    }
    match s.step(Event::Saved(Some(2))) {
        Action::Submit(req) => {
            assert_eq!(req.commands.as_deref(), Some("status-pasca"));
            assert_eq!(req.ref_id, "ref-1");
        }
        _ => panic!("expected the status query"),
    }
    let a = s.step(ok_reply(r#"{"data":{"status":"Sukses"}}"#));
    assert!(matches!(a, Action::UpdateRecord { status: TxStatus::Reversed, tx_id: 2, .. }));
    s.step(Event::Updated);
    assert!(matches!(s.outcome, Some(Ok(_))));
    assert_eq!(s.credits, 0);
}

#[test]
fn status_check_http_error_marks_failed() {
    let mut s = Saga::status_check(config(), "ref-1".to_string(), false);
    s.step(Event::Start);
    s.step(Event::Stored(Some(stored(5000, "xld10"))));
    match s.step(Event::Saved(Some(2))) {
        Action::Submit(req) => assert!(req.commands.is_none()),
        _ => panic!("expected the status query"),
    }
    let a = s.step(Event::Replied(ProviderReply::Answered {
        status: 502,
        body: "oops".to_string(),
    }));
    match &a {
        Action::UpdateRecord { status, obs, .. } => {
            assert_eq!(*status, TxStatus::Failed);
            assert_eq!(obs.rc, "502");
            assert_eq!(obs.message, "digiflazz http error");
            assert_eq!(obs.sn, None);
            assert_eq!(obs.response.as_deref(), Some("oops"));
            assert!(!obs.body_is_json);
        }
        _ => panic!("expected a record update"),
    }
    s.step(Event::Updated);
    assert!(matches!(s.outcome, Some(Err(FlowError::ExternalService))));
}

#[test]
fn accepts_only_the_awaited_event() {
    let mut s = Saga::prepaid(config(), order("123456"), "ref-1".to_string());
    assert!(s.accepts(&Event::Start));
    assert!(!s.accepts(&Event::Waited));
    s.step(Event::Start);
    assert!(s.accepts(&Event::PinChecked(true)));
    assert!(!s.accepts(&Event::Start));
}
