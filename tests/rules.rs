use ppob_ledger::api::{
    bearer_token, check_pin_format, check_transfer_accounts, is_public_path, page_window, RegisterReq, UpdatePinReq, VerifyAccountRes,
};
use ppob_ledger::catalog::{is_emoney_code, is_emoney_entry, ProductEntry};
use ppob_ledger::error::{ledger_error_from_message, ApiError, FlowError, Invalid, LedgerError, Missing};
use ppob_ledger::models::{admin_route_allowed, role_or_user, Role};
use ppob_ledger::pin::is_valid_pin;
use ppob_ledger::provider::{
    balance_request, bill_amount, classify, deposit_of, is_failed_status, is_failure_word,
    is_success_word, pln_inquiry_request, read_envelope, sign, status_text, transaction_request,
    ProviderConfig, ProviderReply, Verdict,
};
use ppob_ledger::saga::{observe, observe_status_reply};
use ppob_ledger::text::{
    contains, decimal_text, eq_ignore_ascii_case, integer_part, same_text, starts_with, trim, words,
};

fn config() -> ProviderConfig {
    ProviderConfig {
        username: "user".to_string(),
        dev_key: "dev".to_string(),
        prod_key: "prod".to_string(),
        use_production: false,
    }
}

#[test]
fn pin_shape() {
    assert!(is_valid_pin("123456"));
    assert!(is_valid_pin("000000"));
    assert!(!is_valid_pin("12345"));
    assert!(!is_valid_pin("1234567"));
    assert!(!is_valid_pin("12a456"));
    assert!(!is_valid_pin(""));
    assert!(!is_valid_pin("١٢٣٤٥٦"));
    assert!(!is_valid_pin(" 12345"));
}

#[test]
fn text_helpers() {
    assert!(eq_ignore_ascii_case("GaGaL", "gagal"));
    assert!(!eq_ignore_ascii_case("gagal", "gagalx"));
    assert!(!eq_ignore_ascii_case("É", "é"));
    assert!(contains("error: UNREGISTERED token", "UNREGISTERED"));
    assert!(contains("abc", ""));
    assert!(!contains("ab", "abc"));
    assert!(same_text("admin", "admin"));
    assert!(!same_text("admin", "Admin"));
    assert!(starts_with("/admin/audit-logs", "/admin"));
    assert!(!starts_with("/adm", "/admin"));
}

#[test]
fn status_words() {
    assert!(is_failure_word("failed"));
    assert!(is_failure_word("GAGAL"));
    assert!(!is_failure_word(" gagal"));
    assert!(is_failed_status("  Gagal \n"));
    assert!(is_failed_status("FAILED"));
    assert!(!is_failed_status("Pending"));
    assert!(!is_failed_status(""));
    assert!(is_success_word("Sukses"));
    assert!(is_success_word("SUCCESS"));
    assert!(!is_success_word("Pending"));
}

#[test]
fn signing() {
    let cfg = config();
    assert_eq!(cfg.api_key(), "dev");
    assert_eq!(sign(&cfg, "depo"), "0cfd8287f6136e935c18b67a0c302ac0");
    assert_eq!(sign(&cfg, "ref-1"), "82d80a7460d85978e46de39b348b48a0");
    let mut prod = config();
    prod.use_production = true;
    assert_eq!(prod.api_key(), "prod");
    assert_eq!(sign(&prod, "ref-1"), "68adb49affb60424ff9c7a0ea04b1234");
    let b = balance_request(&cfg);
    assert_eq!(b.cmd, "deposit");
    assert_eq!(b.sign, "0cfd8287f6136e935c18b67a0c302ac0");
}

#[test]
fn meter_inquiry_signs_customer_number() {
    let req = pln_inquiry_request(&config(), "5310").ok().unwrap();
    assert_eq!(req.customer_no, "5310");
    assert_eq!(req.sign, "30755323e8f0f54ea2010f8469f7b0e0");
    let mut cfg = config();
    cfg.username = String::new();
    assert!(matches!(pln_inquiry_request(&cfg, "5310"), Err(FlowError::ExternalService)));
}

#[test]
fn transaction_request_fields() {
    let req = transaction_request(
        &config(),
        Some("pay-pasca".to_string()),
        "pln",
        "5310",
        "ref-1",
        Some(7),
        Some(2024),
        Some(false),
    );
    assert_eq!(req.username, "user");
    assert_eq!(req.buyer_sku_code, "pln");
    assert_eq!(req.sign, "82d80a7460d85978e46de39b348b48a0");
    assert_eq!(req.amount, Some(7));
}

#[test]
fn config_check() {
    assert!(config().check().is_ok());
    let mut cfg = config();
    cfg.dev_key = String::new();
    assert!(matches!(cfg.check(), Err(FlowError::ExternalService)));
}

#[test]
fn envelope_reading() {
    let body = r#"{"data":{"rc":"00","message":"ok","status":"Sukses","sn":"123"}}"#;
    let env = read_envelope(body).unwrap();
    assert_eq!(env.rc, "00");
    assert_eq!(env.message, "ok");
    assert_eq!(env.status, "Sukses");
    assert_eq!(env.sn.as_deref(), Some("123"));
    let sparse = read_envelope(r#"{"data":{"rc":5}}"#).unwrap();
    assert_eq!(sparse.rc, "");
    assert_eq!(sparse.sn, None);
    assert!(read_envelope("not json").is_none());
    assert_eq!(status_text(body), "Sukses");
}

#[test]
fn numbers_in_replies() {
    assert_eq!(deposit_of(r#"{"data":{"deposit":100000}}"#), Some(100000));
    assert_eq!(deposit_of(r#"{"data":{}}"#), None);
    assert_eq!(bill_amount(r#"{"data":{"selling_price":125000,"price":120000}}"#), 125000);
    assert_eq!(bill_amount(r#"{"data":{"price":120000}}"#), 120000);
    assert_eq!(bill_amount(r#"{"data":{"selling_price":"n/a","price":120000}}"#), 0);
    assert_eq!(bill_amount(r#"{"data":{"selling_price":25000.0}}"#), 25000);
    assert_eq!(bill_amount(r#"{"data":{"price":1234.99}}"#), 1234);
    assert_eq!(deposit_of(r#"{"data":{"deposit":150000.5}}"#), Some(150000));
    assert_eq!(deposit_of(r#"{"data":{"deposit":"100"}}"#), None);
    assert_eq!(bill_amount(r#"{"data":{"price":-5}}"#), 0);
    assert_eq!(bill_amount("garbage"), 0);
}

#[test]
fn reply_classification() {
    let answered = |status: u16, body: &str| ProviderReply::Answered {
        status,
        body: body.to_string(),
    };
    assert_eq!(classify(&ProviderReply::Unreachable), Verdict::Unreachable);
    assert_eq!(classify(&answered(503, r#"{"data":{"status":"Sukses"}}"#)), Verdict::HttpFailure);
    assert_eq!(classify(&answered(200, "<html>")), Verdict::Malformed);
    assert_eq!(classify(&answered(200, r#"{"data":{"status":"Gagal"}}"#)), Verdict::Declined);
    assert_eq!(classify(&answered(200, r#"{"data":{"status":"failed "}}"#)), Verdict::Declined);
    assert_eq!(classify(&answered(200, r#"{"data":{"status":"Pending"}}"#)), Verdict::Accepted);
    assert_eq!(classify(&answered(200, r#"{"data":{}}"#)), Verdict::Accepted);
}

#[test]
fn observations() {
    let o = observe(&ProviderReply::Unreachable);
    assert_eq!(o.message, "provider unreachable");
    assert!(o.response.is_none());
    let o = observe(&ProviderReply::Answered {
        status: 200,
        body: r#"{"data":{"rc":"01","message":"m","sn":"S"}}"#.to_string(),
    });
    assert_eq!(o.rc, "01");
    assert_eq!(o.message, "m");
    assert_eq!(o.sn.as_deref(), Some("S"));
    assert!(o.body_is_json);
    let o = observe(&ProviderReply::Answered { status: 504, body: "gateway timeout".to_string() });
    assert_eq!(o.rc, "504");
    assert_eq!(o.message, "digiflazz http error");
    assert!(!o.body_is_json);
    let o = observe(&ProviderReply::Answered { status: 200, body: "<html>".to_string() });
    assert_eq!(o.rc, "");
    let o = observe_status_reply(&ProviderReply::Answered {
        status: 500,
        body: r#"{"data":{"rc":"99"}}"#.to_string(),
    });
    assert_eq!(o.rc, "500");
    assert_eq!(o.message, "digiflazz http error");
    assert!(!o.body_is_json);
}

#[test]
fn trimming_and_numbers() {
    assert_eq!(trim("  12345 \t\n"), "12345");
    assert_eq!(trim("\u{3000}Gagal\u{a0}"), "Gagal");
    assert_eq!(trim("   "), "");
    assert_eq!(trim("a b"), "a b");
    assert_eq!(decimal_text(0), "0");
    assert_eq!(decimal_text(404), "404");
    assert_eq!(decimal_text(65535), "65535");
}

#[test]
fn emoney_classification() {
    assert!(is_emoney_code("EMONEY"));
    assert!(is_emoney_code("emoney"));
    assert!(!is_emoney_code("e-money"));
    let mut e = ProductEntry {
        category: "Pulsa".to_string(),
        brand: " E-Money".to_string(),
        product_type: "Umum".to_string(),
        price: 1,
    };
    assert!(is_emoney_entry(&e));
    e.brand = "OVO".to_string();
    assert!(!is_emoney_entry(&e));
    e.product_type = "e-money".to_string();
    assert!(is_emoney_entry(&e));
}

#[test]
fn ledger_sentinels() {
    assert_eq!(ledger_error_from_message("ERROR: ACCOUNT_NOT_OWNED"), LedgerError::NotOwner);
    assert_eq!(
        ledger_error_from_message("P0001: INSUFFICIENT_FUNDS (balance 3)"),
        LedgerError::InsufficientFunds
    );
    assert_eq!(ledger_error_from_message("AMOUNT_INVALID"), LedgerError::InvalidAmount);
    assert_eq!(ledger_error_from_message("SAME_ACCOUNT"), LedgerError::SameAccount);
    assert_eq!(ledger_error_from_message("ACCOUNT_FROM_NOT_FOUND"), LedgerError::SourceNotFound);
    assert_eq!(ledger_error_from_message("ACCOUNT_TO_NOT_FOUND"), LedgerError::TargetNotFound);
    assert_eq!(ledger_error_from_message("connection reset"), LedgerError::Other);
    assert_eq!(
        ledger_error_from_message("ACCOUNT_NOT_OWNED and INSUFFICIENT_FUNDS"),
        LedgerError::NotOwner
    );
}

#[test]
fn error_classes() {
    assert_eq!(ApiError::BadRequest("x".to_string()).status_code(), 400);
    assert_eq!(ApiError::Unauthorized("x".to_string()).status_code(), 401);
    assert_eq!(ApiError::Forbidden("x".to_string()).status_code(), 403);
    assert_eq!(ApiError::NotFound("x".to_string()).status_code(), 404);
    assert_eq!(ApiError::Internal("x".to_string()).status_code(), 500);
    let e = FlowError::Validation(Invalid::PinFormat).to_api_error();
    assert_eq!(e.status_code(), 400);
    assert_eq!(e.message(), "pin must be 6 digits");
    let e = FlowError::Validation(Invalid::MissingCompanyId).to_api_error();
    assert_eq!(e.message(), "id_cmp is required");
    assert_eq!(FlowError::InsufficientBalance.to_api_error().message(), "digiflazz saldo tidak cukup");
    assert_eq!(FlowError::Authorization.to_api_error().status_code(), 401);
    assert_eq!(FlowError::NotFound(Missing::Transaction).to_api_error().status_code(), 404);
    assert_eq!(FlowError::Ledger(LedgerError::NotOwner).to_api_error().status_code(), 403);
    assert_eq!(FlowError::Ledger(LedgerError::InsufficientFunds).to_api_error().status_code(), 400);
    assert_eq!(FlowError::ExternalService.to_api_error().status_code(), 500);
    assert_eq!(FlowError::BusinessFailure.to_api_error().status_code(), 500);
    assert_eq!(FlowError::InsufficientBalance.to_api_error().status_code(), 400);
}

#[test]
fn roles() {
    assert_eq!(Role::from_str("admin"), Some(Role::Admin));
    assert_eq!(Role::from_str("user"), Some(Role::User));
    assert_eq!(Role::from_str("Admin"), None);
    assert_eq!(Role::from_str(""), None);
    assert_eq!(role_or_user("root"), Role::User);
    assert!(admin_route_allowed("/admin/audit-logs", Role::Admin));
    assert!(!admin_route_allowed("/admin/audit-logs", Role::User));
    assert!(admin_route_allowed("/accounts", Role::User));
}

#[test]
fn registration_role() {
    let mut r = RegisterReq {
        email: "a@b.c".to_string(),
        password: "pw".to_string(),
        role: None,
    };
    assert_eq!(r.role(), Ok(Role::User));
    r.role = Some("admin".to_string());
    assert_eq!(r.role(), Ok(Role::Admin));
    r.role = Some("boss".to_string());
    assert_eq!(r.role(), Err(FlowError::Validation(Invalid::UnknownRole)));
}

#[test]
fn pin_updates_and_checks() {
    assert!(UpdatePinReq { new_pin: "654321".to_string() }.check().is_ok());
    assert!(UpdatePinReq { new_pin: "65432".to_string() }.check().is_err());
    assert!(check_pin_format("123456").is_ok());
    assert_eq!(check_pin_format("12345x"), Err(FlowError::Validation(Invalid::PinFormat)));
}

#[test]
fn unknown_account_answer() {
    let r = VerifyAccountRes::not_found("0011".to_string());
    assert_eq!(r.account_no, "0011");
    assert_eq!(r.status, "not_found");
    assert!(r.owner_name.is_none());
}

#[test]
fn journal_paging() {
    assert_eq!(page_window(None, None), (50, 0));
    assert_eq!(page_window(Some(0), Some(-3)), (1, 0));
    assert_eq!(page_window(Some(20), Some(40)), (20, 40));
}

#[test]
fn public_paths() {
    assert!(is_public_path("/auth/login"));
    assert!(is_public_path("/health"));
    assert!(is_public_path("/auth/refresh/x"));
    assert!(!is_public_path("/accounts"));
    assert!(!is_public_path("/auth/logout/1"));
}

#[test]
fn transfer_needs_two_accounts() {
    assert!(check_transfer_accounts("001", "002").is_ok());
    assert_eq!(
        check_transfer_accounts(" 001", "001 "),
        Err(FlowError::Validation(Invalid::SameAccounts))
    );
}

#[test]
fn bearer_header() {
    assert_eq!(bearer_token("Bearer abc.def"), Some("abc.def".to_string()));
    assert_eq!(bearer_token("  bearer\tabc  extra"), Some("abc".to_string()));
    assert_eq!(bearer_token("Basic abc"), None);
    assert_eq!(bearer_token("Bearer"), None);
    assert_eq!(bearer_token(""), None);
}

#[test]
fn words_split_on_white_space() {
    assert_eq!(words("  Bearer \t tok  "), vec!["Bearer".to_string(), "tok".to_string()]);
    assert!(words(" \u{3000} ").is_empty());
    assert_eq!(words("a"), vec!["a".to_string()]);
}

#[test]
fn integer_parts() {
    assert_eq!(integer_part("25000"), Some(25000));
    assert_eq!(integer_part("25000.0"), Some(25000));
    assert_eq!(integer_part("-3.5"), Some(-3));
    assert_eq!(integer_part("9223372036854775807"), Some(i64::MAX));
    assert_eq!(integer_part("9223372036854775808"), None);
    assert_eq!(integer_part("1e21"), None);
    assert_eq!(integer_part("1."), None);
    assert_eq!(integer_part(".5"), None);
    assert_eq!(integer_part("-"), None);
    assert_eq!(integer_part(""), None);
}
