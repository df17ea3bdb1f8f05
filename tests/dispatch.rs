use ppob_ledger::dispatch::{
    access_claims, assemble_payload, check_single_request, check_store_request, collect_sends, distinct_tokens,
    is_unregistered, NotifRow, SendNotificationReq, SendNotificationStoreReq, SendOutcome,
    SEND_CONCURRENCY,
};
use ppob_ledger::error::{FlowError, Invalid, Missing};

fn delivered(n: &str) -> SendOutcome {
    SendOutcome::Delivered(n.to_string())
}

#[test]
fn one_unregistered_token_is_skipped() {
    let outcomes = vec![
        delivered("projects/p/messages/1"),
        SendOutcome::Rejected(r#"{"error":{"status":"NOT_FOUND","details":"UNREGISTERED"}}"#.to_string()),
        delivered("projects/p/messages/3"),
        delivered("projects/p/messages/4"),
    ];
    let report = collect_sends(outcomes).ok().unwrap();
    assert_eq!(report.sent, 3);
    assert_eq!(
        report.names,
        vec!["projects/p/messages/1", "projects/p/messages/3", "projects/p/messages/4"]
    );
}

#[test]
fn other_failure_aborts_collection() {
    let outcomes = vec![
        delivered("m1"),
        SendOutcome::Rejected("quota exceeded".to_string()),
        delivered("m3"),
    ];
    assert!(matches!(collect_sends(outcomes), Err(FlowError::ExternalService)));
    let lost = vec![delivered("m1"), SendOutcome::Lost];
    assert!(matches!(collect_sends(lost), Err(FlowError::ExternalService)));
}

#[test]
fn empty_fan_out_sends_nothing() {
    let report = collect_sends(Vec::new()).ok().unwrap();
    assert_eq!(report.sent, 0);
    assert!(report.names.is_empty());
}

#[test]
fn unregistered_markers() {
    assert!(is_unregistered("Requested entity: Unregistered"));
    assert!(is_unregistered("UNREGISTERED"));
    assert!(!is_unregistered("unregistered"));
    assert!(!is_unregistered("INVALID_ARGUMENT"));
}

#[test]
fn tokens_are_trimmed_and_deduplicated() {
    let raw = vec![
        Some(" tokA ".to_string()),
        None,
        Some("tokB".to_string()),
        Some("tokA".to_string()),
        Some("   ".to_string()),
        Some("tokB".to_string()),
    ];
    assert_eq!(distinct_tokens(&raw), vec!["tokA".to_string(), "tokB".to_string()]);
    assert!(distinct_tokens(&vec![None, Some(String::new())]).is_empty());
}

#[test]
fn store_request_needs_positive_ids() {
    assert!(check_store_request(&SendNotificationStoreReq { id_store: 1, id_cmp: 2 }).is_ok());
    assert_eq!(
        check_store_request(&SendNotificationStoreReq { id_store: 0, id_cmp: 2 }),
        Err(FlowError::Validation(Invalid::MissingStoreId))
    );
    assert_eq!(
        check_store_request(&SendNotificationStoreReq { id_store: 0, id_cmp: 0 }),
        Err(FlowError::Validation(Invalid::MissingStoreId))
    );
    assert_eq!(
        check_store_request(&SendNotificationStoreReq { id_store: 3, id_cmp: -1 }),
        Err(FlowError::Validation(Invalid::MissingCompanyId))
    );
}

#[test]
fn single_push_needs_token_title_body() {
    let mut req = SendNotificationReq {
        token: "t".to_string(),
        title: "Dividen".to_string(),
        body: "Cair".to_string(),
        data: None,
    };
    assert!(check_single_request(&req).is_ok());
    req.title = "  ".to_string();
    assert_eq!(check_single_request(&req), Err(FlowError::Validation(Invalid::MissingTitleOrBody)));
    req.title = "x".to_string();
    req.token = String::new();
    assert_eq!(check_single_request(&req), Err(FlowError::Validation(Invalid::MissingToken)));
}

fn row(name: Option<&str>, pesan: Option<&str>, nik: Option<i64>) -> NotifRow {
    NotifRow {
        name_store: name.map(|s| s.to_string()),
        pesan: pesan.map(|s| s.to_string()),
        nik,
    }
}

#[test]
fn announcement_payload() {
    let rows = vec![
        row(None, Some(" Dividen cair "), Some(11)),
        row(Some(" Toko A "), Some("ignored"), Some(12)),
        row(Some("Toko B"), None, Some(11)),
        row(None, None, None),
    ];
    let p = assemble_payload(&rows).ok().unwrap();
    assert_eq!(p.title, "Toko A");
    assert_eq!(p.body, "Dividen cair");
    assert_eq!(p.niks, vec![11, 12]);
}

#[test]
fn announcement_needs_rows_and_template() {
    assert!(matches!(
        assemble_payload(&Vec::new()),
        Err(FlowError::NotFound(Missing::Store))
    ));
    let rows = vec![row(Some("Toko"), Some("   "), Some(1))];
    assert!(matches!(
        assemble_payload(&rows),
        Err(FlowError::NotFound(Missing::Template))
    ));
}

#[test]
fn concurrency_cap() {
    assert_eq!(SEND_CONCURRENCY, 8);
}

#[test]
fn assertion_claims() {
    let c = access_claims("svc@example.iam", &None, 1_700_000_000);
    assert_eq!(c.iss, "svc@example.iam");
    assert_eq!(c.aud, "https://oauth2.googleapis.com/token");
    assert_eq!(c.scope, "https://www.googleapis.com/auth/firebase.messaging");
    assert_eq!(c.exp, 1_700_003_600);
    let c = access_claims("svc", &Some("https://tok.example/x".to_string()), 10);
    assert_eq!(c.aud, "https://tok.example/x");
    assert_eq!(c.iat, 10);
}
