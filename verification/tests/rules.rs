use wiremock_grpc::rule::RequestBuilder;
use wiremock_grpc::status::StatusCode;
use wiremock_grpc::table::RuleTable;
use wiremock_grpc::table::ValidationError;

#[test]
fn mount_with_status_succeeds() {
    let mut table = RuleTable::new();
    let outcome = RequestBuilder::given("/svc/A")
        .return_status(StatusCode::Aborted)
        .mount(&mut table);
    assert_eq!(outcome, Ok(()));
    assert_eq!(table.len(), 1);
}

#[test]
fn mount_with_payload_succeeds() {
    let mut table = RuleTable::new();
    let outcome = RequestBuilder::given("/svc/B").return_body(vec![1, 2, 3]).mount(&mut table);
    assert_eq!(outcome, Ok(()));
    assert_eq!(table.len(), 1);
}

#[test]
fn mount_with_status_and_payload_succeeds() {
    let mut table = RuleTable::new();
    let outcome = RequestBuilder::given("/svc/C")
        .return_status(StatusCode::Okay)
        .return_body(vec![9])
        .mount(&mut table);
    assert_eq!(outcome, Ok(()));
    assert_eq!(table.len(), 1);
}

#[test]
fn mount_with_neither_fails_and_leaves_table_unchanged() {
    let mut table = RuleTable::new();
    let outcome = RequestBuilder::given("/svc/Bad").mount(&mut table);
    assert_eq!(outcome, Err(ValidationError::InvalidRule));
    assert_eq!(table.len(), 0);
    assert!(table.find(&String::from("/svc/Bad")).is_none());
}

#[test]
fn builder_accumulates_path_status_and_payload() {
    let mut table = RuleTable::new();
    let builder = RequestBuilder::given("/svc/D")
        .return_status(StatusCode::NotFound)
        .return_body(vec![0xAA, 0xBB]);
    assert!(builder.payload_within_limit());
    builder.mount(&mut table).unwrap();
    let rule = table.find(&String::from("/svc/D")).unwrap();
    assert_eq!(rule.path, "/svc/D");
    assert_eq!(rule.status, Some(StatusCode::NotFound));
    assert_eq!(rule.payload, Some(vec![0xAA, 0xBB]));
}

#[test]
fn find_matches_exact_path_only() {
    let mut table = RuleTable::new();
    RequestBuilder::given("/svc/Exact").return_body(vec![1]).mount(&mut table).unwrap();
    assert!(table.find(&String::from("/svc/Exact")).is_some());
    assert!(table.find(&String::from("/svc/Exac")).is_none());
    assert!(table.find(&String::from("/svc/Exactly")).is_none());
    assert!(table.find(&String::from("/svc")).is_none());
}

#[test]
fn first_mounted_rule_for_a_path_wins() {
    let mut table = RuleTable::new();
    RequestBuilder::given("/svc/Dup")
        .return_status(StatusCode::Okay)
        .mount(&mut table)
        .unwrap();
    RequestBuilder::given("/svc/Dup")
        .return_status(StatusCode::NotFound)
        .mount(&mut table)
        .unwrap();
    assert_eq!(table.len(), 2);
    let rule = table.find(&String::from("/svc/Dup")).unwrap();
    assert_eq!(rule.status, Some(StatusCode::Okay));
}

#[test]
fn status_codes_carry_protocol_numbers() {
    assert_eq!(StatusCode::Okay.as_u32(), 0);
    assert_eq!(StatusCode::NotFound.as_u32(), 5);
    assert_eq!(StatusCode::Internal.as_u32(), 13);
    assert_eq!(StatusCode::Unauthenticated.as_u32(), 16);
}
