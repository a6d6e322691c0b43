use wiremock_grpc::dispatch::DispatchOutcome;
use wiremock_grpc::dispatch::dispatch;
use wiremock_grpc::codec::GenericProstDecoder;
use wiremock_grpc::rule::RequestBuilder;
use wiremock_grpc::status::StatusCode;
use wiremock_grpc::table::RuleTable;

#[test]
fn scenario_ping_returns_ok_and_configured_body() {
    let mut table = RuleTable::new();
    RequestBuilder::given("/svc/Ping")
        .return_status(StatusCode::Okay)
        .return_body(vec![0x0A, 0x02, 0x68, 0x69])
        .mount(&mut table)
        .unwrap();
    match dispatch(&table, &String::from("/svc/Ping")) {
        DispatchOutcome::Matched(reply) => {
            assert_eq!(reply.status, StatusCode::Okay);
            assert_eq!(reply.payload, Some(vec![0x0A, 0x02, 0x68, 0x69]));
            let mut decoder = GenericProstDecoder::new();
            let body = decoder.decode(&reply.body).unwrap().unwrap();
            assert_eq!(body, vec![0x0A, 0x02, 0x68, 0x69]);
        }
        DispatchOutcome::NoMatchingRule => panic!("expected a reply"),
    }
}

#[test]
fn scenario_fail_returns_not_found_and_empty_body() {
    let mut table = RuleTable::new();
    RequestBuilder::given("/svc/Fail")
        .return_status(StatusCode::NotFound)
        .mount(&mut table)
        .unwrap();
    match dispatch(&table, &String::from("/svc/Fail")) {
        DispatchOutcome::Matched(reply) => {
            assert_eq!(reply.status, StatusCode::NotFound);
            assert_eq!(reply.payload, None);
            assert!(reply.body.is_empty());
        }
        DispatchOutcome::NoMatchingRule => panic!("expected a reply"),
    }
}

#[test]
fn scenario_unknown_path_is_the_fatal_outcome() {
    let table = RuleTable::new();
    let outcome = dispatch(&table, &String::from("/svc/Unknown"));
    assert_eq!(outcome, DispatchOutcome::NoMatchingRule);
}

#[test]
fn unmatched_path_is_fatal_even_among_mounted_rules() {
    let mut table = RuleTable::new();
    RequestBuilder::given("/svc/Known").return_body(vec![1]).mount(&mut table).unwrap();
    let outcome = dispatch(&table, &String::from("/svc/Other"));
    assert_eq!(outcome, DispatchOutcome::NoMatchingRule);
}

#[test]
fn payload_only_rule_defaults_to_success_status() {
    let mut table = RuleTable::new();
    RequestBuilder::given("/svc/Quiet").return_body(vec![0x08, 0x01]).mount(&mut table).unwrap();
    match dispatch(&table, &String::from("/svc/Quiet")) {
        DispatchOutcome::Matched(reply) => assert_eq!(reply.status, StatusCode::Okay),
        DispatchOutcome::NoMatchingRule => panic!("expected a reply"),
    }
}

#[test]
fn reply_body_is_the_framed_payload() {
    let mut table = RuleTable::new();
    RequestBuilder::given("/svc/Framed").return_body(vec![0x42, 0x43]).mount(&mut table).unwrap();
    match dispatch(&table, &String::from("/svc/Framed")) {
        DispatchOutcome::Matched(reply) => {
            assert_eq!(reply.body, vec![0x00, 0x00, 0x00, 0x00, 0x02, 0x42, 0x43]);
        }
        DispatchOutcome::NoMatchingRule => panic!("expected a reply"),
    }
}

#[test]
fn distinct_paths_each_get_their_own_response() {
    let mut table = RuleTable::new();
    RequestBuilder::given("/svc/One")
        .return_status(StatusCode::Okay)
        .return_body(vec![0x01])
        .mount(&mut table)
        .unwrap();
    RequestBuilder::given("/svc/Two")
        .return_status(StatusCode::Aborted)
        .return_body(vec![0x02])
        .mount(&mut table)
        .unwrap();
    let one = dispatch(&table, &String::from("/svc/One"));
    let two = dispatch(&table, &String::from("/svc/Two"));
    match (one, two) {
        (DispatchOutcome::Matched(r1), DispatchOutcome::Matched(r2)) => {
            assert_eq!(r1.status, StatusCode::Okay);
            assert_eq!(r1.body, vec![0x00, 0x00, 0x00, 0x00, 0x01, 0x01]);
            assert_eq!(r2.status, StatusCode::Aborted);
            assert_eq!(r2.body, vec![0x00, 0x00, 0x00, 0x00, 0x01, 0x02]);
        }
        _ => panic!("expected two replies"),
    }
}
