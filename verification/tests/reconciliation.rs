use dyndns::provider::{
    CloudflareClient, CloudflareError, CloudflareResponse, DnsError, DnsRecord, RecordType,
    UpdateOutcome, Zone,
};
use dyndns::reconcile::{family_action, reconcile_plan, FamilyAction};
use dyndns::trace::get_ip_from_trace;

fn client() -> CloudflareClient {
    CloudflareClient::new(String::from("admin@example.com"), String::from("test-key"))
}

fn record(id: &str, record_type: RecordType, name: &str, content: &str) -> DnsRecord {
    DnsRecord {
        id: String::from(id),
        record_type,
        name: String::from(name),
        content: String::from(content),
    }
}

#[test]
fn zone_query_uses_last_two_labels() {
    let c = client();
    assert_eq!(c.zone_query_name("home.example.com"), "example.com");
    assert_eq!(c.zone_query_name("sub.example.co.uk"), "co.uk");
    assert_eq!(c.zone_query_name("example.com"), "example.com");
    assert_eq!(c.zone_query_name("deep.very.sub.example.org"), "example.org");
}

#[test]
fn zone_query_single_label_and_empty_labels() {
    let c = client();
    assert_eq!(c.zone_query_name("localhost"), "localhost");
    assert_eq!(c.zone_query_name("a..b"), ".b");
    assert_eq!(c.zone_query_name("trailing."), "trailing.");
}

#[test]
fn zone_id_of_first_zone() {
    let c = client();
    let envelope = CloudflareResponse {
        success: true,
        errors: Vec::new(),
        result: vec![
            Zone { id: String::from("z1"), name: String::from("example.com") },
            Zone { id: String::from("z2"), name: String::from("example.com") },
        ],
    };
    assert_eq!(c.get_zone_id(&envelope).unwrap(), "z1");
}

#[test]
fn zone_id_empty_result_is_not_found() {
    let c = client();
    let envelope: CloudflareResponse<Zone> = CloudflareResponse {
        success: true,
        errors: Vec::new(),
        result: Vec::new(),
    };
    assert!(matches!(c.get_zone_id(&envelope), Err(DnsError::NotFound)));
}

#[test]
fn record_scan_is_idempotent() {
    let c = client();
    let envelope = CloudflareResponse {
        success: true,
        errors: Vec::new(),
        result: vec![
            record("rec1", RecordType::A, "home.example.com", "192.0.2.1"),
            record("rec2", RecordType::AAAA, "home.example.com", "2001:db8::1"),
            record("rec3", RecordType::Other, "home.example.com", "mail.example.com"),
        ],
    };
    let first = c.get_dns_records(&envelope);
    let second = c.get_dns_records(&envelope);
    assert_eq!(first, second);
    assert_eq!(first, (Some(String::from("rec1")), Some(String::from("rec2"))));
}

#[test]
fn record_scan_last_a_record_wins() {
    let c = client();
    let envelope = CloudflareResponse {
        success: true,
        errors: Vec::new(),
        result: vec![
            record("r1", RecordType::A, "home.example.com", "192.0.2.1"),
            record("r2", RecordType::A, "home.example.com", "192.0.2.2"),
        ],
    };
    let (ipv4_id, ipv6_id) = c.get_dns_records(&envelope);
    assert_eq!(ipv4_id, Some(String::from("r2")));
    assert_eq!(ipv6_id, None);
}

#[test]
fn record_scan_ignores_other_types_and_tolerates_no_match() {
    let c = client();
    let envelope = CloudflareResponse {
        success: true,
        errors: Vec::new(),
        result: vec![record("r9", RecordType::Other, "home.example.com", "text")],
    };
    assert_eq!(c.get_dns_records(&envelope), (None, None));
}

#[test]
fn update_payload_shape() {
    let c = client();
    let payload = c.update_payload("home.example.com", "203.0.113.5", RecordType::A);
    assert_eq!(payload.record_type, RecordType::A);
    assert_eq!(payload.name, "home.example.com");
    assert_eq!(payload.content, "203.0.113.5");
    assert!(!payload.proxied);
}

#[test]
fn update_outcome_success_carries_address() {
    let c = client();
    let envelope: CloudflareResponse<DnsRecord> = CloudflareResponse {
        success: true,
        errors: Vec::new(),
        result: Vec::new(),
    };
    match c.update_outcome(RecordType::AAAA, "2001:db8::1", envelope) {
        UpdateOutcome::Updated { record_type, address } => {
            assert_eq!(record_type, RecordType::AAAA);
            assert_eq!(address, "2001:db8::1");
        }
        UpdateOutcome::Failed { .. } => panic!("success envelope reported as failure"),
    }
}

#[test]
fn update_outcome_failure_carries_errors_verbatim() {
    let c = client();
    let envelope: CloudflareResponse<DnsRecord> = CloudflareResponse {
        success: false,
        errors: vec![CloudflareError { code: 9106, message: String::from("Invalid content") }],
        result: Vec::new(),
    };
    match c.update_outcome(RecordType::A, "203.0.113.5", envelope) {
        UpdateOutcome::Failed { record_type, errors } => {
            assert_eq!(record_type, RecordType::A);
            assert_eq!(errors.len(), 1);
            assert_eq!(errors[0].code, 9106);
            assert_eq!(errors[0].message, "Invalid content");
        }
        UpdateOutcome::Updated { .. } => panic!("failure envelope reported as success"),
    }
}

#[test]
fn trace_parses_ipv6_line() {
    let (ipv4, ipv6) = get_ip_from_trace("ip=2001:db8::1\nloc=US\n");
    assert_eq!(ipv4, None);
    assert_eq!(ipv6, Some(String::from("2001:db8::1")));
}

#[test]
fn trace_parses_ipv4_line() {
    let (ipv4, ipv6) = get_ip_from_trace("ip=203.0.113.5\n");
    assert_eq!(ipv4, Some(String::from("203.0.113.5")));
    assert_eq!(ipv6, None);
}

#[test]
fn trace_without_ip_line_reports_nothing() {
    let (ipv4, ipv6) = get_ip_from_trace("loc=US\ncolo=SJC\n");
    assert_eq!(ipv4, None);
    assert_eq!(ipv6, None);
    let (ipv4, ipv6) = get_ip_from_trace("");
    assert_eq!(ipv4, None);
    assert_eq!(ipv6, None);
}

#[test]
fn trace_last_ip_line_wins_per_family() {
    let (ipv4, ipv6) = get_ip_from_trace("ip=203.0.113.5\nip=203.0.113.7\nip=2001:db8::1\n");
    assert_eq!(ipv4, Some(String::from("203.0.113.7")));
    assert_eq!(ipv6, Some(String::from("2001:db8::1")));
}

#[test]
fn missing_address_or_record_skips_family() {
    let a = family_action(None, Some(String::from("rec_a")));
    assert!(matches!(a, FamilyAction::Skip));
    let b = family_action(Some(String::from("203.0.113.5")), None);
    assert!(matches!(b, FamilyAction::Skip));
    let c = family_action(None, None);
    assert!(matches!(c, FamilyAction::Skip));
}

#[test]
fn both_present_updates_family() {
    let a = family_action(Some(String::from("203.0.113.5")), Some(String::from("rec_a")));
    match a {
        FamilyAction::Update { record_id, address } => {
            assert_eq!(record_id, "rec_a");
            assert_eq!(address, "203.0.113.5");
        }
        FamilyAction::Skip => panic!("both parts present but family skipped"),
    }
}

#[test]
fn end_to_end_single_ipv4_update() {
    let c = client();
    assert_eq!(c.zone_query_name("home.example.com"), "example.com");

    let zones = CloudflareResponse {
        success: true,
        errors: Vec::new(),
        result: vec![Zone { id: String::from("z1"), name: String::from("example.com") }],
    };
    let zone_id = c.get_zone_id(&zones).unwrap();
    assert_eq!(zone_id, "z1");

    let records = CloudflareResponse {
        success: true,
        errors: Vec::new(),
        result: vec![
            record("rec1", RecordType::A, "home.example.com", "192.0.2.1"),
            record("rec2", RecordType::AAAA, "home.example.com", "2001:db8::1"),
        ],
    };
    let ids = c.get_dns_records(&records);
    assert_eq!(ids, (Some(String::from("rec1")), Some(String::from("rec2"))));

    let addresses = get_ip_from_trace("ip=198.51.100.9\n");
    assert_eq!(addresses, (Some(String::from("198.51.100.9")), None));

    let plan = reconcile_plan(addresses, ids);
    match plan.ipv4 {
        FamilyAction::Update { record_id, address } => {
            assert_eq!(record_id, "rec1");
            assert_eq!(address, "198.51.100.9");
        }
        FamilyAction::Skip => panic!("IPv4 update expected"),
    }
    assert!(matches!(plan.ipv6, FamilyAction::Skip));

    let payload = c.update_payload("home.example.com", "198.51.100.9", RecordType::A);
    assert_eq!(payload.record_type, RecordType::A);
    assert_eq!(payload.name, "home.example.com");
    assert_eq!(payload.content, "198.51.100.9");
    assert!(!payload.proxied);
}
