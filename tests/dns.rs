use pond_deployment::dns::{
    type_string, AddressFamily, DnsAction, DnsError, DnsEvent, DnsReconciler, DnsRecord, DnsStage,
    IpAddress, ProviderReply, ZoneInfo,
};

fn v4(text: &str) -> IpAddress {
    IpAddress { family: AddressFamily::V4, text: text.to_owned() }
}

fn zone(id: &str, name: &str) -> ZoneInfo {
    ZoneInfo { id: id.to_owned(), name: name.to_owned() }
}

fn record(id: &str, record_type: &str, name: &str) -> DnsRecord {
    DnsRecord {
        id: id.to_owned(),
        record_type: record_type.to_owned(),
        name: name.to_owned(),
        content: "127.0.0.1".to_owned(),
        ttl: 1,
        proxied: true,
    }
}

fn answered<T>(result: T) -> ProviderReply<T> {
    ProviderReply::Answered { success: true, result: Some(result) }
}

/// Runs a reconciliation up to the record listing.
fn up_to_records(domain: &str, address: IpAddress) -> DnsReconciler {
    let mut r = DnsReconciler::new(domain.to_owned(), address, 1, false);
    match r.step(DnsEvent::Begin) {
        DnsAction::ListZones { name } => assert_eq!(name, "example.com"),
        _ => panic!("expected a zone listing"),
    }
    match r.step(DnsEvent::ZonesListed(answered(vec![zone("zone_id", "example.com")]))) {
        DnsAction::ListRecords { zone_id, name, page } => {
            assert_eq!(zone_id, "zone_id");
            assert_eq!(name, domain);
            assert_eq!(page, 1);
        }
        _ => panic!("expected a record listing"),
    }
    r
}

#[test]
fn the_happy_path_with_no_existing_records_works() {
    let mut r = up_to_records("example.com", v4("127.0.0.1"));
    match r.step(DnsEvent::RecordsListed(answered(vec![]))) {
        DnsAction::CreateRecord { zone_id, body } => {
            assert_eq!(zone_id, "zone_id");
            assert_eq!(body.record_type, "A");
            assert_eq!(body.name, "example.com");
            assert_eq!(body.content, "127.0.0.1");
            assert_eq!(body.comment, "Record created by pond");
            assert_eq!(body.ttl, 1);
            assert!(!body.proxied);
        }
        _ => panic!("expected one create"),
    }
    assert!(matches!(r.step(DnsEvent::RecordWritten(answered(()))), DnsAction::Done(Ok(()))));
    assert!(matches!(r.step(DnsEvent::Begin), DnsAction::Done(Ok(()))));
}

#[test]
fn test_get_zone_with_multiple_zones() {
    let mut r = DnsReconciler::new("example.com".to_owned(), v4("127.0.0.1"), 1, false);
    r.step(DnsEvent::Begin);
    let a = r.step(DnsEvent::ZonesListed(answered(vec![
        zone("1", "example.com"),
        zone("2", "example.org"),
    ])));
    assert!(matches!(a, DnsAction::Done(Err(DnsError::AmbiguousZone))));
    assert!(matches!(r.stage, DnsStage::Finished(Err(DnsError::AmbiguousZone))));
}

#[test]
fn test_get_zone_with_no_zones() {
    let mut r = DnsReconciler::new("example.com".to_owned(), v4("127.0.0.1"), 1, false);
    r.step(DnsEvent::Begin);
    let a = r.step(DnsEvent::ZonesListed(answered(vec![])));
    assert!(matches!(a, DnsAction::Done(Err(DnsError::NoZone))));
}

#[test]
fn test_get_existing_records_with_no_records() {
    let mut r = up_to_records("example.com", v4("127.0.0.1"));
    let a = r.step(DnsEvent::RecordsListed(answered(vec![])));
    assert!(matches!(a, DnsAction::CreateRecord { .. }));
}

#[test]
fn test_create_dns_record_failure() {
    let mut r = up_to_records("example.com", v4("127.0.0.1"));
    r.step(DnsEvent::RecordsListed(answered(vec![])));
    let failed = ProviderReply::Answered { success: false, result: None };
    assert!(matches!(r.step(DnsEvent::RecordWritten(failed)), DnsAction::Done(Err(DnsError::WriteFailed))));
}

#[test]
fn test_update_dns_record_failure() {
    let mut r = up_to_records("example.com", v4("127.0.0.1"));
    match r.step(DnsEvent::RecordsListed(answered(vec![record("record_id", "A", "example.com")]))) {
        DnsAction::UpdateRecord { zone_id, record_id, body } => {
            assert_eq!(zone_id, "zone_id");
            assert_eq!(record_id, "record_id");
            assert_eq!(body.comment, "Record updated by pond");
            assert_eq!(body.record_type, "A");
            assert_eq!(body.name, "example.com");
        }
        _ => panic!("expected one update"),
    }
    let failed = ProviderReply::Answered { success: false, result: None };
    assert!(matches!(r.step(DnsEvent::RecordWritten(failed)), DnsAction::Done(Err(DnsError::WriteFailed))));
}

#[test]
fn one_matching_record_among_others_is_updated() {
    let mut r = up_to_records("www.example.com", v4("198.51.100.4"));
    let records = vec![
        record("six", "AAAA", "www.example.com"),
        record("four", "A", "www.example.com"),
        record("text", "TXT", "www.example.com"),
    ];
    match r.step(DnsEvent::RecordsListed(answered(records))) {
        DnsAction::UpdateRecord { record_id, body, .. } => {
            assert_eq!(record_id, "four");
            assert_eq!(body.content, "198.51.100.4");
        }
        _ => panic!("expected one update"),
    }
    assert!(matches!(r.step(DnsEvent::RecordWritten(answered(()))), DnsAction::Done(Ok(()))));
}

#[test]
fn two_matching_records_fail_without_a_write() {
    let mut r = up_to_records("example.com", v4("127.0.0.1"));
    let records = vec![record("1", "A", "example.com"), record("2", "A", "example.com")];
    let a = r.step(DnsEvent::RecordsListed(answered(records)));
    assert!(matches!(a, DnsAction::Done(Err(DnsError::ConflictingRecords))));
    assert!(matches!(r.step(DnsEvent::RecordWritten(answered(()))), DnsAction::Done(Err(DnsError::ConflictingRecords))));
}

#[test]
fn ipv6_reconciliation_looks_at_aaaa_records() {
    let address = IpAddress { family: AddressFamily::V6, text: "2001:db8::1".to_owned() };
    let mut r = up_to_records("example.com", address);
    match r.step(DnsEvent::RecordsListed(answered(vec![record("1", "A", "example.com")]))) {
        DnsAction::CreateRecord { body, .. } => assert_eq!(body.record_type, "AAAA"),
        _ => panic!("expected one create"),
    }
}

#[test]
fn provider_failures_end_the_reconciliation() {
    let mut r = DnsReconciler::new("example.com".to_owned(), v4("127.0.0.1"), 1, false);
    r.step(DnsEvent::Begin);
    let a = r.step(DnsEvent::ZonesListed(ProviderReply::Unreachable("timeout".to_owned())));
    assert!(matches!(a, DnsAction::Done(Err(DnsError::Unreachable))));

    let mut r = DnsReconciler::new("example.com".to_owned(), v4("127.0.0.1"), 1, false);
    r.step(DnsEvent::Begin);
    let a = r.step(DnsEvent::ZonesListed(ProviderReply::Answered { success: false, result: None }));
    assert!(matches!(a, DnsAction::Done(Err(DnsError::ZoneLookupFailed))));

    let mut r = up_to_records("example.com", v4("127.0.0.1"));
    let a = r.step(DnsEvent::RecordsListed(ProviderReply::Answered { success: true, result: None }));
    assert!(matches!(a, DnsAction::Done(Err(DnsError::RecordLookupFailed))));
}

#[test]
fn events_out_of_order_are_refused() {
    let mut r = DnsReconciler::new("example.com".to_owned(), v4("127.0.0.1"), 1, false);
    let a = r.step(DnsEvent::RecordWritten(answered(())));
    assert!(matches!(a, DnsAction::Done(Err(DnsError::OutOfOrder))));
}

#[test]
fn record_types_by_family() {
    assert_eq!(type_string(AddressFamily::V4), "A");
    assert_eq!(type_string(AddressFamily::V6), "AAAA");
}
