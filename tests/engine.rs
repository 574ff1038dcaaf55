use cdu::address::Ipv4;
use cdu::engine::{Action, CycleResult, Event, UpdateEngine};
use cdu::error::CycleError;

fn names() -> Vec<String> {
    vec!["a.example.com".to_string(), "b.example.com".to_string()]
}

fn listed(id: &str) -> Result<Vec<String>, String> {
    Ok(vec![id.to_string()])
}

/// Runs a first cycle that resolves everything at the provider and leaves
/// `ip` as the last known address.
fn first_cycle(engine: &mut UpdateEngine, ip: Ipv4) {
    assert!(matches!(engine.begin(), Action::FetchIp));
    match engine.advance(Event::IpFetched(Some(ip))) {
        Action::LookupZone { name } => assert_eq!(name, "example.com"),
        other => panic!("unexpected {:?}", other),
    }
    match engine.advance(Event::ZoneListed(listed("zone-1"))) {
        Action::LookupRecords { zone_id, names: asked } => {
            assert_eq!(zone_id, "zone-1");
            assert_eq!(asked, names());
        }
        other => panic!("unexpected {:?}", other),
    }
    match engine.advance(Event::RecordsListed(vec![listed("rec-1"), listed("rec-2")])) {
        Action::UpdateRecords { zone_id, records, ip: to } => {
            assert_eq!(zone_id, "zone-1");
            assert_eq!(to, ip);
            assert_eq!(
                records,
                vec![
                    ("rec-1".to_string(), "a.example.com".to_string()),
                    ("rec-2".to_string(), "b.example.com".to_string())
                ]
            );
        }
        other => panic!("unexpected {:?}", other),
    }
    let done = engine.advance(Event::RecordsUpdated(vec![Ok(()), Ok(())]));
    assert!(matches!(done, Action::Finish(CycleResult::Updated(2))));
    assert_eq!(engine.last_known_ip(), Some(ip));
    assert!(engine.is_idle());
}

#[test]
fn changed_address_updates_every_record_from_cache() {
    let mut engine = UpdateEngine::new("example.com".to_string(), names(), 3600);
    first_cycle(&mut engine, Ipv4::new(1, 2, 3, 4));

    assert!(matches!(engine.begin(), Action::FetchIp));
    // zone and both records come from the cache: the updates follow at once
    match engine.advance(Event::IpFetched(Some(Ipv4::new(5, 6, 7, 8)))) {
        Action::UpdateRecords { zone_id, records, ip } => {
            assert_eq!(zone_id, "zone-1");
            assert_eq!(ip, Ipv4::new(5, 6, 7, 8));
            assert_eq!(ip.octets(), [5, 6, 7, 8]);
            assert_eq!(
                records,
                vec![
                    ("rec-1".to_string(), "a.example.com".to_string()),
                    ("rec-2".to_string(), "b.example.com".to_string())
                ]
            );
        }
        other => panic!("unexpected {:?}", other),
    }
    let done = engine.advance(Event::RecordsUpdated(vec![Ok(()), Ok(())]));
    assert!(matches!(done, Action::Finish(CycleResult::Updated(2))));
    assert_eq!(engine.last_known_ip(), Some(Ipv4::new(5, 6, 7, 8)));
}

#[test]
fn unchanged_address_is_skipped() {
    let mut engine = UpdateEngine::new("example.com".to_string(), names(), 0);
    first_cycle(&mut engine, Ipv4::new(1, 2, 3, 4));
    engine.begin();
    let a = engine.advance(Event::IpFetched(Some(Ipv4::new(1, 2, 3, 4))));
    assert!(matches!(a, Action::Finish(CycleResult::Skipped)));
    assert!(engine.is_idle());
    assert_eq!(engine.last_known_ip(), Some(Ipv4::new(1, 2, 3, 4)));
}

#[test]
fn disabled_cache_looks_up_again() {
    let mut engine = UpdateEngine::new("example.com".to_string(), names(), 0);
    first_cycle(&mut engine, Ipv4::new(1, 2, 3, 4));
    engine.begin();
    let a = engine.advance(Event::IpFetched(Some(Ipv4::new(5, 6, 7, 8))));
    assert!(matches!(a, Action::LookupZone { .. }));
}

#[test]
fn first_address_is_never_skipped() {
    let mut engine = UpdateEngine::new("example.com".to_string(), names(), 0);
    assert_eq!(engine.last_known_ip(), None);
    engine.begin();
    let a = engine.advance(Event::IpFetched(Some(Ipv4::new(1, 2, 3, 4))));
    assert!(matches!(a, Action::LookupZone { .. }));
}

#[test]
fn missing_address_fails_recoverably() {
    let mut engine = UpdateEngine::new("example.com".to_string(), names(), 0);
    engine.begin();
    match engine.advance(Event::IpFetched(None)) {
        Action::Finish(CycleResult::Failed(e)) => {
            assert!(matches!(e, CycleError::NoPublicIp));
            assert!(e.is_recoverable());
        }
        other => panic!("unexpected {:?}", other),
    }
    assert!(engine.is_idle());
}

#[test]
fn missing_zone_is_not_found() {
    let mut engine = UpdateEngine::new("example.com".to_string(), names(), 60);
    engine.begin();
    engine.advance(Event::IpFetched(Some(Ipv4::new(1, 2, 3, 4))));
    match engine.advance(Event::ZoneListed(Ok(vec![]))) {
        Action::Finish(CycleResult::Failed(CycleError::NotFound(name))) => {
            assert_eq!(name, "example.com")
        }
        other => panic!("unexpected {:?}", other),
    }
    assert!(engine.is_idle());
    assert_eq!(engine.last_known_ip(), None);
    // nothing else is asked for: a records event now is out of place
    let a = engine.advance(Event::RecordsListed(vec![]));
    assert!(matches!(a, Action::Finish(CycleResult::Failed(CycleError::Fatal(_)))));
}

#[test]
fn failed_zone_listing_is_transient() {
    let mut engine = UpdateEngine::new("example.com".to_string(), names(), 60);
    engine.begin();
    engine.advance(Event::IpFetched(Some(Ipv4::new(1, 2, 3, 4))));
    match engine.advance(Event::ZoneListed(Err("timeout".to_string()))) {
        Action::Finish(CycleResult::Failed(CycleError::Transient(m))) => assert_eq!(m, "timeout"),
        other => panic!("unexpected {:?}", other),
    }
}

#[test]
fn first_zone_listed_is_taken() {
    let mut engine = UpdateEngine::new("example.com".to_string(), names(), 60);
    engine.begin();
    engine.advance(Event::IpFetched(Some(Ipv4::new(1, 2, 3, 4))));
    let a = engine.advance(Event::ZoneListed(Ok(vec!["z1".to_string(), "z2".to_string()])));
    match a {
        Action::LookupRecords { zone_id, .. } => assert_eq!(zone_id, "z1"),
        other => panic!("unexpected {:?}", other),
    }
}

#[test]
fn missing_record_fails_with_first_failure_in_order() {
    let mut engine = UpdateEngine::new("example.com".to_string(), names(), 60);
    engine.begin();
    engine.advance(Event::IpFetched(Some(Ipv4::new(1, 2, 3, 4))));
    engine.advance(Event::ZoneListed(listed("zone-1")));
    let a = engine.advance(Event::RecordsListed(vec![Ok(vec![]), Err("down".to_string())]));
    match a {
        Action::Finish(CycleResult::Failed(CycleError::NotFound(name))) => {
            assert_eq!(name, "a.example.com")
        }
        other => panic!("unexpected {:?}", other),
    }
    assert_eq!(engine.last_known_ip(), None);
}

#[test]
fn resolved_records_are_cached_even_when_another_fails() {
    let mut engine = UpdateEngine::new("example.com".to_string(), names(), 3600);
    engine.begin();
    engine.advance(Event::IpFetched(Some(Ipv4::new(1, 2, 3, 4))));
    engine.advance(Event::ZoneListed(listed("zone-1")));
    let a = engine.advance(Event::RecordsListed(vec![listed("rec-1"), Ok(vec![])]));
    assert!(matches!(a, Action::Finish(CycleResult::Failed(CycleError::NotFound(_)))));
    // next cycle: zone and the first record hit the cache, only the second is asked for
    engine.begin();
    match engine.advance(Event::IpFetched(Some(Ipv4::new(1, 2, 3, 4)))) {
        Action::LookupRecords { zone_id, names: asked } => {
            assert_eq!(zone_id, "zone-1");
            assert_eq!(asked, vec!["b.example.com".to_string()]);
        }
        other => panic!("unexpected {:?}", other),
    }
    match engine.advance(Event::RecordsListed(vec![listed("rec-2")])) {
        Action::UpdateRecords { records, .. } => assert_eq!(
            records,
            vec![
                ("rec-1".to_string(), "a.example.com".to_string()),
                ("rec-2".to_string(), "b.example.com".to_string())
            ]
        ),
        other => panic!("unexpected {:?}", other),
    }
}

#[test]
fn partial_update_fails_and_keeps_last_address() {
    let mut engine = UpdateEngine::new("example.com".to_string(), names(), 3600);
    first_cycle(&mut engine, Ipv4::new(1, 2, 3, 4));
    engine.begin();
    let a = engine.advance(Event::IpFetched(Some(Ipv4::new(5, 6, 7, 8))));
    assert!(matches!(a, Action::UpdateRecords { .. }));
    match engine.advance(Event::RecordsUpdated(vec![Ok(()), Err("rejected".to_string())])) {
        Action::Finish(CycleResult::Failed(CycleError::Aggregate(failures))) => {
            assert_eq!(failures.len(), 1);
            assert_eq!(failures[0].record, "b.example.com");
            assert_eq!(failures[0].message, "rejected");
        }
        other => panic!("unexpected {:?}", other),
    }
    assert_eq!(engine.last_known_ip(), Some(Ipv4::new(1, 2, 3, 4)));
    // the next cycle tries every record again
    engine.begin();
    match engine.advance(Event::IpFetched(Some(Ipv4::new(5, 6, 7, 8)))) {
        Action::UpdateRecords { records, .. } => assert_eq!(records.len(), 2),
        other => panic!("unexpected {:?}", other),
    }
}

#[test]
fn wrong_number_of_outcomes_is_fatal() {
    let mut engine = UpdateEngine::new("example.com".to_string(), names(), 3600);
    first_cycle(&mut engine, Ipv4::new(1, 2, 3, 4));
    engine.begin();
    engine.advance(Event::IpFetched(Some(Ipv4::new(5, 6, 7, 8))));
    let a = engine.advance(Event::RecordsUpdated(vec![Ok(())]));
    assert!(matches!(a, Action::Finish(CycleResult::Failed(CycleError::Fatal(_)))));
    assert_eq!(engine.last_known_ip(), Some(Ipv4::new(1, 2, 3, 4)));
}

#[test]
fn event_out_of_place_is_fatal() {
    let mut engine = UpdateEngine::new("example.com".to_string(), names(), 0);
    let a = engine.advance(Event::IpFetched(Some(Ipv4::new(1, 2, 3, 4))));
    match a {
        Action::Finish(CycleResult::Failed(e)) => {
            assert!(matches!(e, CycleError::Fatal(_)));
            assert!(!e.is_recoverable());
        }
        other => panic!("unexpected {:?}", other),
    }
}

#[test]
fn no_record_names_updates_nothing() {
    let mut engine = UpdateEngine::new("example.com".to_string(), vec![], 0);
    engine.begin();
    engine.advance(Event::IpFetched(Some(Ipv4::new(1, 2, 3, 4))));
    match engine.advance(Event::ZoneListed(listed("zone-1"))) {
        Action::UpdateRecords { records, .. } => assert!(records.is_empty()),
        other => panic!("unexpected {:?}", other),
    }
    let a = engine.advance(Event::RecordsUpdated(vec![]));
    assert!(matches!(a, Action::Finish(CycleResult::Updated(0))));
}
