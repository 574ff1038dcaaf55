use cdu::cache::{EntityKind, IdentifierCache};
use cdu::certificate::{CertificateState, CheckResult, CheckState};
use cdu::engine::CycleResult;
use cdu::error::{CycleError, NoIPV4, PublicIPError};
use cdu::opts::Opts;
use cdu::resolve::pick_identifier;
use cdu::retry::{after_attempt, RetryPolicy, RetryStep};
use cdu::schedule::{is_due, keeps_running, next_firing};
use cdu::scrape::Scraper;

fn opts(records: &str, cache_seconds: u64) -> Opts {
    Opts {
        token: "token".to_string(),
        zone: "x.com".to_string(),
        records: records.to_string(),
        daemon: false,
        cron: "0 */5 * * * * *".to_string(),
        cache_seconds,
    }
}

#[test]
fn get_after_set_returns_the_value() {
    let mut cache = IdentifierCache::new(3);
    assert_eq!(cache.get(EntityKind::Zone, "example.com"), None);
    cache.set(EntityKind::Zone, "example.com", "zone-1", 60);
    assert_eq!(cache.get(EntityKind::Zone, "example.com"), Some("zone-1".to_string()));
    // the kind is part of the key
    assert_eq!(cache.get(EntityKind::Record, "example.com"), None);
    cache.set(EntityKind::Zone, "example.com", "zone-2", 60);
    assert_eq!(cache.get(EntityKind::Zone, "example.com"), Some("zone-2".to_string()));
}

#[test]
fn zero_ttl_caches_nothing() {
    let mut cache = IdentifierCache::new(3);
    cache.set(EntityKind::Record, "a.example.com", "rec-1", 0);
    assert_eq!(cache.get(EntityKind::Record, "a.example.com"), None);
}

#[test]
fn expired_entry_is_a_miss() {
    let mut cache = IdentifierCache::new(3);
    cache.set(EntityKind::Record, "a.example.com", "rec-1", 1);
    assert_eq!(cache.get(EntityKind::Record, "a.example.com"), Some("rec-1".to_string()));
    let start = std::time::Instant::now();
    while start.elapsed() < std::time::Duration::from_millis(2100) {}
    assert_eq!(cache.get(EntityKind::Record, "a.example.com"), None);
}

#[test]
fn pick_takes_first_or_fails() {
    let name = "a.x.com".to_string();
    let r = pick_identifier(&name, &Ok(vec!["1".to_string(), "2".to_string()]));
    assert!(matches!(r, Ok(ref id) if id == "1"));
    let r = pick_identifier(&name, &Ok(vec![]));
    assert!(matches!(r, Err(CycleError::NotFound(ref n)) if n == "a.x.com"));
}

#[test]
fn delays_double_up_to_the_cap() {
    let p = RetryPolicy::standard();
    let got: Vec<u64> = (0..9).map(|k| p.base_delay_ms(k)).collect();
    assert_eq!(got, vec![100, 200, 400, 800, 1600, 3200, 6400, 10000, 10000]);
    assert_eq!(p.delay_ms(0, 0), 100);
    assert_eq!(p.delay_ms(0, 150), 150);
    assert_eq!(p.delay_ms(1, 199), 399);
    assert_eq!(p.delay_ms(7, 12345), 10000);
}

#[test]
fn failing_source_is_retried_at_most_the_allowed_times() {
    let p = RetryPolicy::standard();
    let failed = CycleResult::Failed(CycleError::NoPublicIp);
    let mut attempts: u32 = 1;
    let mut pauses = vec![];
    loop {
        match after_attempt(&p, attempts, &failed, 0xdead_beef_u64.wrapping_mul(attempts as u64)) {
            RetryStep::RetryAfter(d) => {
                pauses.push(d);
                attempts += 1;
            }
            RetryStep::GiveUp => break,
            RetryStep::Done => panic!("a failure is never done"),
        }
    }
    assert_eq!(attempts, 10);
    assert_eq!(pauses.len(), 9);
    assert!(pauses.windows(2).all(|w| w[0] <= w[1]));
    assert!(pauses.iter().all(|d| *d >= 100 && *d <= 10000));
}

#[test]
fn unrecoverable_failures_are_not_retried() {
    let p = RetryPolicy::standard();
    let r = after_attempt(&p, 1, &CycleResult::Failed(CycleError::NotFound("x".to_string())), 0);
    assert_eq!(r, RetryStep::GiveUp);
    let r = after_attempt(&p, 1, &CycleResult::Failed(CycleError::Fatal("x".to_string())), 0);
    assert_eq!(r, RetryStep::GiveUp);
    let r = after_attempt(&p, 1, &CycleResult::Failed(CycleError::Transient("x".to_string())), 0);
    assert_eq!(r, RetryStep::RetryAfter(100));
    assert_eq!(after_attempt(&p, 1, &CycleResult::Skipped, 0), RetryStep::Done);
    assert_eq!(after_attempt(&p, 3, &CycleResult::Updated(2), 0), RetryStep::Done);
}

#[test]
fn record_names_split_on_commas() {
    assert_eq!(opts("a.x.com,b.x.com", 0).record_name_list(), vec!["a.x.com", "b.x.com"]);
    assert_eq!(opts("a.x.com", 0).record_name_list(), vec!["a.x.com"]);
    assert_eq!(opts("", 0).record_name_list(), vec![""]);
    assert_eq!(opts("a,,b,", 0).record_name_list(), vec!["a", "", "b", ""]);
}

#[test]
fn engine_from_opts_checks_cache_time() {
    let engine = opts("a.x.com,b.x.com", 300).engine();
    assert!(engine.is_ok());
    assert!(matches!(opts("a", u64::MAX).engine(), Err(CycleError::Fatal(_))));
}

#[test]
fn schedule_fires_strictly_later() {
    assert_eq!(next_firing("0 */5 * * * * *", 0).unwrap(), Some(300));
    assert_eq!(next_firing("0 */5 * * * * *", 300).unwrap(), Some(600));
    assert!(matches!(next_firing("not a schedule", 0), Err(CycleError::Fatal(_))));
    assert!(is_due(10, 10));
    assert!(!is_due(9, 10));
}

#[test]
fn daemon_stops_only_on_fatal_errors() {
    assert!(keeps_running(&CycleResult::Updated(1)));
    assert!(keeps_running(&CycleResult::Failed(CycleError::NotFound("x".to_string()))));
    assert!(keeps_running(&CycleResult::Failed(CycleError::NoPublicIp)));
    assert!(!keeps_running(&CycleResult::Failed(CycleError::Fatal("bad".to_string()))));
}

#[test]
fn error_messages() {
    assert_eq!(NoIPV4.message(), "cannot fetch public IPv4 address");
    assert_eq!(PublicIPError.message(), "failed to determine public IPv4 address");
}

#[test]
fn state_icons() {
    let mut result = CheckResult::expired("expired.badssl.com".to_string(), 1);
    assert_eq!(result.state_icon(false), "[x]");
    assert_eq!(result.state_icon(true), "\u{274c}");
    result.state = CheckState::Valid;
    assert_eq!(result.state_icon(false), "[v]");
    assert_eq!(result.state_icon(true), "\u{2705}");
    result.state = CheckState::Warning;
    assert_eq!(result.state_icon(false), "[-]");
    assert_eq!(result.state_icon(true), "\u{26a0}\u{fe0f}");
    result.state = CheckState::default();
    assert_eq!(result.state_icon(false), "[?]");
    assert_eq!(result.state_icon(true), "\u{2753}");
    assert_eq!(CertificateState::Expired.label(), "EXPIRED");
    assert_eq!(CertificateState::Error("x".to_string()).label(), "ERROR");
}

#[test]
fn scraper_builders() {
    let s = Scraper::from_url("https://example.com")
        .with_user_id(7)
        .with_force(true)
        .with_headless(true);
    assert_eq!(s.url, "https://example.com");
    assert_eq!(s.user_id, Some(7));
    assert!(s.force && s.headless);
    let plain = Scraper::from_url("u");
    assert_eq!(plain.user_id, None);
    assert!(!plain.force && !plain.headless);
}
