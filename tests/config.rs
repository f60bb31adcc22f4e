use sha2::{Digest, Sha256};
use tauri_plugin_keygen::client::KeygenClient;
use tauri_plugin_keygen::err::Error;
use tauri_plugin_keygen::licensed::license::License;
use tauri_plugin_keygen::licensed::{response_cache_name, validation_request, CalendarDate, LicensedState};
use tauri_plugin_keygen::machine::Machine;
use tauri_plugin_keygen::Builder;

#[test]
fn builder_defaults() {
    let b = Builder::new("acct".to_string(), "abcd".to_string());
    assert_eq!(b.api_url.as_deref(), Some("https://api.keygen.sh"));
    assert_eq!(b.account_id.as_deref(), Some("acct"));
    assert_eq!(b.cache_lifetime, 240);
    let b = b.api_url("https://eu.example.com".to_string()).version_header("1.7".to_string());
    assert_eq!(b.api_url.as_deref(), Some("https://eu.example.com"));
    assert_eq!(b.version_header.as_deref(), Some("1.7"));
}

#[test]
fn builder_custom_domain_ignores_api_url() {
    let b = Builder::with_custom_domain("https://lic.example.com".to_string(), "abcd".to_string())
        .api_url("https://api.keygen.sh".to_string());
    assert_eq!(b.api_url, None);
    assert_eq!(b.custom_domain.as_deref(), Some("https://lic.example.com"));
}

#[test]
fn builder_cache_lifetime_is_clamped() {
    let b = Builder::new("a".to_string(), "k".to_string());
    assert_eq!(b.clone().cache_lifetime(10).cache_lifetime, 60);
    assert_eq!(b.clone().cache_lifetime(60).cache_lifetime, 60);
    assert_eq!(b.clone().cache_lifetime(300).cache_lifetime, 300);
    assert_eq!(b.clone().cache_lifetime(1440).cache_lifetime, 1440);
    assert_eq!(b.cache_lifetime(100_000).cache_lifetime, 1440);
}

#[test]
fn full_paths() {
    let b = Builder::new("acct-1".to_string(), "k".to_string());
    let c = b.keygen_client();
    assert_eq!(c.max_clock_drift, 5);
    assert_eq!(c.get_base_url().unwrap(), "https://api.keygen.sh");
    assert_eq!(c.get_full_path("machines").unwrap(), "v1/accounts/acct-1/machines");
    let c = Builder::with_custom_domain("https://x".to_string(), "k".to_string()).keygen_client();
    assert_eq!(c.get_full_path("licenses/actions/validate-key").unwrap(), "v1/licenses/actions/validate-key");
    let c = KeygenClient::new(None, Some("https://api".to_string()), None, "k".to_string(), 60);
    match c.get_full_path("machines") {
        Err(Error::ParseErr(m)) => assert_eq!(m, "Error parsing url: missing account_id"),
        other => panic!("{:?}", other),
    }
    let c = KeygenClient::new(None, None, None, "k".to_string(), 60);
    match c.get_base_url() {
        Err(Error::ParseErr(m)) => {
            assert_eq!(m, "Failed getting base url: neither custom_domain nor api_url is provided")
        }
        other => panic!("{:?}", other),
    }
    match c.get_full_path("machines") {
        Err(Error::ParseErr(m)) => assert_eq!(m, "Error parsing url path"),
        other => panic!("{:?}", other),
    }
}

#[test]
fn calendar_date_text() {
    assert_eq!(CalendarDate { year: 2024, month: 3, day: 5 }.text(), "2024-03-05");
    assert_eq!(CalendarDate { year: 987, month: 12, day: 31 }.text(), "0987-12-31");
    assert_eq!(CalendarDate { year: 12345, month: 1, day: 2 }.text(), "+12345-01-02");
    let d = chrono::NaiveDate::from_ymd_opt(2024, 3, 5).unwrap();
    assert_eq!(d.to_string(), CalendarDate { year: 2024, month: 3, day: 5 }.text());
}

#[test]
fn cache_name_is_hash_of_key_and_day() {
    let name = response_cache_name("KEY-1", &CalendarDate { year: 2024, month: 3, day: 5 });
    let expected = format!("{:x}", Sha256::digest("KEY-1:2024-03-05".as_bytes()));
    assert_eq!(name, expected);
    assert_eq!(name.len(), 64);
    let other_day = response_cache_name("KEY-1", &CalendarDate { year: 2024, month: 3, day: 6 });
    assert_ne!(name, other_day);
}

#[test]
fn validation_request_needs_fingerprint() {
    let m = Machine::new(String::new(), "n".to_string(), "h".to_string(), "p".to_string(), "u".to_string());
    match validation_request("KEY", vec![], &m) {
        Err(Error::LicenseErr { code, .. }) => assert_eq!(code, "NO_FINGERPRINT"),
        other => panic!("{:?}", other),
    }
    let m = Machine::new("fp".to_string(), "n".to_string(), "h".to_string(), "p".to_string(), "u".to_string());
    let q = validation_request("KEY-1 \n", vec![], &m).unwrap();
    assert_eq!(q.key, "KEY-1");
    assert_eq!(q.fingerprint, "fp");
    assert_eq!(q.entitlements, None);
    let q = validation_request("KEY-2\u{3000}\t", vec![], &m).unwrap();
    assert_eq!(q.key, "KEY-2");
    let q = validation_request("KEY-1", vec!["PRO".to_string()], &m).unwrap();
    assert_eq!(q.entitlements, Some(vec!["PRO".to_string()]));
}

fn lic(id: &str) -> License {
    License {
        id: id.to_string(),
        policy_id: "p".to_string(),
        key: "k".to_string(),
        code: "VALID".to_string(),
        detail: "d".to_string(),
        expiry: None,
        entitlements: vec!["A".to_string()],
        metadata: "{}".to_string(),
        valid: true,
    }
}

#[test]
fn startup_prefers_machine_file_then_cache() {
    assert_eq!(LicensedState::from_sources(Some(lic("m")), Some(lic("c"))).license.unwrap().id, "m");
    assert_eq!(LicensedState::from_sources(None, Some(lic("c"))).license.unwrap().id, "c");
    assert!(LicensedState::from_sources(None, None).license.is_none());
}

#[test]
fn license_status_helpers() {
    let mut l = lic("x");
    assert!(!l.should_maintain_access());
    l.code = "EXPIRED".to_string();
    assert!(l.should_maintain_access());
    l.valid = false;
    assert!(!l.should_maintain_access());
    let now = 1_700_000_000;
    assert!(l.has_expired(now));
    l.expiry = Some(chrono::DateTime::from_timestamp(now + 3600, 0).unwrap().to_rfc3339());
    assert!(!l.has_expired(now));
    l.expiry = Some(chrono::DateTime::from_timestamp(now + 59, 0).unwrap().to_rfc3339());
    assert!(l.has_expired(now));
    let copy = l.duplicate();
    assert_eq!(copy.entitlements, l.entitlements);
    assert_eq!(copy.expiry, l.expiry);
}
