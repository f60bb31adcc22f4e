use base64::Engine;
use ed25519_dalek::{Signer, SigningKey};
use sha2::{Digest, Sha256};
use tauri_plugin_keygen::client::sig::KeygenSig;
use tauri_plugin_keygen::client::{KeygenClient, KeygenResponseCache, RequestUrl, ResponseHeaders};
use tauri_plugin_keygen::err::{parse_err_json, APIError, APIErrors, Error, ErrorSummary};
use tauri_plugin_keygen::licensed::license::License;
use tauri_plugin_keygen::licensed::types::{
    LicenseAttributes, LicenseData, LicenseMeta, LicensePolicy, LicensePolicyData,
    LicenseRelationships, LicenseResponse, LicenseScope,
};
use tauri_plugin_keygen::licensed::{
    cache_entry_step, license_from_cache_body, validated_license, validation_result, LicensedState,
};

const NOW: i64 = 1_700_000_000;

fn signing_key() -> SigningKey {
    SigningKey::from_bytes(&[7u8; 32])
}

fn client() -> KeygenClient {
    let verify_key = hex::encode(signing_key().verifying_key().to_bytes());
    KeygenClient::new(
        None,
        Some("https://api.keygen.sh".to_string()),
        Some("acct".to_string()),
        verify_key,
        240,
    )
}

fn b64(bytes: &[u8]) -> String {
    base64::engine::general_purpose::STANDARD.encode(bytes)
}

fn digest(body: &str) -> String {
    format!("sha-256={}", b64(&Sha256::digest(body.as_bytes())))
}

fn rfc2822(t: i64) -> String {
    chrono::DateTime::from_timestamp(t, 0).unwrap().to_rfc2822()
}

fn url() -> RequestUrl {
    RequestUrl {
        path: "/v1/accounts/acct/licenses/actions/validate-key".to_string(),
        query: None,
        host: Some("api.keygen.sh".to_string()),
    }
}

fn signing_string(target: &str, host: &str, date: &str, digest: &str) -> String {
    format!(
        "(request-target): {}\nhost: {}\ndate: {}\ndigest: {}",
        target, host, date, digest
    )
}

/// Headers of a correctly signed response to `POST url()` with `body`, dated `date`.
fn signed_headers(body: &str, date: &str) -> ResponseHeaders {
    let d = digest(body);
    let data = signing_string(
        "post /v1/accounts/acct/licenses/actions/validate-key",
        "api.keygen.sh",
        date,
        &d,
    );
    let sig = b64(&signing_key().sign(data.as_bytes()).to_bytes());
    ResponseHeaders {
        keygen_signature: Some(format!("algorithm=\"ed25519\", signature=\"{}\"", sig)),
        date: Some(date.to_string()),
        digest: Some(d),
    }
}

fn bad_response(r: Result<KeygenResponseCache, Error>) -> String {
    match r {
        Err(Error::BadResponse(m)) => m,
        other => panic!("expected a bad response, got {:?}", other),
    }
}

#[test]
fn header_params_are_read() {
    let (alg, sig) =
        KeygenSig::parse_header_params("algorithm=\"ed25519\", signature=\"abc==\"".to_string());
    assert_eq!(alg.as_deref(), Some("ed25519"));
    assert_eq!(sig.as_deref(), Some("abc=="));
}

#[test]
fn header_params_last_wins_and_need_quotes() {
    let (alg, sig) = KeygenSig::parse_header_params(
        "keyid=\"x\", algorithm=\"rsa\", algorithm=\"ed25519\", signature=nope".to_string(),
    );
    assert_eq!(alg.as_deref(), Some("ed25519"));
    assert_eq!(sig, None);
    let (alg, sig) = KeygenSig::parse_header_params("signature=\"abc".to_string());
    assert_eq!(alg, None);
    assert_eq!(sig.as_deref(), Some("abc"));
    let (alg, sig) = KeygenSig::parse_header_params(String::new());
    assert_eq!((alg, sig), (None, None));
}

#[test]
fn signature_header_errors() {
    let mut h = ResponseHeaders { keygen_signature: None, date: None, digest: None };
    match KeygenSig::parse_signature(&h) {
        Err(Error::BadResponse(m)) => assert_eq!(m, "Missing header: Keygen-Signature"),
        other => panic!("{:?}", other),
    }
    h.keygen_signature = Some("signature=\"abc\"".to_string());
    match KeygenSig::parse_signature(&h) {
        Err(Error::BadResponse(m)) => assert_eq!(m, "Missing header: Keygen-Signature.algorithm"),
        other => panic!("{:?}", other),
    }
    h.keygen_signature = Some("algorithm=\"rsa-sha256\", signature=\"abc\"".to_string());
    match KeygenSig::parse_signature(&h) {
        Err(Error::BadResponse(m)) => assert_eq!(m, "Unsupported algorithm"),
        other => panic!("{:?}", other),
    }
    h.keygen_signature = Some("algorithm=\"ed25519\"".to_string());
    match KeygenSig::parse_signature(&h) {
        Err(Error::BadResponse(m)) => assert_eq!(m, "Missing header: Keygen-Signature.signature"),
        other => panic!("{:?}", other),
    }
    h.keygen_signature = Some("algorithm=\"ed25519\", signature=\"abc\"".to_string());
    assert_eq!(KeygenSig::parse_signature(&h).unwrap(), "abc");
}

#[test]
fn digest_of_empty_body() {
    let sig = KeygenSig::from_response_cache(KeygenResponseCache {
        sig: String::new(),
        target: String::new(),
        host: String::new(),
        date: String::new(),
        body: String::new(),
    });
    assert_eq!(sig.digest(), "sha-256=47DEQpj8HBSa+/TImW+5JCeuQeRkm5NMpJWZG3hSuFU=");
}

#[test]
fn signing_string_is_in_fixed_order() {
    let headers = ResponseHeaders {
        keygen_signature: Some("algorithm=\"ed25519\", signature=\"c2ln\"".to_string()),
        date: Some("Wed, 09 Jun 2021 16:08:15 GMT".to_string()),
        digest: None,
    };
    let url = RequestUrl {
        path: "/v1/machines".to_string(),
        query: Some("encrypt=1".to_string()),
        host: Some("api.keygen.sh".to_string()),
    };
    let sig = KeygenSig::from_response("POST".to_string(), url, &headers, "{}".to_string()).unwrap();
    assert_eq!(sig.target(), "post /v1/machines?encrypt=1");
    assert_eq!(sig.host(), "api.keygen.sh");
    assert_eq!(
        sig.data(),
        signing_string(
            "post /v1/machines?encrypt=1",
            "api.keygen.sh",
            "Wed, 09 Jun 2021 16:08:15 GMT",
            &digest("{}")
        )
    );
}

#[test]
fn signature_data_needs_host_and_date() {
    let headers = ResponseHeaders {
        keygen_signature: Some("algorithm=\"ed25519\", signature=\"c2ln\"".to_string()),
        date: None,
        digest: None,
    };
    let mut u = url();
    match KeygenSig::from_response("POST".to_string(), u.clone(), &headers, String::new()) {
        Err(Error::BadResponse(m)) => assert_eq!(m, "Missing header: Date"),
        other => panic!("{:?}", other.map(|s| s.data())),
    }
    u.host = None;
    match KeygenSig::from_response("POST".to_string(), u, &headers, String::new()) {
        Err(Error::BadResponse(m)) => assert_eq!(m, "Failed parsing host"),
        other => panic!("{:?}", other.map(|s| s.data())),
    }
}

#[test]
fn verify_accepts_signed_fresh_response() {
    let body = "{\"meta\":{}}";
    let date = rfc2822(NOW - 60);
    let r = client()
        .verify_response("POST".to_string(), url(), signed_headers(body, &date), body.to_string(), NOW)
        .unwrap();
    assert_eq!(r.body, body);
    assert_eq!(r.date, date);
    assert_eq!(r.host, "api.keygen.sh");
    assert_eq!(r.target, "post /v1/accounts/acct/licenses/actions/validate-key");
}

#[test]
fn verify_rejects_tampered_body() {
    let date = rfc2822(NOW);
    let headers = signed_headers("{\"a\":1}", &date);
    let r = client().verify_response("POST".to_string(), url(), headers, "{\"a\":2}".to_string(), NOW);
    assert_eq!(bad_response(r), "Digest didn't match");
}

#[test]
fn verify_rejects_bad_signature() {
    let body = "{}";
    let date = rfc2822(NOW);
    let mut headers = signed_headers(body, &date);
    let other = SigningKey::from_bytes(&[9u8; 32]);
    let data = signing_string(
        "post /v1/accounts/acct/licenses/actions/validate-key",
        "api.keygen.sh",
        &date,
        &digest(body),
    );
    headers.keygen_signature = Some(format!(
        "algorithm=\"ed25519\", signature=\"{}\"",
        b64(&other.sign(data.as_bytes()).to_bytes())
    ));
    let r = client().verify_response("POST".to_string(), url(), headers, body.to_string(), NOW);
    assert_eq!(bad_response(r), "Invalid Signature");
}

#[test]
fn verify_rejects_stale_date() {
    let body = "{}";
    let date = rfc2822(NOW - 6 * 60);
    let r = client().verify_response("POST".to_string(), url(), signed_headers(body, &date), body.to_string(), NOW);
    assert_eq!(bad_response(r), "Request date too old");
    let date = rfc2822(NOW - 5 * 60 - 59);
    let r = client().verify_response("POST".to_string(), url(), signed_headers(body, &date), body.to_string(), NOW);
    assert!(r.is_ok());
}

#[test]
fn verify_needs_digest_header() {
    let body = "{}";
    let date = rfc2822(NOW);
    let mut headers = signed_headers(body, &date);
    headers.digest = None;
    let r = client().verify_response("POST".to_string(), url(), headers, body.to_string(), NOW);
    assert_eq!(bad_response(r), "Missing header: Digest");
}

#[test]
fn verify_signature_rejects_malformed_inputs() {
    let c = client();
    match c.verify_signature("x".to_string(), "%%%".to_string()) {
        Err(Error::ParseErr(m)) => assert_eq!(m, "Failed decoding signature"),
        other => panic!("{:?}", other),
    }
    match c.verify_signature("x".to_string(), b64(&[1u8; 10])) {
        Err(Error::ParseErr(m)) => assert_eq!(m, "Invalid signature format"),
        other => panic!("{:?}", other),
    }
    let mut bad = c.clone();
    bad.verify_key = "zz".to_string();
    match bad.verify_signature("x".to_string(), b64(&[1u8; 64])) {
        Err(Error::ParseErr(m)) => assert_eq!(m, "Failed parsing verify key to bytes"),
        other => panic!("{:?}", other),
    }
    let good = b64(&signing_key().sign(b"x").to_bytes());
    assert!(c.verify_signature("x".to_string(), good).is_ok());
}

#[test]
fn verified_response_reloads_from_cache_same_day() {
    let body = "{\"meta\":{\"valid\":true}}";
    let date = rfc2822(NOW);
    let c = client();
    let cache = c
        .verify_response("POST".to_string(), url(), signed_headers(body, &date), body.to_string(), NOW)
        .unwrap();
    let reloaded = c.verify_response_cache(cache, NOW + 3 * 3600).unwrap();
    assert_eq!(reloaded, body);
}

fn cache_entry(age_minutes: i64) -> KeygenResponseCache {
    let body = "{}";
    let date = rfc2822(NOW - age_minutes * 60);
    client()
        .verify_response("POST".to_string(), url(), signed_headers(body, &date), body.to_string(), NOW - age_minutes * 60)
        .unwrap()
}

#[test]
fn cache_lifetime_boundary() {
    let c = client();
    assert_eq!(c.cache_lifetime, 240);
    assert!(c.verify_response_cache(cache_entry(239), NOW).is_ok());
    assert!(c.verify_response_cache(cache_entry(240), NOW).is_ok());
    match c.verify_response_cache(cache_entry(241), NOW) {
        Err(Error::BadCache(m)) => assert_eq!(m, "Validation cache has expired"),
        other => panic!("{:?}", other),
    }
}

#[test]
fn cache_with_tampered_body_is_rejected() {
    let mut entry = cache_entry(1);
    entry.body = "{\"valid\":true}".to_string();
    match client().verify_response_cache(entry, NOW) {
        Err(Error::BadCache(m)) => assert_eq!(m, "Invalid Signature"),
        other => panic!("{:?}", other),
    }
    let mut entry = cache_entry(1);
    entry.date = "not a date".to_string();
    match client().verify_response_cache(entry, NOW) {
        Err(Error::BadCache(m)) => assert_eq!(m, "Failed parsing cached response date"),
        other => panic!("{:?}", other),
    }
}

fn license_response(code: &str, with_data: bool) -> LicenseResponse {
    LicenseResponse {
        meta: LicenseMeta {
            ts: "2024-01-01T00:00:00Z".to_string(),
            valid: code == "VALID",
            detail: format!("detail of {}", code),
            code: code.to_string(),
            scope: Some(LicenseScope { entitlements: Some(vec!["PRO".to_string()]) }),
        },
        data: if with_data {
            Some(LicenseData {
                id: "lic-1".to_string(),
                attributes: LicenseAttributes {
                    name: None,
                    key: "KEY-1".to_string(),
                    expiry: Some("2030-01-01T00:00:00Z".to_string()),
                    metadata: "{}".to_string(),
                },
                relationships: LicenseRelationships {
                    policy: LicensePolicy { data: LicensePolicyData { id: "pol-1".to_string() } },
                },
            })
        } else {
            None
        },
    }
}

#[test]
fn license_from_response_copies_fields() {
    let l = License::from_license_response(license_response("VALID", true)).unwrap();
    assert_eq!(l.id, "lic-1");
    assert_eq!(l.policy_id, "pol-1");
    assert_eq!(l.key, "KEY-1");
    assert_eq!(l.code, "VALID");
    assert_eq!(l.entitlements, vec!["PRO".to_string()]);
    assert!(l.valid);
    assert!(License::from_license_response(license_response("NOT_FOUND", false)).is_none());
}

#[test]
fn not_found_leaves_prior_license() {
    let prior = License::from_license_response(license_response("VALID", true)).unwrap();
    let mut state = LicensedState::new();
    state.update(Some(prior.clone()));
    let body = "{\"meta\":{\"code\":\"NOT_FOUND\"}}";
    let date = rfc2822(NOW);
    let outcome = validation_result(
        &client(),
        url(),
        signed_headers(body, &date),
        200,
        "200 OK".to_string(),
        body.to_string(),
        Some(license_response("NOT_FOUND", false)),
        None,
        NOW,
    );
    match state.apply_validation(outcome, true) {
        Err(Error::LicenseErr { code, .. }) => assert_eq!(code, "NOT_FOUND"),
        other => panic!("{:?}", other),
    }
    let now = state.get_license().unwrap();
    assert_eq!(now.id, prior.id);
    assert_eq!(now.key, prior.key);
    assert_eq!(now.code, prior.code);
}

#[test]
fn validation_success_replaces_license_and_offers_cache() {
    let mut state = LicensedState::new();
    let body = "{\"meta\":{\"code\":\"VALID\"}}";
    let date = rfc2822(NOW);
    let outcome = validation_result(
        &client(),
        url(),
        signed_headers(body, &date),
        200,
        "200 OK".to_string(),
        body.to_string(),
        Some(license_response("VALID", true)),
        None,
        NOW,
    );
    let (license, cache) = state.apply_validation(outcome, true).unwrap();
    assert_eq!(license.key, "KEY-1");
    assert_eq!(cache.unwrap().body, body);
    assert_eq!(state.get_license().unwrap().id, "lic-1");
}

#[test]
fn validation_with_bad_signature_keeps_state() {
    let mut state = LicensedState::new();
    let body = "{}";
    let date = rfc2822(NOW);
    let outcome = validation_result(
        &client(),
        url(),
        signed_headers("{\"other\":1}", &date),
        200,
        "200 OK".to_string(),
        body.to_string(),
        Some(license_response("VALID", true)),
        None,
        NOW,
    );
    match state.apply_validation(outcome, true) {
        Err(Error::BadResponse(m)) => assert_eq!(m, "Digest didn't match"),
        other => panic!("{:?}", other),
    }
    assert!(state.get_license().is_none());
}

#[test]
fn api_errors_take_the_first_entry() {
    let errs = APIErrors {
        errors: Some(vec![
            APIError { detail: Some("bad key".to_string()), code: Some("KEY_INVALID".to_string()) },
            APIError { detail: Some("other".to_string()), code: Some("OTHER".to_string()) },
        ]),
    };
    match parse_err_json(422, "422 Unprocessable Entity".to_string(), Some(errs)) {
        Error::ApiErr { code, detail } => {
            assert_eq!(code, "KEY_INVALID");
            assert_eq!(detail, "bad key");
        }
        other => panic!("{:?}", other),
    }
    match parse_err_json(404, "404 Not Found".to_string(), Some(APIErrors { errors: Some(vec![]) })) {
        Error::ApiErr { code, detail } => {
            assert_eq!(code, "UNKNOWN");
            assert_eq!(detail, "Unknown Keygen API Error");
        }
        other => panic!("{:?}", other),
    }
    match parse_err_json(400, "400 Bad Request".to_string(), None) {
        Error::ParseErr(m) => assert_eq!(m, "Failed deserializing Keygen API error json"),
        other => panic!("{:?}", other),
    }
    match parse_err_json(503, "503 Service Unavailable".to_string(), None) {
        Error::HttpError(m) => assert_eq!(m, "503 Service Unavailable"),
        other => panic!("{:?}", other),
    }
}

#[test]
fn error_summaries() {
    let s = ErrorSummary::from(Error::BadCache("x".to_string()));
    assert_eq!((s.code.as_str(), s.detail.as_str()), ("BAD_CACHE", "x"));
    let s = ErrorSummary::from_error(Error::RequestError("timeout".to_string()));
    assert_eq!(s.code, "REQUEST_ERROR");
    assert_eq!(s.detail, "Failed sending request: Check your internet");
    let s = ErrorSummary::from_error(Error::LicenseErr { code: "NO_LICENSE".to_string(), detail: "d".to_string() });
    assert_eq!((s.code.as_str(), s.detail.as_str()), ("NO_LICENSE", "d"));
    let s = ErrorSummary::from_error(Error::ParseErr("p".to_string()));
    assert_eq!((s.code.as_str(), s.detail.as_str()), ("ERR", "p"));
    let s = ErrorSummary::from_error(Error::HttpError("500".to_string()));
    assert_eq!(s.code, "HTTP_ERROR");
    let s = ErrorSummary::from_error(Error::BadResponse("b".to_string()));
    assert_eq!(s.code, "BAD_RESPONSE");
}


#[test]
fn zero_drift_rejects_a_minute_old_response() {
    let body = "{}";
    let mut c = client();
    c.max_clock_drift = 0;
    let date = rfc2822(NOW - 61);
    let r = c.verify_response("POST".to_string(), url(), signed_headers(body, &date), body.to_string(), NOW);
    assert_eq!(bad_response(r), "Request date too old");
    let date = rfc2822(NOW - 59);
    let r = c.verify_response("POST".to_string(), url(), signed_headers(body, &date), body.to_string(), NOW);
    assert!(r.is_ok());
}

#[test]
fn cache_entry_steps() {
    let c = client();
    let none = cache_entry_step(&c, None, NOW);
    assert!(!none.purge_others && !none.delete_entry && none.body.is_none());
    let good = cache_entry_step(&c, Some(cache_entry(10)), NOW);
    assert!(good.purge_others && !good.delete_entry);
    assert_eq!(good.body.as_deref(), Some("{}"));
    let expired = cache_entry_step(&c, Some(cache_entry(300)), NOW);
    assert!(expired.purge_others && expired.delete_entry && expired.body.is_none());
    let (l, delete) = license_from_cache_body(None);
    assert!(l.is_none() && delete);
    let (l, delete) = license_from_cache_body(Some(license_response("VALID", true)));
    assert_eq!(l.unwrap().id, "lic-1");
    assert!(!delete);
}

#[test]
fn validated_license_offers_cache_only_when_asked() {
    let license = License::from_license_response(license_response("VALID", true)).unwrap();
    let entry = cache_entry(1);
    let (l, c) = validated_license(Ok((license.clone(), entry.clone())), true).unwrap();
    assert_eq!(l.id, "lic-1");
    assert!(c.is_some());
    let (_, c) = validated_license(Ok((license, entry)), false).unwrap();
    assert!(c.is_none());
    match validated_license(Err(Error::BadResponse("x".to_string())), true) {
        Err(Error::BadResponse(m)) => assert_eq!(m, "x"),
        other => panic!("{:?}", other.map(|p| p.0.id)),
    }
}
