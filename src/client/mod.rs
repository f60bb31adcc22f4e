//! Verification of signed server responses and of cached ones.
use vstd::prelude::*;
use vstd::string::StringExecFns;
use vstd::utf8::encode_utf8;
use crate::crypto::{
    base64_decode, base64_decoded, ed25519_accepts, ed25519_verify,
    parse_rfc2822, rfc2822_seconds,
};
use crate::err::Error;
use crate::text::{concat, decimal_chars, decimal_of, string_of};
use sig::{
    body_digest, is_bad_response, request_target, sig_of_response, signature_param, signing_string,
    KeygenSig, SigModel,
};

pub mod sig;

verus! {

/// The parts of a request URL that a signature covers.
#[derive(Debug, Clone)]
pub struct RequestUrl {
    /// The path, starting with `/`.
    pub path: String,
    /// The query, without its `?`.
    pub query: Option<String>,
    /// The host name, if the URL has one.
    pub host: Option<String>,
}

/// The response headers that verification reads, each as text if present.
#[derive(Debug, Clone)]
pub struct ResponseHeaders {
    pub keygen_signature: Option<String>,
    pub date: Option<String>,
    pub digest: Option<String>,
}

/// A verified response, kept so that it can be verified again later.
#[derive(Debug, Clone)]
pub struct KeygenResponseCache {
    pub sig: String,
    pub target: String,
    pub host: String,
    pub date: String,
    pub body: String,
}

} // verus!

verus! {

/// The value of a hexadecimal digit, either case.
pub open spec fn hex_digit_value(c: char) -> Option<int> {
    let v = c as u32;
    if 48 <= v <= 57 {
        Some(v - 48)
    } else if 97 <= v <= 102 {
        Some(v - 87)
    } else if 65 <= v <= 70 {
        Some(v - 55)
    } else {
        None
    }
}

/// The 32 bytes that 64 hexadecimal digits stand for.
pub open spec fn hex32_of(s: Seq<char>) -> Option<Seq<u8>> {
    if s.len() == 64 && forall|i: int| 0 <= i < 64 ==> (#[trigger] hex_digit_value(s[i])) is Some {
        Some(
            Seq::new(
                32,
                |i: int|
                    (hex_digit_value(s[2 * i])->0 * 16 + hex_digit_value(s[2 * i + 1])->0) as u8,
            ),
        )
    } else {
        None
    }
}

fn hex_digit(c: char) -> (r: Option<u8>)
    ensures
        match r {
            Some(v) => hex_digit_value(c) == Some(v as int),
            None => hex_digit_value(c) is None,
        },
{
    let v = c as u32;
    if 48 <= v && v <= 57 {
        Some((v - 48) as u8)
    } else if 97 <= v && v <= 102 {
        Some((v - 87) as u8)
    } else if 65 <= v && v <= 70 {
        Some((v - 55) as u8)
    } else {
        None
    }
}

/// Decodes a hex-encoded 32-byte verification key.
pub fn decode_hex32(s: &str) -> (r: Option<Vec<u8>>)
    ensures
        match r {
            Some(v) => hex32_of(s@) == Some(v@),
            None => hex32_of(s@) is None,
        },
{
    let c = crate::text::chars_of(s);
    if c.len() != 64 {
        return None;
    }
    let mut out: Vec<u8> = Vec::new();
    let mut i: usize = 0;
    while i < 32
        invariant
            c@ == s@,
            c@.len() == 64,
            i <= 32,
            out@.len() == i,
            forall|k: int| 0 <= k < 2 * i ==> (#[trigger] hex_digit_value(c@[k])) is Some,
            forall|k: int|
                0 <= k < i ==> out@[k] == (hex_digit_value(c@[2 * k])->0 * 16 + hex_digit_value(
                    c@[2 * k + 1],
                )->0) as u8,
        decreases 32 - i,
    {
        let hi = match hex_digit(c[2 * i]) {
            Some(v) => v,
            None => {
                return None;
            },
        };
        let lo = match hex_digit(c[2 * i + 1]) {
            Some(v) => v,
            None => {
                return None;
            },
        };
        out.push(hi * 16 + lo);
        i = i + 1;
    }
    assert(out@ =~= hex32_of(s@)->0);
    Some(out)
}

/// Whether a signature verifies, or the message of the error.
pub open spec fn signature_check(key_hex: Seq<char>, data: Seq<char>, sig_b64: Seq<char>) -> Result<
    (),
    Seq<char>,
> {
    match hex32_of(key_hex) {
        None => Err("Failed parsing verify key to bytes"@),
        Some(k) => match base64_decoded(sig_b64) {
            None => Err("Failed decoding signature"@),
            Some(b) => if b.len() != 64 {
                Err("Invalid signature format"@)
            } else if !ed25519_accepts(k, encode_utf8(data), b) {
                Err("Invalid signature"@)
            } else {
                Ok(())
            },
        },
    }
}

/// Whether a signature (base64) over `data` verifies under a hex-encoded key.
pub open spec fn signature_ok(key_hex: Seq<char>, data: Seq<char>, sig_b64: Seq<char>) -> bool {
    signature_check(key_hex, data, sig_b64) is Ok
}

/// Whole minutes from `from` to `to` (seconds), rounded toward zero.
pub open spec fn minutes_between(from: int, to: int) -> int {
    let d = to - from;
    if d >= 0 {
        d / 60
    } else {
        -((-d) / 60)
    }
}

/// Whole minutes from `from` to `to` (Unix seconds), rounded toward zero.
pub fn minutes_since(from: i64, to: i64) -> (r: i128)
    ensures
        r == minutes_between(from as int, to as int),
{
    let d: i128 = to as i128 - from as i128;
    if d >= 0 {
        d / 60
    } else {
        -((-d) / 60)
    }
}

/// The settings that response verification and URL building use.
#[derive(Debug, Clone)]
pub struct KeygenClient {
    pub custom_domain: Option<String>,
    pub account_id: Option<String>,
    /// Hex-encoded Ed25519 public key of the server.
    pub verify_key: String,
    pub api_url: Option<String>,
    /// Major version of the API.
    pub api_version: u8,
    /// How far in the past a response's `Date` may lie, in whole minutes.
    pub max_clock_drift: i64,
    /// How long a cached response stands in for the server, in minutes.
    pub cache_lifetime: i64,
}

/// The verdict on a live response at time `now`: the signature and what it
/// covers when accepted, else the message of the `BadResponse`.
pub open spec fn response_check(
    client: KeygenClient,
    method: Seq<char>,
    url: RequestUrl,
    headers: ResponseHeaders,
    body: Seq<char>,
    now: int,
) -> Result<SigModel, Seq<char>> {
    match sig_of_response(method, url, headers, body) {
        Err(m) => Err(m),
        Ok(sig) => match headers.digest {
            None => Err("Missing header: Digest"@),
            Some(d) => if (d@ != sig.digest) {
                Err("Digest didn't match"@)
            } else if !signature_ok(
                client.verify_key@,
                signing_string(sig.target, sig.host, sig.date, sig.digest),
                sig.sig,
            ) {
                Err("Invalid Signature"@)
            } else {
                match rfc2822_seconds(sig.date) {
                    None => Err("Invalid signature date"@),
                    Some(t) => if (minutes_between(t, now) > client.max_clock_drift) {
                        Err("Request date too old"@)
                    } else {
                        Ok(sig)
                    },
                }
            }
        },
    }
}

/// The cache entry that an accepted response gives.
pub open spec fn cache_matches(c: KeygenResponseCache, sig: SigModel, body: Seq<char>) -> bool {
    c.sig@ == sig.sig && c.target@ == sig.target && c.host@ == sig.host && c.date@ == sig.date
        && c.body@ == body
}

/// The verdict on a cached response at time `now`: accepted, or the message
/// of the `BadCache`.
pub open spec fn cache_check(client: KeygenClient, c: KeygenResponseCache, now: int) -> Result<
    (),
    Seq<char>,
> {
    match rfc2822_seconds(c.date@) {
        None => Err("Failed parsing cached response date"@),
        Some(t) => if (minutes_between(t, now) > client.cache_lifetime) {
            Err("Validation cache has expired"@)
        } else if !signature_ok(
            client.verify_key@,
            signing_string(c.target@, c.host@, c.date@, body_digest(c.body@)),
            c.sig@,
        ) {
            Err("Invalid Signature"@)
        } else {
            Ok(())
        },
    }
}

/// `r` is the outcome that `verdict` describes for a live response.
pub open spec fn response_outcome(
    r: Result<KeygenResponseCache, Error>,
    verdict: Result<SigModel, Seq<char>>,
    body: Seq<char>,
) -> bool {
    match r {
        Ok(c) => verdict matches Ok(sig) && cache_matches(c, sig, body),
        Err(e) => verdict matches Err(m) && is_bad_response(e, m),
    }
}

/// `e` is a `BadCache` with message `m`.
pub open spec fn is_bad_cache(e: Error, m: Seq<char>) -> bool {
    e matches Error::BadCache(d) && d@ == m
}

/// `r` is the outcome that `verdict` describes for a cached response with body `body`.
pub open spec fn cache_outcome(r: Result<String, Error>, verdict: Result<(), Seq<char>>, body: Seq<
    char,
>) -> bool {
    match r {
        Ok(b) => verdict is Ok && b@ == body,
        Err(e) => verdict matches Err(m) && is_bad_cache(e, m),
    }
}

impl KeygenClient {
    /// Settings for a client; the clock-drift window is 5 minutes.
    pub fn new(
        custom_domain: Option<String>,
        api_url: Option<String>,
        account_id: Option<String>,
        verify_key: String,
        cache_lifetime: i64,
    ) -> (r: Self)
        ensures
            r.custom_domain == custom_domain,
            r.api_url == api_url,
            r.account_id == account_id,
            r.verify_key == verify_key,
            r.cache_lifetime == cache_lifetime,
            r.api_version == 1,
            r.max_clock_drift == 5,
    {
        KeygenClient {
            custom_domain,
            account_id,
            verify_key,
            api_url,
            api_version: 1,
            max_clock_drift: 5,
            cache_lifetime,
        }
    }

    /// Checks an Ed25519 signature (base64) over `data` with the configured key.
    pub fn verify_signature(&self, data: String, signature: String) -> (r: Result<(), Error>)
        ensures
            match r {
                Ok(()) => signature_check(self.verify_key@, data@, signature@) is Ok,
                Err(e) => signature_check(self.verify_key@, data@, signature@) matches Err(m)
                    && e matches Error::ParseErr(d) && d@ == m,
            },
    {
        let key = match decode_hex32(self.verify_key.as_str()) {
            Some(k) => k,
            None => {
                return Err(Error::ParseErr("Failed parsing verify key to bytes".to_owned()));
            },
        };
        let sig = match base64_decode(signature.as_str()) {
            Some(s) => s,
            None => {
                return Err(Error::ParseErr("Failed decoding signature".to_owned()));
            },
        };
        if sig.len() != 64 {
            return Err(Error::ParseErr("Invalid signature format".to_owned()));
        }
        if ed25519_verify(key.as_slice(), data.as_str().as_bytes(), sig.as_slice()) {
            Ok(())
        } else {
            Err(Error::ParseErr("Invalid signature".to_owned()))
        }
    }

    /// Verifies a live response at time `now` (Unix seconds): digest, then
    /// signature, then freshness of its `Date`.
    pub fn verify_response(
        &self,
        req_method: String,
        req_url: RequestUrl,
        res_headers: ResponseHeaders,
        res_text: String,
        now: i64,
    ) -> (r: Result<KeygenResponseCache, Error>)
        ensures
            response_outcome(
                r,
                response_check(*self, req_method@, req_url, res_headers, res_text@, now as int),
                res_text@,
            ),
    {
        let sig = KeygenSig::from_response(req_method, req_url, &res_headers, res_text.clone())?;
        let res_digest = match &res_headers.digest {
            Some(d) => d,
            None => {
                return Err(Error::BadResponse("Missing header: Digest".to_owned()));
            },
        };
        if !sig.digest().eq(res_digest) {
            return Err(Error::BadResponse("Digest didn't match".to_owned()));
        }
        if self.verify_signature(sig.data(), sig.signature()).is_err() {
            return Err(Error::BadResponse("Invalid Signature".to_owned()));
        }
        let date = sig.date();
        let t = match parse_rfc2822(date.as_str()) {
            Some(t) => t,
            None => {
                return Err(Error::BadResponse("Invalid signature date".to_owned()));
            },
        };
        if minutes_since(t, now) > self.max_clock_drift as i128 {
            return Err(Error::BadResponse("Request date too old".to_owned()));
        }
        Ok(
            KeygenResponseCache {
                sig: sig.signature(),
                target: sig.target(),
                host: sig.host(),
                date,
                body: res_text,
            },
        )
    }

    /// Re-verifies a cached response at time `now`: its age against the cache
    /// lifetime, then its signature over the re-hashed body. Returns the body.
    /// A caller deletes the cache entry on any error.
    pub fn verify_response_cache(&self, res_cache: KeygenResponseCache, now: i64) -> (r: Result<
        String,
        Error,
    >)
        ensures
            cache_outcome(r, cache_check(*self, res_cache, now as int), res_cache.body@),
    {
        let body = res_cache.body.clone();
        let sig = KeygenSig::from_response_cache(res_cache);
        let date = sig.date();
        let t = match parse_rfc2822(date.as_str()) {
            Some(t) => t,
            None => {
                return Err(Error::BadCache("Failed parsing cached response date".to_owned()));
            },
        };
        if minutes_since(t, now) > self.cache_lifetime as i128 {
            return Err(Error::BadCache("Validation cache has expired".to_owned()));
        }
        match self.verify_signature(sig.data(), sig.signature()) {
            Ok(()) => Ok(body),
            Err(_) => Err(Error::BadCache("Invalid Signature".to_owned())),
        }
    }
}

} // verus!

verus! {

/// The `Digest` header equals the digest recomputed from the body.
pub open spec fn digest_matches(headers: ResponseHeaders, body: Seq<char>) -> bool {
    headers.digest matches Some(d) && d@ == body_digest(body)
}

/// The `Keygen-Signature` header names `ed25519` and carries a signature that
/// verifies over the signing string of the request and response.
pub open spec fn signature_matches(
    client: KeygenClient,
    method: Seq<char>,
    url: RequestUrl,
    headers: ResponseHeaders,
    body: Seq<char>,
) -> bool {
    &&& signature_param(headers) matches Ok(s)
    &&& url.host matches Some(host)
    &&& headers.date matches Some(date)
    &&& signature_ok(
        client.verify_key@,
        signing_string(request_target(method, url), host@, date@, body_digest(body)),
        s,
    )
}

/// The `Date` header parses and lies within the clock-drift window before `now`.
pub open spec fn date_fresh(client: KeygenClient, headers: ResponseHeaders, now: int) -> bool {
    &&& headers.date matches Some(date)
    &&& rfc2822_seconds(date@) matches Some(t)
    &&& minutes_between(t, now) <= client.max_clock_drift
}

/// A live response is accepted exactly when its digest matches, its signature
/// verifies and its date is within the clock-drift window; each of the three
/// failing alone makes verification fail.
pub proof fn lemma_response_accepted_iff(
    client: KeygenClient,
    method: Seq<char>,
    url: RequestUrl,
    headers: ResponseHeaders,
    body: Seq<char>,
    now: int,
)
    ensures
        response_check(client, method, url, headers, body, now) is Ok <==> (digest_matches(
            headers,
            body,
        ) && signature_matches(client, method, url, headers, body) && date_fresh(
            client,
            headers,
            now,
        )),
{
}

/// A response that verification accepted, stored unchanged, passes the
/// cache's re-verification at any later time within the cache lifetime.
pub proof fn lemma_verified_response_reloads(
    client: KeygenClient,
    method: Seq<char>,
    url: RequestUrl,
    headers: ResponseHeaders,
    body: Seq<char>,
    now: int,
    cache: KeygenResponseCache,
    later: int,
)
    requires
        response_check(client, method, url, headers, body, now) matches Ok(sig) && cache_matches(
            cache,
            sig,
            body,
        ),
        headers.date matches Some(date) && rfc2822_seconds(date@) matches Some(t) && minutes_between(
            t,
            later,
        ) <= client.cache_lifetime,
    ensures
        cache_check(client, cache, later) is Ok,
{
}

} // verus!

verus! {

/// The API path of `path`, under the version and, on the default API host,
/// under the account; or the message of the `ParseErr`.
pub open spec fn full_path(client: KeygenClient, path: Seq<char>) -> Result<Seq<char>, Seq<char>> {
    let version = "v"@ + decimal_of(client.api_version as nat);
    if client.custom_domain is Some {
        Ok(version + "/"@ + path)
    } else if client.api_url is Some {
        match client.account_id {
            Some(id) => Ok(version + "/accounts/"@ + id@ + "/"@ + path),
            None => Err("Error parsing url: missing account_id"@),
        }
    } else {
        Err("Error parsing url path"@)
    }
}

/// The base URL text: the custom domain if set, else the API host; or the
/// message of the `ParseErr`.
pub open spec fn base_url_text(client: KeygenClient) -> Result<Seq<char>, Seq<char>> {
    match client.custom_domain {
        Some(d) => Ok(d@),
        None => match client.api_url {
            Some(u) => Ok(u@),
            None => Err("Failed getting base url: neither custom_domain nor api_url is provided"@),
        },
    }
}

impl KeygenClient {
    /// The base URL that API paths are joined to.
    pub fn get_base_url(&self) -> (r: Result<String, Error>)
        ensures
            match r {
                Ok(s) => base_url_text(*self) == Ok::<Seq<char>, Seq<char>>(s@),
                Err(e) => base_url_text(*self) matches Err(m) && e matches Error::ParseErr(d)
                    && d@ == m,
            },
    {
        match &self.custom_domain {
            Some(d) => Ok(d.clone()),
            None => match &self.api_url {
                Some(u) => Ok(u.clone()),
                None => Err(
                    Error::ParseErr(
                        "Failed getting base url: neither custom_domain nor api_url is provided".to_owned(),
                    ),
                ),
            },
        }
    }

    /// The API path of `path`: `v{n}/{path}` on a custom domain,
    /// `v{n}/accounts/{account}/{path}` on the default API host.
    pub fn get_full_path(&self, path: &str) -> (r: Result<String, Error>)
        ensures
            match r {
                Ok(s) => full_path(*self, path@) == Ok::<Seq<char>, Seq<char>>(s@),
                Err(e) => full_path(*self, path@) matches Err(m) && e matches Error::ParseErr(d)
                    && d@ == m,
            },
    {
        let digits = decimal_chars(self.api_version as u64);
        let mut version = concat("v", string_of(digits.as_slice()).as_str());
        if self.custom_domain.is_some() {
            version.append("/");
            version.append(path);
            return Ok(version);
        }
        if self.api_url.is_some() {
            match &self.account_id {
                Some(id) => {
                    version.append("/accounts/");
                    version.append(id.as_str());
                    version.append("/");
                    version.append(path);
                    return Ok(version);
                },
                None => {
                    return Err(Error::ParseErr("Error parsing url: missing account_id".to_owned()));
                },
            }
        }
        Err(Error::ParseErr("Error parsing url path".to_owned()))
    }
}

/// A correctly signed cache entry is accepted exactly while its age, in whole
/// minutes, does not exceed the cache lifetime.
pub proof fn lemma_cache_age_boundary(client: KeygenClient, cache: KeygenResponseCache, now: int)
    requires
        rfc2822_seconds(cache.date@) is Some,
        signature_ok(
            client.verify_key@,
            signing_string(cache.target@, cache.host@, cache.date@, body_digest(cache.body@)),
            cache.sig@,
        ),
    ensures
        cache_check(client, cache, now) is Ok <==> minutes_between(
            rfc2822_seconds(cache.date@)->0,
            now,
        ) <= client.cache_lifetime,
{
}

} // verus!
