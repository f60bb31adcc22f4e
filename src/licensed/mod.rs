//! The current license, and how validation and the response cache change it.
use vstd::prelude::*;
use vstd::string::StringExecFns;
use vstd::utf8::encode_utf8;
use crate::client::{
    cache_check, response_check, KeygenClient, KeygenResponseCache, RequestUrl, ResponseHeaders,
};
use crate::client::sig::is_bad_response;
use crate::crypto::{sha256, sha256_of};
use crate::err::{api_error_of, error_shape, is_license_err, parse_err_json, APIErrors, Error};
use crate::machine::Machine;
use crate::text::{concat, padded_decimal, padded_decimal_of, string_of, trim_end, trimmed_end_of};
use license::{license_of_response, opt_license_view, License};
use types::LicenseResponse;

pub mod license;
pub mod types;

verus! {

/// The license currently held, if any.
#[derive(Debug, Clone)]
pub struct LicensedState {
    pub license: Option<License>,
}

/// A calendar day in the local time zone.
#[derive(Debug, Clone, Copy)]
pub struct CalendarDate {
    pub year: i32,
    pub month: u32,
    pub day: u32,
}

/// The text of a day as `YYYY-MM-DD`; a year outside 0..=9999 carries its sign.
pub open spec fn date_text(d: CalendarDate) -> Seq<char> {
    let y = if 0 <= d.year <= 9999 {
        padded_decimal_of(d.year as nat, 4)
    } else if d.year > 9999 {
        "+"@ + padded_decimal_of(d.year as nat, 4)
    } else {
        "-"@ + padded_decimal_of((-d.year) as nat, 4)
    };
    y + "-"@ + padded_decimal_of(d.month as nat, 2) + "-"@ + padded_decimal_of(d.day as nat, 2)
}

/// The lower-case hexadecimal digit of `v`.
pub open spec fn hex_lower_digit(v: int) -> char {
    seq!['0', '1', '2', '3', '4', '5', '6', '7', '8', '9', 'a', 'b', 'c', 'd', 'e', 'f'][v]
}

/// The lower-case hexadecimal text of `b`, two digits per byte.
pub open spec fn hex_lower(b: Seq<u8>) -> Seq<char> {
    Seq::new(
        2 * b.len(),
        |i: int|
            if i % 2 == 0 {
                hex_lower_digit(b[i / 2] as int / 16)
            } else {
                hex_lower_digit(b[i / 2] as int % 16)
            },
    )
}

/// The name of the day's cache entry for a license key: the hex SHA-256 of
/// `key:YYYY-MM-DD`.
pub open spec fn cache_entry_name(license_key: Seq<char>, today: CalendarDate) -> Seq<char> {
    hex_lower(sha256_of(encode_utf8(license_key + ":"@ + date_text(today))))
}

fn hex_lower_char(v: u8) -> (r: char)
    requires
        v < 16,
    ensures
        r == hex_lower_digit(v as int),
{
    let table: Vec<char> = vec!['0', '1', '2', '3', '4', '5', '6', '7', '8', '9', 'a', 'b', 'c', 'd', 'e', 'f'];
    assert(table@ =~= seq!['0', '1', '2', '3', '4', '5', '6', '7', '8', '9', 'a', 'b', 'c', 'd', 'e', 'f']);
    table[v as usize]
}

/// The lower-case hexadecimal text of `b`.
pub fn to_hex_lower(b: &[u8]) -> (r: String)
    ensures
        r@ == hex_lower(b@),
{
    let mut out: Vec<char> = Vec::new();
    let mut i: usize = 0;
    while i < b.len()
        invariant
            i <= b@.len(),
            out@.len() == 2 * i,
            forall|k: int| 0 <= k < 2 * i ==> #[trigger] out@[k] == hex_lower(b@)[k],
        decreases b@.len() - i,
    {
        out.push(hex_lower_char(b[i] / 16));
        out.push(hex_lower_char(b[i] % 16));
        i = i + 1;
    }
    assert(out@ =~= hex_lower(b@));
    string_of(out.as_slice())
}

impl CalendarDate {
    /// The day as `YYYY-MM-DD`.
    pub fn text(&self) -> (r: String)
        ensures
            r@ == date_text(*self),
    {
        let mut s = if 0 <= self.year && self.year <= 9999 {
            padded_decimal(self.year as u64, 4)
        } else if self.year > 9999 {
            concat("+", padded_decimal(self.year as u64, 4).as_str())
        } else {
            let y: i64 = -(self.year as i64);
            concat("-", padded_decimal(y as u64, 4).as_str())
        };
        s.append("-");
        s.append(padded_decimal(self.month as u64, 2).as_str());
        s.append("-");
        s.append(padded_decimal(self.day as u64, 2).as_str());
        s
    }
}

/// What a validate-key request carries.
#[derive(Debug, Clone)]
pub struct ValidationRequest {
    /// The license key without trailing white space.
    pub key: String,
    pub fingerprint: String,
    /// The entitlements to check, if any were asked for.
    pub entitlements: Option<Vec<String>>,
}

/// The outcome of a validate-key exchange: on status 200 the response must
/// verify and carry a license record (a `NOT_FOUND` code is a license error);
/// any other status is turned into an API or HTTP error.
pub open spec fn validation_outcome(
    r: Result<(License, KeygenResponseCache), Error>,
    client: KeygenClient,
    url: RequestUrl,
    headers: ResponseHeaders,
    status: u16,
    status_line: Seq<char>,
    body: Seq<char>,
    lic_res: Option<LicenseResponse>,
    api_errors: Option<APIErrors>,
    now: int,
) -> bool {
    if status != 200 {
        r matches Err(e) && error_shape(e) == api_error_of(status, status_line, api_errors)
    } else {
        match response_check(client, "POST"@, url, headers, body, now) {
            Err(m) => r matches Err(e) && is_bad_response(e, m),
            Ok(sig) => match lic_res {
                None => r matches Err(e) && e matches Error::ParseErr(d) && d@
                    == "Failed deserializing license validation response"@,
                Some(lr) => if lr.meta.code@ == "NOT_FOUND"@ {
                    r matches Err(e) && e matches Error::LicenseErr { code, detail } && code@
                        == lr.meta.code@ && detail@ == lr.meta.detail@
                } else {
                    match license_of_response(lr) {
                        None => r matches Err(e) && is_bad_response(
                            e,
                            "Missing data on license validation response"@,
                        ),
                        Some(l) => r matches Ok((lic, c)) && lic@ == l && c.sig@ == sig.sig
                            && c.target@ == sig.target && c.host@ == sig.host && c.date@
                            == sig.date && c.body@ == body,
                    }
                }
            },
        }
    }
}

/// Builds a validate-key request for this machine; refused when the machine
/// has no fingerprint.
pub fn validation_request(key: &str, entitlements: Vec<String>, machine: &Machine) -> (r: Result<
    ValidationRequest,
    Error,
>)
    ensures
        machine.fingerprint@.len() == 0 <==> r is Err,
        r matches Err(e) ==> is_license_err(e, "NO_FINGERPRINT"@),
        r matches Ok(q) ==> q.key@ == trimmed_end_of(key@) && q.fingerprint@ == machine.fingerprint@
            && (if entitlements@.len() == 0 {
            q.entitlements is None
        } else {
            q.entitlements == Some(entitlements)
        }),
{
    if machine.fingerprint.as_str().is_empty() {
        return Err(
            Error::LicenseErr {
                code: "NO_FINGERPRINT".to_owned(),
                detail: "Can't validate license for this machine: Failed parsing machine fingerprint".to_owned(),
            },
        );
    }
    let ents = if entitlements.len() == 0 {
        None
    } else {
        Some(entitlements)
    };
    Ok(ValidationRequest { key: trim_end(key), fingerprint: machine.fingerprint.clone(), entitlements: ents })
}

/// Decides a validate-key exchange at time `now` (Unix seconds), given the
/// response and its body read as a license response and as an error body.
pub fn validation_result(
    client: &KeygenClient,
    url: RequestUrl,
    headers: ResponseHeaders,
    status: u16,
    status_line: String,
    res_text: String,
    lic_res: Option<LicenseResponse>,
    api_errors: Option<APIErrors>,
    now: i64,
) -> (r: Result<(License, KeygenResponseCache), Error>)
    ensures
        validation_outcome(
            r,
            *client,
            url,
            headers,
            status,
            status_line@,
            res_text@,
            lic_res,
            api_errors,
            now as int,
        ),
{
    if status != 200 {
        return Err(parse_err_json(status, status_line, api_errors));
    }
    let res_cache = client.verify_response("POST".to_owned(), url, headers, res_text, now)?;
    let lic_res = match lic_res {
        Some(l) => l,
        None => {
            return Err(
                Error::ParseErr("Failed deserializing license validation response".to_owned()),
            );
        },
    };
    if lic_res.meta.code.eq(&"NOT_FOUND".to_owned()) {
        return Err(Error::LicenseErr { code: lic_res.meta.code, detail: lic_res.meta.detail });
    }
    match License::from_license_response(lic_res) {
        Some(license) => Ok((license, res_cache)),
        None => Err(Error::BadResponse("Missing data on license validation response".to_owned())),
    }
}

/// The name of the day's cache entry for a license key.
pub fn response_cache_name(license_key: &str, today: &CalendarDate) -> (r: String)
    ensures
        r@ == cache_entry_name(license_key@, *today),
{
    let mut s = concat(license_key, ":");
    s.append(today.text().as_str());
    let digest = sha256(s.as_str().as_bytes());
    to_hex_lower(digest.as_slice())
}

/// What to do with today's cache entry once it has been read.
#[derive(Debug, Clone)]
pub struct CacheStep {
    /// Delete the entries of other days: today's supersedes them.
    pub purge_others: bool,
    /// Delete today's entry: it failed re-verification or has expired.
    pub delete_entry: bool,
    /// The re-verified body, to be read as a license response.
    pub body: Option<String>,
}

/// Decides on today's cache entry at `now`: an absent (or unreadable) entry
/// changes nothing; a present one supersedes the other days' entries, and is
/// deleted unless it re-verifies.
pub fn cache_entry_step(client: &KeygenClient, entry: Option<KeygenResponseCache>, now: i64) -> (r:
    CacheStep)
    ensures
        entry is None ==> !r.purge_others && !r.delete_entry && r.body is None,
        entry matches Some(c) ==> r.purge_others && match cache_check(*client, c, now as int) {
            Ok(_) => !r.delete_entry && (r.body matches Some(b) && b@ == c.body@),
            Err(_) => r.delete_entry && r.body is None,
        },
{
    match entry {
        None => CacheStep { purge_others: false, delete_entry: false, body: None },
        Some(c) => match client.verify_response_cache(c, now) {
            Ok(body) => CacheStep { purge_others: true, delete_entry: false, body: Some(body) },
            Err(_) => CacheStep { purge_others: true, delete_entry: true, body: None },
        },
    }
}

/// The license of a re-verified cache body, given the body read as a license
/// response (`None` when it is not one), and whether the entry must be
/// deleted: a body that is not a license response is a bad cache.
pub fn license_from_cache_body(parsed: Option<LicenseResponse>) -> (r: (Option<License>, bool))
    ensures
        parsed is None ==> r.0 is None && r.1,
        parsed matches Some(lr) ==> !r.1 && opt_license_view(r.0) == license_of_response(lr),
{
    match parsed {
        None => (None, true),
        Some(lr) => (License::from_license_response(lr), false),
    }
}

/// What a validation outcome gives: on success the license, and the verified
/// response when caching was asked for and the license is valid with an
/// expiry; on failure the error.
pub fn validated_license(
    outcome: Result<(License, KeygenResponseCache), Error>,
    cache_valid_response: bool,
) -> (r: Result<(License, Option<KeygenResponseCache>), Error>)
    ensures
        match outcome {
            Err(e) => r == Err::<(License, Option<KeygenResponseCache>), Error>(e),
            Ok((l, c)) => r matches Ok((l2, c2)) && l2 == l && (if l.valid && cache_valid_response
                && l.expiry is Some {
                c2 == Some(c)
            } else {
                c2 is None
            }),
        },
{
    match outcome {
        Err(e) => Err(e),
        Ok((license, res_cache)) => {
            let keep = license.valid && cache_valid_response && license.expiry.is_some();
            let to_cache = if keep {
                Some(res_cache)
            } else {
                None
            };
            Ok((license, to_cache))
        },
    }
}

impl LicensedState {
    /// No license.
    pub fn new() -> (r: Self)
        ensures
            r.license is None,
    {
        LicensedState { license: None }
    }

    /// The state at start-up: the machine file's license if it gave one,
    /// else today's cached one, else none.
    pub fn from_sources(machine_file: Option<License>, cache: Option<License>) -> (r: Self)
        ensures
            r.license == (if machine_file is Some {
                machine_file
            } else {
                cache
            }),
    {
        match machine_file {
            Some(l) => LicensedState { license: Some(l) },
            None => LicensedState { license: cache },
        }
    }

    /// Replaces the license.
    pub fn update(&mut self, license: Option<License>)
        ensures
            final(self).license == license,
    {
        self.license = license;
    }

    /// A copy of the current license.
    pub fn get_license(&self) -> (r: Option<License>)
        ensures
            opt_license_view(r) == opt_license_view(self.license),
    {
        match &self.license {
            Some(l) => Some(l.duplicate()),
            None => None,
        }
    }

    /// Applies the outcome of a validation, all or nothing: on success the
    /// license replaces the current one, and the verified response is handed
    /// back for caching when asked for and the license is valid with an
    /// expiry; on failure the state is left as it was.
    pub fn apply_validation(
        &mut self,
        outcome: Result<(License, KeygenResponseCache), Error>,
        cache_valid_response: bool,
    ) -> (r: Result<(License, Option<KeygenResponseCache>), Error>)
        ensures
            match outcome {
                Err(e) => r == Err::<(License, Option<KeygenResponseCache>), Error>(e)
                    && *final(self) == *old(self),
                Ok((l, c)) => r matches Ok((l2, c2)) && l2@ == l@ && opt_license_view(
                    final(self).license,
                ) == Some(l@) && (if l.valid && cache_valid_response && l.expiry is Some {
                    c2 == Some(c)
                } else {
                    c2 is None
                }),
            },
    {
        match validated_license(outcome, cache_valid_response) {
            Err(e) => Err(e),
            Ok((license, to_cache)) => {
                let copy = license.duplicate();
                self.license = Some(license);
                Ok((copy, to_cache))
            },
        }
    }
}

/// A validate-key exchange that verified and whose response carries the
/// `NOT_FOUND` code ends in that license error, never in a license.
pub proof fn lemma_not_found_is_license_error(
    r: Result<(License, KeygenResponseCache), Error>,
    client: KeygenClient,
    url: RequestUrl,
    headers: ResponseHeaders,
    status_line: Seq<char>,
    body: Seq<char>,
    lic_res: LicenseResponse,
    api_errors: Option<APIErrors>,
    now: int,
)
    requires
        validation_outcome(r, client, url, headers, 200, status_line, body, Some(lic_res), api_errors, now),
        response_check(client, "POST"@, url, headers, body, now) is Ok,
        lic_res.meta.code@ == "NOT_FOUND"@,
    ensures
        r matches Err(e) && is_license_err(e, "NOT_FOUND"@),
{
}

} // verus!
