//! Machine files: offline license certificates, and the requests that bind a
//! license to this machine.
use vstd::prelude::*;
use vstd::string::StringExecFns;
use vstd::utf8::{decode_utf8, encode_utf8, valid_utf8};
use crate::client::sig::is_bad_response;
use crate::client::{response_check, signature_check, KeygenClient, RequestUrl, ResponseHeaders};
use crate::crypto::{
    aes256gcm_open, aes256gcm_opened, base64_decode, base64_decoded, parse_rfc3339,
    rfc3339_seconds, sha256, sha256_of, utf8_decode,
};
use crate::err::{api_error_of, error_shape, is_license_err, parse_err_json, APIErrors, Error};
use crate::licensed::license::License;
use crate::licensed::LicensedState;
use crate::text::{
    chars_of, concat, pieces_view, remove_all, removed, split, split_all, string_of, trim,
    trimmed_of,
};
use types::MachineFileRes;

pub mod types;

verus! {

/// The machine this process runs on.
#[derive(Debug, Clone)]
pub struct Machine {
    /// A stable identifier of the machine; empty when it could not be read.
    pub fingerprint: String,
    pub name: String,
    pub hostname: String,
    pub platform: String,
    pub user_agent: String,
}

/// The signed and encrypted payload of a machine file.
#[derive(Debug, Clone)]
pub struct MachineFile {
    /// Base64 ciphertext, nonce and tag, joined by `.`.
    pub enc: String,
    /// Base64 Ed25519 signature over `machine/` followed by `enc`.
    pub sig: String,
    pub alg: String,
}

/// The JSON text inside a machine file's armour, or the message of the error.
pub open spec fn machine_file_payload(cert: Seq<char>) -> Result<Seq<char>, Seq<char>> {
    let enc = removed(
        removed(removed(cert, "-----BEGIN MACHINE FILE-----"@), "-----END MACHINE FILE-----"@),
        "\n"@,
    );
    match base64_decoded(enc) {
        None => Err("Failed decoding machine file"@),
        Some(b) => if !valid_utf8(b) {
            Err("Failed parsing decoded machine file"@)
        } else {
            Ok(decode_utf8(b))
        },
    }
}

/// The AES-256 key of a machine file: the SHA-256 of the license key's bytes
/// followed by the fingerprint's.
pub open spec fn decryption_key(license_key: Seq<char>, fingerprint: Seq<char>) -> Seq<u8> {
    sha256_of(encode_utf8(license_key) + encode_utf8(fingerprint))
}

/// The plaintext of a decoded AES-GCM payload, or the message of the error.
pub open spec fn opened_plaintext(key: Seq<u8>, parts: Seq<Seq<char>>) -> Result<Seq<char>, Seq<char>> {
    if parts.len() != 3 {
        Err("Failed parsing encrypted data"@)
    } else {
        match (base64_decoded(parts[0]), base64_decoded(parts[1]), base64_decoded(parts[2])) {
            (Some(ct), Some(nonce), Some(tag)) => if nonce.len() != 12 || tag.len() != 16 {
                Err("Failed parsing encrypted data"@)
            } else {
                match aes256gcm_opened(key, nonce, ct + tag) {
                    None => Err("Failed decrypting machine file"@),
                    Some(p) => if !valid_utf8(p) {
                        Err("Failed decrypting machine file"@)
                    } else {
                        Ok(decode_utf8(p))
                    },
                }
            },
            _ => Err("Failed parsing encrypted data"@),
        }
    }
}

/// The decrypted JSON text of a machine file, or the message of the error:
/// the algorithm tag must match, the signature over `machine/` and `enc` must
/// verify, and `enc` must hold exactly three base64 segments (ciphertext,
/// 12-byte nonce, 16-byte tag) that authenticate under the derived key.
pub open spec fn machine_file_plaintext(
    file: MachineFile,
    license_key: Seq<char>,
    fingerprint: Seq<char>,
    verify_key: Seq<char>,
) -> Result<Seq<char>, Seq<char>> {
    if file.alg@ != "aes-256-gcm+ed25519"@ {
        Err("algorithm is not supported"@)
    } else {
        match signature_check(verify_key, "machine/"@ + file.enc@, file.sig@) {
            Err(m) => Err(m),
            Ok(_) => opened_plaintext(
                decryption_key(license_key, fingerprint),
                split(trimmed_of(file.enc@), seq!['.']),
            ),
        }
    }
}

/// A machine file decodes only when its signature verifies over `machine/`
/// and `enc`, and its three segments authenticate under the key derived from
/// the license key and fingerprint; the text is then exactly what AES-GCM
/// recovered. A mutated ciphertext, tag or signature can only succeed where
/// these checks accept it.
pub proof fn lemma_decoded_payload_is_authenticated(
    file: MachineFile,
    license_key: Seq<char>,
    fingerprint: Seq<char>,
    verify_key: Seq<char>,
    text: Seq<char>,
)
    requires
        machine_file_plaintext(file, license_key, fingerprint, verify_key) == Ok::<
            Seq<char>,
            Seq<char>,
        >(text),
    ensures
        file.alg@ == "aes-256-gcm+ed25519"@,
        signature_check(verify_key, "machine/"@ + file.enc@, file.sig@) is Ok,
        ({
            let parts = split(trimmed_of(file.enc@), seq!['.']);
            &&& parts.len() == 3
            &&& base64_decoded(parts[0]) matches Some(ct)
            &&& base64_decoded(parts[1]) matches Some(nonce)
            &&& base64_decoded(parts[2]) matches Some(tag)
            &&& nonce.len() == 12
            &&& tag.len() == 16
            &&& aes256gcm_opened(decryption_key(license_key, fingerprint), nonce, ct + tag) matches Some(p)
            &&& valid_utf8(p)
            &&& text == decode_utf8(p)
        }),
{
}

/// Decoding is deterministic: two decodings of the same machine file for the
/// same license key, fingerprint and verification key agree.
pub proof fn lemma_decoding_is_deterministic(
    r1: Result<String, Error>,
    r2: Result<String, Error>,
    file: MachineFile,
    license_key: Seq<char>,
    fingerprint: Seq<char>,
    verify_key: Seq<char>,
)
    requires
        parse_outcome(r1, machine_file_plaintext(file, license_key, fingerprint, verify_key)),
        parse_outcome(r2, machine_file_plaintext(file, license_key, fingerprint, verify_key)),
    ensures
        r1 is Ok <==> r2 is Ok,
        r1 matches Ok(a) ==> r2 matches Ok(b) && a@ == b@,
        r1 matches Err(e1) ==> r2 matches Err(e2) && error_shape(e1) == error_shape(e2),
{
}

/// `r` carries the text that `spec` gives, or a `ParseErr` with its message.
pub open spec fn parse_outcome(r: Result<String, Error>, spec: Result<Seq<char>, Seq<char>>) -> bool {
    match r {
        Ok(s) => spec == Ok::<Seq<char>, Seq<char>>(s@),
        Err(e) => spec matches Err(m) && e matches Error::ParseErr(d) && d@ == m,
    }
}

fn concat_bytes(a: &[u8], b: &[u8]) -> (r: Vec<u8>)
    ensures
        r@ == a@ + b@,
{
    let mut r: Vec<u8> = Vec::new();
    let mut i: usize = 0;
    while i < a.len()
        invariant
            i <= a@.len(),
            r@ == a@.subrange(0, i as int),
        decreases a@.len() - i,
    {
        r.push(a[i]);
        i = i + 1;
        assert(r@ =~= a@.subrange(0, i as int));
    }
    let mut j: usize = 0;
    while j < b.len()
        invariant
            j <= b@.len(),
            r@ == a@ + b@.subrange(0, j as int),
        decreases b@.len() - j,
    {
        r.push(b[j]);
        j = j + 1;
        assert(r@ =~= a@ + b@.subrange(0, j as int));
    }
    assert(a@.subrange(0, a@.len() as int) =~= a@);
    assert(b@.subrange(0, b@.len() as int) =~= b@);
    r
}

fn decode_segment(v: &Vec<char>) -> (r: Option<Vec<u8>>)
    ensures
        match r {
            Some(b) => base64_decoded(v@) == Some(b@),
            None => base64_decoded(v@) is None,
        },
{
    let s = string_of(v.as_slice());
    base64_decode(s.as_str())
}

fn open_parts(key: &Vec<u8>, parts: &Vec<Vec<char>>) -> (r: Result<String, Error>)
    requires
        key@.len() == 32,
    ensures
        parse_outcome(r, opened_plaintext(key@, pieces_view(parts@))),
{
    proof {
        if parts@.len() == 3 {
            assert(pieces_view(parts@)[0] == parts@[0]@);
            assert(pieces_view(parts@)[1] == parts@[1]@);
            assert(pieces_view(parts@)[2] == parts@[2]@);
        }
    }
    if parts.len() != 3 {
        return Err(Error::ParseErr("Failed parsing encrypted data".to_owned()));
    }
    let ct = decode_segment(&parts[0]);
    let nonce = decode_segment(&parts[1]);
    let tag = decode_segment(&parts[2]);
    let (ct, nonce, tag) = match (ct, nonce, tag) {
        (Some(c), Some(n), Some(t)) => (c, n, t),
        _ => {
            return Err(Error::ParseErr("Failed parsing encrypted data".to_owned()));
        },
    };
    if nonce.len() != 12 || tag.len() != 16 {
        return Err(Error::ParseErr("Failed parsing encrypted data".to_owned()));
    }
    let sealed = concat_bytes(ct.as_slice(), tag.as_slice());
    let plain = match aes256gcm_open(key.as_slice(), nonce.as_slice(), sealed.as_slice()) {
        Some(p) => p,
        None => {
            return Err(Error::ParseErr("Failed decrypting machine file".to_owned()));
        },
    };
    match utf8_decode(plain) {
        Some(s) => Ok(s),
        None => Err(Error::ParseErr("Failed decrypting machine file".to_owned())),
    }
}

impl Machine {
    /// A machine with the given identity.
    pub fn new(
        fingerprint: String,
        name: String,
        hostname: String,
        platform: String,
        user_agent: String,
    ) -> (r: Self)
        ensures
            r.fingerprint == fingerprint,
            r.name == name,
            r.hostname == hostname,
            r.platform == platform,
            r.user_agent == user_agent,
    {
        Machine { fingerprint, name, hostname, platform, user_agent }
    }

    /// The JSON text inside a machine file: its armour lines and line breaks
    /// removed, then base64- and UTF-8-decoded.
    pub fn machine_file_payload(cert: &str) -> (r: Result<String, Error>)
        ensures
            parse_outcome(r, machine_file_payload(cert@)),
    {
        let c = chars_of(cert);
        let begin = chars_of("-----BEGIN MACHINE FILE-----");
        let end = chars_of("-----END MACHINE FILE-----");
        let nl = chars_of("\n");
        let a = remove_all(c.as_slice(), begin.as_slice());
        let b = remove_all(a.as_slice(), end.as_slice());
        let enc = remove_all(b.as_slice(), nl.as_slice());
        let enc = string_of(enc.as_slice());
        let payload = match base64_decode(enc.as_str()) {
            Some(p) => p,
            None => {
                return Err(Error::ParseErr("Failed decoding machine file".to_owned()));
            },
        };
        match utf8_decode(payload) {
            Some(s) => Ok(s),
            None => Err(Error::ParseErr("Failed parsing decoded machine file".to_owned())),
        }
    }

    /// Checks and decrypts a machine file for this machine and a license key;
    /// returns the JSON text of its license snapshot.
    pub fn decrypt_machine_file(
        &self,
        file: &MachineFile,
        license_key: &str,
        client: &KeygenClient,
    ) -> (r: Result<String, Error>)
        ensures
            parse_outcome(
                r,
                machine_file_plaintext(*file, license_key@, self.fingerprint@, client.verify_key@),
            ),
    {
        if !file.alg.eq(&"aes-256-gcm+ed25519".to_owned()) {
            return Err(Error::ParseErr("algorithm is not supported".to_owned()));
        }
        let msg = concat("machine/", file.enc.as_str());
        client.verify_signature(msg, file.sig.clone())?;
        let secret = concat_bytes(license_key.as_bytes(), self.fingerprint.as_str().as_bytes());
        let key = sha256(secret.as_slice());
        let enc = trim(file.enc.as_str());
        let enc = chars_of(enc.as_str());
        let dot: Vec<char> = vec!['.'];
        assert(dot@ =~= seq!['.']);
        let parts = split_all(enc.as_slice(), dot.as_slice());
        open_parts(&key, &parts)
    }
}

} // verus!

verus! {

/// The shortest checkout, in seconds (one hour).
pub const MIN_CHECKOUT_TTL: u32 = 3600;

/// The longest checkout, in seconds (one year).
pub const MAX_CHECKOUT_TTL: u32 = 31556952;

/// A requested checkout duration clamped to one hour .. one year, then capped
/// by the seconds left until the license expires.
pub open spec fn checkout_ttl(ttl: int, seconds_to_expiry: int) -> int {
    let clamped = if ttl < MIN_CHECKOUT_TTL {
        MIN_CHECKOUT_TTL as int
    } else if ttl > MAX_CHECKOUT_TTL {
        MAX_CHECKOUT_TTL as int
    } else {
        ttl
    };
    if seconds_to_expiry < clamped {
        seconds_to_expiry
    } else {
        clamped
    }
}

/// Why a checkout is refused: a license error by its code, or a parse error
/// by its message.
pub ghost enum Refusal {
    License(Seq<char>),
    Parse(Seq<char>),
}

/// What a checkout asks for at `now`: `None` for a machine file that never
/// expires (asked for, or kept for a license that maintains access after
/// expiry), else the number of seconds; or the error that refuses it.
pub open spec fn checkout_request(
    license: Option<License>,
    ttl: int,
    ttl_forever: bool,
    now: int,
) -> Result<Option<int>, Refusal> {
    match license {
        None => Err(Refusal::License("NO_LICENSE"@)),
        Some(l) => if !l.valid {
            Err(Refusal::License("INVALID_LICENSE"@))
        } else {
            match l.expiry {
                None => Err(Refusal::License("NOT_ACTIVATED"@)),
                Some(e) => match rfc3339_seconds(e@) {
                    None => Err(Refusal::Parse("Failed parsing license expiry date"@)),
                    Some(t) => if ttl_forever || (l.valid && l.code@ == "EXPIRED"@) {
                        Ok(None)
                    } else {
                        Ok(Some(checkout_ttl(ttl, t - now)))
                    },
                },
            }
        },
    }
}

/// `e` is the error that `spec` names.
pub open spec fn refusal_matches(e: Error, spec: Refusal) -> bool {
    match spec {
        Refusal::License(code) => is_license_err(e, code),
        Refusal::Parse(m) => e matches Error::ParseErr(d) && d@ == m,
    }
}

/// The checkout duration never exceeds one year nor the time left until the
/// license expires, and is at least one hour whenever that much time is left.
pub proof fn lemma_checkout_ttl_bounds(ttl: int, seconds_to_expiry: int)
    ensures
        checkout_ttl(ttl, seconds_to_expiry) <= MAX_CHECKOUT_TTL,
        checkout_ttl(ttl, seconds_to_expiry) <= seconds_to_expiry,
        seconds_to_expiry >= MIN_CHECKOUT_TTL ==> checkout_ttl(ttl, seconds_to_expiry)
            >= MIN_CHECKOUT_TTL,
        MIN_CHECKOUT_TTL <= ttl <= MAX_CHECKOUT_TTL && ttl <= seconds_to_expiry ==> checkout_ttl(
            ttl,
            seconds_to_expiry,
        ) == ttl,
{
}

/// The seconds to check a machine out for: `ttl` clamped to one hour .. one
/// year, then capped by the seconds left until the license expires.
pub fn effective_ttl(ttl: u32, seconds_to_expiry: i128) -> (r: i128)
    ensures
        r == checkout_ttl(ttl as int, seconds_to_expiry as int),
{
    let clamped: u32 = if ttl < MIN_CHECKOUT_TTL {
        MIN_CHECKOUT_TTL
    } else if ttl > MAX_CHECKOUT_TTL {
        MAX_CHECKOUT_TTL
    } else {
        ttl
    };
    if seconds_to_expiry < clamped as i128 {
        seconds_to_expiry
    } else {
        clamped as i128
    }
}

/// Decides a machine activation exchange at `now`: success is a verified 201.
pub fn activation_result(
    client: &KeygenClient,
    url: RequestUrl,
    headers: ResponseHeaders,
    status: u16,
    status_line: String,
    res_text: String,
    api_errors: Option<APIErrors>,
    now: i64,
) -> (r: Result<(), Error>)
    ensures
        status != 201 ==> (r matches Err(e) && error_shape(e) == api_error_of(
            status,
            status_line@,
            api_errors,
        )),
        status == 201 ==> match response_check(*client, "POST"@, url, headers, res_text@, now as int) {
            Err(m) => r matches Err(e) && is_bad_response(e, m),
            Ok(_) => r is Ok,
        },
{
    if status != 201 {
        return Err(parse_err_json(status, status_line, api_errors));
    }
    match client.verify_response("POST".to_owned(), url, headers, res_text, now) {
        Ok(_) => Ok(()),
        Err(e) => Err(e),
    }
}

/// Decides a machine checkout exchange at `now`: success is a verified 200
/// whose body holds a certificate, which is returned.
pub fn checkout_result(
    client: &KeygenClient,
    url: RequestUrl,
    headers: ResponseHeaders,
    status: u16,
    status_line: String,
    res_text: String,
    machine_file_res: Option<MachineFileRes>,
    api_errors: Option<APIErrors>,
    now: i64,
) -> (r: Result<String, Error>)
    ensures
        status != 200 ==> (r matches Err(e) && error_shape(e) == api_error_of(
            status,
            status_line@,
            api_errors,
        )),
        status == 200 ==> match response_check(*client, "POST"@, url, headers, res_text@, now as int) {
            Err(m) => r matches Err(e) && is_bad_response(e, m),
            Ok(_) => match machine_file_res {
                None => r matches Err(e) && e matches Error::ParseErr(d) && d@
                    == "Failed deserializing machine file response"@,
                Some(res) => r matches Ok(c) && c@ == res.data.attributes.certificate@,
            },
        },
{
    if status != 200 {
        return Err(parse_err_json(status, status_line, api_errors));
    }
    client.verify_response("POST".to_owned(), url, headers, res_text, now)?;
    match machine_file_res {
        Some(res) => Ok(res.data.attributes.certificate),
        None => Err(Error::ParseErr("Failed deserializing machine file response".to_owned())),
    }
}

impl Machine {
    /// The license to activate this machine with: there must be a valid one,
    /// and the machine must have a fingerprint.
    pub fn activation_license(&self, state: &LicensedState) -> (r: Result<License, Error>)
        ensures
            state.license is None ==> (r matches Err(e) && is_license_err(e, "NO_LICENSE"@)),
            state.license is Some && !state.license->0.valid ==> (r matches Err(e)
                && is_license_err(e, "NO_LICENSE"@)),
            state.license is Some && state.license->0.valid && self.fingerprint@.len() == 0 ==> (
            r matches Err(e) && is_license_err(e, "NO_FINGERPRINT"@)),
            state.license is Some && state.license->0.valid && self.fingerprint@.len() > 0 ==> (
            r matches Ok(l2) && l2@ == state.license->0@),
    {
        let license = match state.get_license() {
            Some(l) => l,
            None => {
                return Err(
                    Error::LicenseErr {
                        code: "NO_LICENSE".to_owned(),
                        detail: "Can't activate a machine. Current app state has no license. Call validate(key) first.".to_owned(),
                    },
                );
            },
        };
        if !license.valid {
            return Err(
                Error::LicenseErr {
                    code: "NO_LICENSE".to_owned(),
                    detail: "Can't activate a machine. Current license is not valid. Call validate(key) first.".to_owned(),
                },
            );
        }
        if self.fingerprint.as_str().is_empty() {
            return Err(
                Error::LicenseErr {
                    code: "NO_FINGERPRINT".to_owned(),
                    detail: "Can't activate this machine. Failed parsing machine fingerprint".to_owned(),
                },
            );
        }
        Ok(license)
    }

    /// The API path that checks this machine out.
    pub fn checkout_path(&self) -> (r: String)
        ensures
            r@ == "machines/"@ + self.fingerprint@ + "/actions/check-out"@,
    {
        let mut s = concat("machines/", self.fingerprint.as_str());
        s.append("/actions/check-out");
        s
    }

    /// What to check this machine out for at `now` (Unix seconds): `None`
    /// for a machine file that never expires, else its seconds. Needs a valid
    /// license with an expiry.
    pub fn checkout_plan(&self, state: &LicensedState, ttl: u32, ttl_forever: bool, now: i64) -> (r:
        Result<Option<i128>, Error>)
        ensures
            match r {
                Ok(None) => checkout_request(state.license, ttl as int, ttl_forever, now as int)
                    == Ok::<Option<int>, Refusal>(None),
                Ok(Some(t)) => checkout_request(state.license, ttl as int, ttl_forever, now as int)
                    == Ok::<Option<int>, Refusal>(Some(t as int)),
                Err(e) => checkout_request(state.license, ttl as int, ttl_forever, now as int) matches Err(
                    s,
                ) && refusal_matches(e, s),
            },
    {
        let license = match &state.license {
            Some(l) => l,
            None => {
                return Err(
                    Error::LicenseErr {
                        code: "NO_LICENSE".to_owned(),
                        detail: "Can't checkout machine file. Current app state has no license. Call validateKey() first.".to_owned(),
                    },
                );
            },
        };
        if !license.valid {
            return Err(
                Error::LicenseErr {
                    code: "INVALID_LICENSE".to_owned(),
                    detail: "Can't checkout machine file. Current license is invalid".to_owned(),
                },
            );
        }
        let expiry = match &license.expiry {
            Some(e) => e,
            None => {
                return Err(
                    Error::LicenseErr {
                        code: "NOT_ACTIVATED".to_owned(),
                        detail: "Can't checkout machine file. License hasn't been fully activated. Expiry still Null".to_owned(),
                    },
                );
            },
        };
        let expiry_t = match parse_rfc3339(expiry.as_str()) {
            Some(t) => t,
            None => {
                return Err(Error::ParseErr("Failed parsing license expiry date".to_owned()));
            },
        };
        if ttl_forever || license.should_maintain_access() {
            return Ok(None);
        }
        let seconds_to_expiry: i128 = expiry_t as i128 - now as i128;
        Ok(Some(effective_ttl(ttl, seconds_to_expiry)))
    }
}

} // verus!
