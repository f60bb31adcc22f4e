//! The canonical signing string of a response and the parsing of its
//! `Keygen-Signature` header.
use vstd::prelude::*;
use vstd::string::StringExecFns;
use crate::client::{KeygenResponseCache, RequestUrl, ResponseHeaders};
use crate::crypto::{base64_encode, base64_of, sha256, sha256_of};
use crate::err::Error;
use crate::text::{
    chars_of, concat, find, find_from, is_prefix, lemma_find_from_bounds, lowercase_of,
    slice_of, split, split_from, starts_with, string_of, to_lowercase,
};

verus! {

/// The key of a signature parameter: the text before its first `"`.
pub open spec fn param_key(p: Seq<char>) -> Seq<char> {
    match find_from(p, seq!['"'], 0) {
        Some(i) => p.subrange(0, i),
        None => p,
    }
}

/// The value of a signature parameter: the text between its first and second
/// `"` (or to its end when there is no second one); `None` without a `"`.
pub open spec fn param_value(p: Seq<char>) -> Option<Seq<char>> {
    match find_from(p, seq!['"'], 0) {
        Some(i) => {
            let rest = p.subrange(i + 1, p.len() as int);
            match find_from(rest, seq!['"'], 0) {
                Some(j) => Some(rest.subrange(0, j)),
                None => Some(rest),
            }
        },
        None => None,
    }
}

/// The value of the last parameter with a value whose key starts with `name`.
pub open spec fn last_param(params: Seq<Seq<char>>, name: Seq<char>) -> Option<Seq<char>>
    decreases params.len(),
{
    if params.len() == 0 {
        None
    } else {
        let p = params.last();
        if param_value(p) is Some && is_prefix(name, param_key(p)) {
            param_value(p)
        } else {
            last_param(params.drop_last(), name)
        }
    }
}

/// The `algorithm` and `signature` parameters of a `Keygen-Signature` header,
/// whose parameters are separated by `", "`.
pub open spec fn header_params(h: Seq<char>) -> (Option<Seq<char>>, Option<Seq<char>>) {
    let params = split(h, seq![',', ' ']);
    (last_param(params, "algorithm"@), last_param(params, "signature"@))
}

/// The view of an optional string.
pub open spec fn opt_view(o: Option<String>) -> Option<Seq<char>> {
    match o {
        Some(s) => Some(s@),
        None => None,
    }
}

/// The signature that the headers carry, or the message of the error.
pub open spec fn signature_param(h: ResponseHeaders) -> Result<Seq<char>, Seq<char>> {
    match h.keygen_signature {
        None => Err("Missing header: Keygen-Signature"@),
        Some(v) => {
            let (alg, sig) = header_params(v@);
            match alg {
                None => Err("Missing header: Keygen-Signature.algorithm"@),
                Some(a) => if a != "ed25519"@ {
                    Err("Unsupported algorithm"@)
                } else {
                    match sig {
                        None => Err("Missing header: Keygen-Signature.signature"@),
                        Some(s) => Ok(s),
                    }
                },
            }
        },
    }
}

/// The digest text of a body: `sha-256=` and the base64 of its SHA-256.
pub open spec fn body_digest(body: Seq<char>) -> Seq<char> {
    "sha-256="@ + base64_of(sha256_of(vstd::utf8::encode_utf8(body)))
}

/// The request target: the lower-cased method, a space, the path, and `?query` if any.
pub open spec fn request_target(method: Seq<char>, url: RequestUrl) -> Seq<char> {
    lowercase_of(method) + " "@ + url.path@ + match url.query {
        Some(q) => "?"@ + q@,
        None => Seq::empty(),
    }
}

/// The newline-joined signing string, in its fixed order.
pub open spec fn signing_string(target: Seq<char>, host: Seq<char>, date: Seq<char>, digest: Seq<
    char,
>) -> Seq<char> {
    "(request-target): "@ + target + "\n"@ + "host: "@ + host + "\n"@ + "date: "@ + date + "\n"@
        + "digest: "@ + digest
}

/// What a signature covers, and the signature itself.
pub ghost struct SigModel {
    pub sig: Seq<char>,
    pub target: Seq<char>,
    pub host: Seq<char>,
    pub date: Seq<char>,
    pub digest: Seq<char>,
}

/// The signed fields of a response, or the message of the error.
pub open spec fn sig_data_of(
    method: Seq<char>,
    url: RequestUrl,
    headers: ResponseHeaders,
    body: Seq<char>,
) -> Result<(Seq<char>, Seq<char>, Seq<char>, Seq<char>), Seq<char>> {
    match url.host {
        None => Err("Failed parsing host"@),
        Some(host) => match headers.date {
            None => Err("Missing header: Date"@),
            Some(date) => Ok((request_target(method, url), host@, date@, body_digest(body))),
        },
    }
}

/// The signature of a response and what it covers, or the message of the error.
pub open spec fn sig_of_response(
    method: Seq<char>,
    url: RequestUrl,
    headers: ResponseHeaders,
    body: Seq<char>,
) -> Result<SigModel, Seq<char>> {
    match signature_param(headers) {
        Err(m) => Err(m),
        Ok(sig) => match sig_data_of(method, url, headers, body) {
            Err(m) => Err(m),
            Ok((target, host, date, digest)) => Ok(
                SigModel { sig, target, host, date, digest },
            ),
        },
    }
}

/// `e` is a `BadResponse` with message `m`.
pub open spec fn is_bad_response(e: Error, m: Seq<char>) -> bool {
    e matches Error::BadResponse(d) && d@ == m
}

/// The signed fields of a response.
#[derive(Debug)]
pub struct KeygenSigData {
    pub target: String,
    pub host: String,
    pub date: String,
    pub digest: String,
}

/// A response signature together with the fields it covers.
#[derive(Debug)]
pub struct KeygenSig {
    pub sig: String,
    pub data: KeygenSigData,
}

impl View for KeygenSig {
    type V = SigModel;

    open spec fn view(&self) -> SigModel {
        SigModel {
            sig: self.sig@,
            target: self.data.target@,
            host: self.data.host@,
            date: self.data.date@,
            digest: self.data.digest@,
        }
    }
}

/// The digest text of a body.
pub fn digest_of_body(body: &str) -> (r: String)
    ensures
        r@ == body_digest(body@),
{
    let hash = sha256(body.as_bytes());
    let b64 = base64_encode(hash.as_slice());
    concat("sha-256=", b64.as_str())
}

/// Splits `p` at its first and second `"`: its key and, if it has a `"`, its value.
fn split_param(p: &Vec<char>) -> (r: (Vec<char>, Option<Vec<char>>))
    ensures
        r.0@ == param_key(p@),
        match r.1 {
            Some(v) => param_value(p@) == Some(v@),
            None => param_value(p@) is None,
        },
{
    let quote: Vec<char> = vec!['"'];
    assert(quote@ =~= seq!['"']);
    match find(p.as_slice(), quote.as_slice(), 0) {
        None => (p.clone(), None),
        Some(i) => {
            proof {
                lemma_find_from_bounds(p@, seq!['"'], 0);
                assert(i + 1 <= p@.len());
            }
            let n = p.len();
            let key = slice_of(p.as_slice(), 0, i);
            let rest = slice_of(p.as_slice(), i + 1, n);
            match find(rest.as_slice(), quote.as_slice(), 0) {
                None => (key, Some(rest)),
                Some(j) => {
                    proof {
                        lemma_find_from_bounds(rest@, seq!['"'], 0);
                    }
                    (key, Some(slice_of(rest.as_slice(), 0, j)))
                },
            }
        },
    }
}

impl KeygenSig {
    pub fn target(&self) -> (r: String)
        ensures
            r@ == self@.target,
    {
        self.data.target.clone()
    }

    pub fn host(&self) -> (r: String)
        ensures
            r@ == self@.host,
    {
        self.data.host.clone()
    }

    pub fn date(&self) -> (r: String)
        ensures
            r@ == self@.date,
    {
        self.data.date.clone()
    }

    pub fn digest(&self) -> (r: String)
        ensures
            r@ == self@.digest,
    {
        self.data.digest.clone()
    }

    /// The signature, as base64 text.
    pub fn signature(&self) -> (r: String)
        ensures
            r@ == self@.sig,
    {
        self.sig.clone()
    }

    /// The canonical signing string.
    pub fn data(&self) -> (r: String)
        ensures
            r@ == signing_string(self@.target, self@.host, self@.date, self@.digest),
    {
        let mut s = concat("(request-target): ", self.data.target.as_str());
        s.append("\n");
        s.append("host: ");
        s.append(self.data.host.as_str());
        s.append("\n");
        s.append("date: ");
        s.append(self.data.date.as_str());
        s.append("\n");
        s.append("digest: ");
        s.append(self.data.digest.as_str());
        s
    }

    /// Reads the signature and the fields it covers from a response.
    pub fn from_response(
        req_method: String,
        req_url: RequestUrl,
        res_headers: &ResponseHeaders,
        res_text: String,
    ) -> (r: Result<Self, Error>)
        ensures
            match r {
                Ok(s) => sig_of_response(req_method@, req_url, *res_headers, res_text@) == Ok::<
                    SigModel,
                    Seq<char>,
                >(s@),
                Err(e) => sig_of_response(req_method@, req_url, *res_headers, res_text@) matches Err(
                    m,
                ) && is_bad_response(e, m),
            },
    {
        let sig = Self::parse_signature(res_headers)?;
        let data = Self::build_signature_data(req_method, req_url, res_headers, res_text)?;
        Ok(Self { sig, data })
    }

    /// Rebuilds the signature of a cached response, re-hashing its body.
    pub fn from_response_cache(res_cache: KeygenResponseCache) -> (r: Self)
        ensures
            r@ == (SigModel {
                sig: res_cache.sig@,
                target: res_cache.target@,
                host: res_cache.host@,
                date: res_cache.date@,
                digest: body_digest(res_cache.body@),
            }),
    {
        let digest = digest_of_body(res_cache.body.as_str());
        Self {
            sig: res_cache.sig,
            data: KeygenSigData {
                target: res_cache.target,
                host: res_cache.host,
                date: res_cache.date,
                digest,
            },
        }
    }

    /// The `signature` parameter of the `Keygen-Signature` header, which must
    /// name the `ed25519` algorithm.
    pub fn parse_signature(res_headers: &ResponseHeaders) -> (r: Result<String, Error>)
        ensures
            match r {
                Ok(s) => signature_param(*res_headers) == Ok::<Seq<char>, Seq<char>>(s@),
                Err(e) => signature_param(*res_headers) matches Err(m) && is_bad_response(e, m),
            },
    {
        let header = match &res_headers.keygen_signature {
            Some(h) => h.clone(),
            None => {
                return Err(Error::BadResponse("Missing header: Keygen-Signature".to_owned()));
            },
        };
        let (algorithm, signature) = Self::parse_header_params(header);
        let algorithm = match algorithm {
            Some(a) => a,
            None => {
                return Err(
                    Error::BadResponse("Missing header: Keygen-Signature.algorithm".to_owned()),
                );
            },
        };
        if !algorithm.eq(&"ed25519".to_owned()) {
            return Err(Error::BadResponse("Unsupported algorithm".to_owned()));
        }
        match signature {
            Some(s) => Ok(s),
            None => Err(Error::BadResponse("Missing header: Keygen-Signature.signature".to_owned())),
        }
    }

    /// The `algorithm` and `signature` parameters of a `Keygen-Signature` header.
    pub fn parse_header_params(parameterized_header: String) -> (r: (Option<String>, Option<String>))
        ensures
            (opt_view(r.0), opt_view(r.1)) == header_params(parameterized_header@),
    {
        let h = chars_of(parameterized_header.as_str());
        let sep: Vec<char> = vec![',', ' '];
        assert(sep@ =~= seq![',', ' ']);
        let alg_name = chars_of("algorithm");
        let sig_name = chars_of("signature");
        let mut algorithm: Option<String> = None;
        let mut signature: Option<String> = None;
        let mut pos: usize = 0;
        let ghost mut done: Seq<Seq<char>> = seq![];
        loop
            invariant_except_break
                split(h@, sep@) == done + split_from(h@, sep@, pos as int),
            invariant
                pos <= h@.len(),
                sep@ == seq![',', ' '],
                opt_view(algorithm) == last_param(done, alg_name@),
                opt_view(signature) == last_param(done, sig_name@),
            ensures
                split(h@, sep@) == done,
            decreases h@.len() - pos,
        {
            let next = find(h.as_slice(), sep.as_slice(), pos);
            proof {
                lemma_find_from_bounds(h@, sep@, pos as int);
                if let Some(i) = next {
                    assert(i + 2 <= h@.len());
                }
            }
            let hn = h.len();
            let end: usize = match next {
                Some(i) => i,
                None => hn,
            };
            let param = slice_of(h.as_slice(), pos, end);
            let (key, val) = split_param(&param);
            if let Some(v) = val {
                if starts_with(key.as_slice(), alg_name.as_slice()) {
                    algorithm = Some(string_of(v.as_slice()));
                }
                if starts_with(key.as_slice(), sig_name.as_slice()) {
                    signature = Some(string_of(v.as_slice()));
                }
            }
            proof {
                let d2 = done.push(param@);
                assert(d2.drop_last() =~= done);
                assert(d2.last() == param@);
                done = d2;
            }
            match next {
                None => {
                    assert(split_from(h@, sep@, pos as int) == seq![param@]);
                    assert(split(h@, sep@) =~= done);
                    break ;
                },
                Some(i) => {
                    assert(split_from(h@, sep@, pos as int) =~= seq![param@] + split_from(
                        h@,
                        sep@,
                        i + 2,
                    ));
                    assert(split(h@, sep@) =~= done + split_from(h@, sep@, i + 2));
                    assert(i + 2 <= hn);
                    pos = i + 2;
                },
            }
        }
        (algorithm, signature)
    }

    /// The signed fields of a response: request target, host, `Date` header
    /// and the digest recomputed from the body.
    pub fn build_signature_data(
        req_method: String,
        req_url: RequestUrl,
        res_headers: &ResponseHeaders,
        res_text: String,
    ) -> (r: Result<KeygenSigData, Error>)
        ensures
            match r {
                Ok(d) => sig_data_of(req_method@, req_url, *res_headers, res_text@) == Ok::<
                    (Seq<char>, Seq<char>, Seq<char>, Seq<char>),
                    Seq<char>,
                >((d.target@, d.host@, d.date@, d.digest@)),
                Err(e) => sig_data_of(req_method@, req_url, *res_headers, res_text@) matches Err(m)
                    && is_bad_response(e, m),
            },
    {
        let method = to_lowercase(req_method.as_str());
        let mut target = concat(method.as_str(), " ");
        target.append(req_url.path.as_str());
        if let Some(query) = &req_url.query {
            target.append("?");
            target.append(query.as_str());
        }
        assert(target@ =~= request_target(req_method@, req_url));
        let host = match &req_url.host {
            Some(h) => h.clone(),
            None => {
                return Err(Error::BadResponse("Failed parsing host".to_owned()));
            },
        };
        let date = match &res_headers.date {
            Some(d) => d.clone(),
            None => {
                return Err(Error::BadResponse("Missing header: Date".to_owned()));
            },
        };
        let digest = digest_of_body(res_text.as_str());
        Ok(KeygenSigData { target, host, date, digest })
    }
}

} // verus!
