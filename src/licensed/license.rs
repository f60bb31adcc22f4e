//! The license value handed to callers, and how it is built from a verified
//! response or a decrypted machine file.
use vstd::prelude::*;
use super::types::LicenseResponse;
use crate::client::{minutes_between, minutes_since};
use crate::client::sig::opt_view;
use crate::crypto::{parse_rfc3339, rfc3339_seconds};
use crate::err::Error;
use crate::machine::types::{
    IncludedLicense, MachineLicense, MachineLicenseIncluded, MachineLicenseMeta,
};

verus! {

/// The views of a sequence of strings.
pub open spec fn strings_view(v: Seq<String>) -> Seq<Seq<char>> {
    v.map_values(|s: String| s@)
}

/// A copy of a list of strings.
pub fn clone_strings(v: &Vec<String>) -> (r: Vec<String>)
    ensures
        strings_view(r@) == strings_view(v@),
{
    let mut r: Vec<String> = Vec::new();
    let mut i: usize = 0;
    while i < v.len()
        invariant
            i <= v@.len(),
            r@.len() == i,
            forall|k: int| 0 <= k < i ==> (#[trigger] r@[k])@ == v@[k]@,
        decreases v@.len() - i,
    {
        let c = v[i].clone();
        r.push(c);
        i = i + 1;
    }
    assert(strings_view(r@) =~= strings_view(v@));
    r
}

fn clone_opt(o: &Option<String>) -> (r: Option<String>)
    ensures
        opt_view(r) == opt_view(*o),
{
    match o {
        Some(s) => Some(s.clone()),
        None => None,
    }
}

/// What a license is, as values.
pub ghost struct LicenseModel {
    pub id: Seq<char>,
    pub policy_id: Seq<char>,
    pub key: Seq<char>,
    pub code: Seq<char>,
    pub detail: Seq<char>,
    pub expiry: Option<Seq<char>>,
    pub entitlements: Seq<Seq<char>>,
    pub metadata: Seq<char>,
    pub valid: bool,
}

/// A license and its validation status; `metadata` is its JSON text.
#[derive(Debug, Clone)]
pub struct License {
    pub id: String,
    pub policy_id: String,
    pub key: String,
    pub code: String,
    pub detail: String,
    pub expiry: Option<String>,
    pub entitlements: Vec<String>,
    pub metadata: String,
    pub valid: bool,
}

impl View for License {
    type V = LicenseModel;

    open spec fn view(&self) -> LicenseModel {
        LicenseModel {
            id: self.id@,
            policy_id: self.policy_id@,
            key: self.key@,
            code: self.code@,
            detail: self.detail@,
            expiry: opt_view(self.expiry),
            entitlements: strings_view(self.entitlements@),
            metadata: self.metadata@,
            valid: self.valid,
        }
    }
}

/// The views of an optional license.
pub open spec fn opt_license_view(o: Option<License>) -> Option<LicenseModel> {
    match o {
        Some(l) => Some(l@),
        None => None,
    }
}

/// The license that a validate-key response describes, if it has a license record.
pub open spec fn license_of_response(r: LicenseResponse) -> Option<LicenseModel> {
    match r.data {
        None => None,
        Some(d) => Some(
            LicenseModel {
                id: d.id@,
                policy_id: d.relationships.policy.data.id@,
                key: d.attributes.key@,
                code: r.meta.code@,
                detail: r.meta.detail@,
                expiry: opt_view(d.attributes.expiry),
                entitlements: match r.meta.scope {
                    Some(scope) => match scope.entitlements {
                        Some(e) => strings_view(e@),
                        None => Seq::empty(),
                    },
                    None => Seq::empty(),
                },
                metadata: d.attributes.metadata@,
                valid: r.meta.valid,
            },
        ),
    }
}

/// The first included license record.
pub open spec fn first_license(items: Seq<MachineLicenseIncluded>) -> Option<IncludedLicense>
    decreases items.len(),
{
    if items.len() == 0 {
        None
    } else {
        match items[0] {
            MachineLicenseIncluded::License(l) => Some(l),
            _ => first_license(items.drop_first()),
        }
    }
}

/// The codes of the included entitlement records, in order.
pub open spec fn entitlement_codes(items: Seq<MachineLicenseIncluded>) -> Seq<Seq<char>>
    decreases items.len(),
{
    if items.len() == 0 {
        Seq::empty()
    } else {
        let rest = entitlement_codes(items.drop_last());
        match items.last() {
            MachineLicenseIncluded::Entitlement(e) => rest.push(e.attributes.code@),
            _ => rest,
        }
    }
}

/// Whether a machine file with these dates has expired at `now`, or the
/// message of the parse error: it holds only while `now` is more than zero
/// whole minutes after `issued` and before `expiry`.
pub open spec fn machine_file_expired(issued: Seq<char>, expiry: Seq<char>, now: int) -> Result<
    bool,
    Seq<char>,
> {
    match rfc3339_seconds(issued) {
        None => Err("Failed parsing machine file issued date"@),
        Some(i) => match rfc3339_seconds(expiry) {
            None => Err("Failed parsing machine file expiry date"@),
            Some(e) => Ok(!(minutes_between(i, now) > 0 && minutes_between(now, e) > 0)),
        },
    }
}

/// Whether a machine file's dates rule it out at `now`: never without an expiry.
pub open spec fn snapshot_expired(meta: MachineLicenseMeta, now: int) -> Result<bool, Seq<char>> {
    match meta.expiry {
        None => Ok(false),
        Some(e) => machine_file_expired(meta.issued@, e@, now),
    }
}

/// The license that a machine file's records describe.
pub open spec fn license_of_included(l: IncludedLicense, items: Seq<MachineLicenseIncluded>) -> LicenseModel {
    LicenseModel {
        id: l.id@,
        policy_id: l.relationships.policy.data.id@,
        key: l.attributes.key@,
        code: "VALID"@,
        detail: "is valid"@,
        expiry: Some(l.attributes.expiry@),
        entitlements: entitlement_codes(items),
        metadata: l.attributes.metadata@,
        valid: true,
    }
}

/// The license a machine file gives at `now`: `None` when it has expired or
/// holds no license record; the message of a date parse error otherwise.
pub open spec fn license_of_machine_file(ml: MachineLicense, now: int) -> Result<
    Option<LicenseModel>,
    Seq<char>,
> {
    match snapshot_expired(ml.meta, now) {
        Err(m) => Err(m),
        Ok(true) => Ok(None),
        Ok(false) => match first_license(ml.included@) {
            None => Ok(None),
            Some(l) => Ok(Some(license_of_included(l, ml.included@))),
        },
    }
}

/// Whether a license's expiry is absent, unreadable, or not a whole minute after `now`.
pub open spec fn license_expired(expiry: Option<Seq<char>>, now: int) -> bool {
    match expiry {
        None => true,
        Some(e) => match rfc3339_seconds(e) {
            None => true,
            Some(t) => minutes_between(now, t) <= 0,
        },
    }
}

fn entitlement_codes_of(items: &Vec<MachineLicenseIncluded>) -> (r: Vec<String>)
    ensures
        strings_view(r@) == entitlement_codes(items@),
{
    let mut r: Vec<String> = Vec::new();
    let mut i: usize = 0;
    while i < items.len()
        invariant
            i <= items@.len(),
            strings_view(r@) == entitlement_codes(items@.subrange(0, i as int)),
        decreases items@.len() - i,
    {
        if let MachineLicenseIncluded::Entitlement(e) = &items[i] {
            r.push(e.attributes.code.clone());
        }
        assert(items@.subrange(0, i + 1).drop_last() =~= items@.subrange(0, i as int));
        assert(strings_view(r@) =~= entitlement_codes(items@.subrange(0, i + 1)));
        i = i + 1;
    }
    assert(items@.subrange(0, items@.len() as int) =~= items@);
    r
}

proof fn lemma_first_license_skip(items: Seq<MachineLicenseIncluded>, i: int)
    requires
        0 <= i < items.len(),
        !(items[i] is License),
    ensures
        first_license(items.subrange(i, items.len() as int)) == first_license(
            items.subrange(i + 1, items.len() as int),
        ),
{
    assert(items.subrange(i, items.len() as int).drop_first() =~= items.subrange(
        i + 1,
        items.len() as int,
    ));
}

fn find_included_license(items: &Vec<MachineLicenseIncluded>) -> (r: Option<&IncludedLicense>)
    ensures
        match r {
            Some(l) => first_license(items@) == Some(*l),
            None => first_license(items@) is None,
        },
{
    let mut i: usize = 0;
    assert(items@.subrange(0, items@.len() as int) =~= items@);
    while i < items.len()
        invariant
            i <= items@.len(),
            first_license(items@) == first_license(items@.subrange(i as int, items@.len() as int)),
        decreases items@.len() - i,
    {
        if let MachineLicenseIncluded::License(l) = &items[i] {
            return Some(l);
        }
        proof {
            lemma_first_license_skip(items@, i as int);
        }
        i = i + 1;
    }
    None
}

impl License {
    /// A copy of this license.
    pub fn duplicate(&self) -> (r: License)
        ensures
            r@ == self@,
    {
        License {
            id: self.id.clone(),
            policy_id: self.policy_id.clone(),
            key: self.key.clone(),
            code: self.code.clone(),
            detail: self.detail.clone(),
            expiry: clone_opt(&self.expiry),
            entitlements: clone_strings(&self.entitlements),
            metadata: self.metadata.clone(),
            valid: self.valid,
        }
    }

    /// A license that is still valid though its status is `EXPIRED`: its
    /// policy keeps access after expiry.
    pub fn should_maintain_access(&self) -> (r: bool)
        ensures
            r == (self.valid && self.code@ == "EXPIRED"@),
    {
        self.valid && self.code.eq(&"EXPIRED".to_owned())
    }

    /// Whether the license has no readable expiry, or it is not a whole minute
    /// after `now` (Unix seconds).
    pub fn has_expired(&self, now: i64) -> (r: bool)
        ensures
            r == license_expired(self@.expiry, now as int),
    {
        match &self.expiry {
            None => true,
            Some(e) => match parse_rfc3339(e.as_str()) {
                None => true,
                Some(t) => minutes_since(now, t) <= 0,
            },
        }
    }

    /// The license that a verified validate-key response describes; `None`
    /// when the response has no license record.
    pub fn from_license_response(lic_res: LicenseResponse) -> (r: Option<Self>)
        ensures
            opt_license_view(r) == license_of_response(lic_res),
    {
        let ghost orig = lic_res;
        match lic_res.data {
            Some(lic_data) => {
                let entitlements: Vec<String> = match lic_res.meta.scope {
                    Some(scope) => match scope.entitlements {
                        Some(e) => e,
                        None => Vec::new(),
                    },
                    None => Vec::new(),
                };
                let r = License {
                    id: lic_data.id,
                    policy_id: lic_data.relationships.policy.data.id,
                    key: lic_data.attributes.key,
                    code: lic_res.meta.code,
                    detail: lic_res.meta.detail,
                    expiry: lic_data.attributes.expiry,
                    entitlements,
                    metadata: lic_data.attributes.metadata,
                    valid: lic_res.meta.valid,
                };
                assert(r@.entitlements =~= license_of_response(orig)->0.entitlements);
                Some(r)
            },
            None => None,
        }
    }

    /// Whether a machine file issued at `issued` and expiring at `expiry`
    /// (RFC 3339) has expired at `now`: both bounds are checked, so a clock
    /// set back before `issued` counts as expired too.
    pub fn has_machine_file_expired(issued: &str, expiry: &str, now: i64) -> (r: Result<bool, Error>)
        ensures
            match r {
                Ok(b) => machine_file_expired(issued@, expiry@, now as int) == Ok::<bool, Seq<char>>(b),
                Err(e) => machine_file_expired(issued@, expiry@, now as int) matches Err(m)
                    && e matches Error::ParseErr(d) && d@ == m,
            },
    {
        let issued_t = match parse_rfc3339(issued) {
            Some(t) => t,
            None => {
                return Err(Error::ParseErr("Failed parsing machine file issued date".to_owned()));
            },
        };
        let expiry_t = match parse_rfc3339(expiry) {
            Some(t) => t,
            None => {
                return Err(Error::ParseErr("Failed parsing machine file expiry date".to_owned()));
            },
        };
        let minutes_since_issued = minutes_since(issued_t, now);
        let minutes_to_expiry = minutes_since(now, expiry_t);
        let valid = minutes_since_issued > 0 && minutes_to_expiry > 0;
        Ok(!valid)
    }

    /// The license that a decrypted machine file gives at `now` (Unix
    /// seconds): valid by definition, with the included license's fields and
    /// the codes of the included entitlements.
    pub fn from_machine_license(machine_license: &MachineLicense, now: i64) -> (r: Result<
        Option<Self>,
        Error,
    >)
        ensures
            match r {
                Ok(o) => license_of_machine_file(*machine_license, now as int) == Ok::<
                    Option<LicenseModel>,
                    Seq<char>,
                >(opt_license_view(o)),
                Err(e) => license_of_machine_file(*machine_license, now as int) matches Err(m)
                    && e matches Error::ParseErr(d) && d@ == m,
            },
    {
        if let Some(expiry) = &machine_license.meta.expiry {
            if Self::has_machine_file_expired(
                machine_license.meta.issued.as_str(),
                expiry.as_str(),
                now,
            )? {
                return Ok(None);
            }
        }
        match find_included_license(&machine_license.included) {
            None => Ok(None),
            Some(l) => {
                let entitlements = entitlement_codes_of(&machine_license.included);
                Ok(
                    Some(
                        License {
                            id: l.id.clone(),
                            policy_id: l.relationships.policy.data.id.clone(),
                            key: l.attributes.key.clone(),
                            code: "VALID".to_owned(),
                            detail: "is valid".to_owned(),
                            expiry: Some(l.attributes.expiry.clone()),
                            entitlements,
                            metadata: l.attributes.metadata.clone(),
                            valid: true,
                        },
                    ),
                )
            },
        }
    }
}

/// A machine file whose `issued` lies after `now` (the clock was set back)
/// is turned away exactly as one whose `expiry` lies before `now`: neither
/// gives a license.
pub proof fn lemma_machine_file_expiry_both_bounds(ml: MachineLicense, now: int)
    requires
        ml.meta.expiry matches Some(e) && rfc3339_seconds(e@) is Some,
        rfc3339_seconds(ml.meta.issued@) is Some,
        rfc3339_seconds(ml.meta.issued@)->0 > now || rfc3339_seconds(
            ml.meta.expiry->0@,
        )->0 < now,
    ensures
        license_of_machine_file(ml, now) == Ok::<Option<LicenseModel>, Seq<char>>(None),
{
}

} // verus!
