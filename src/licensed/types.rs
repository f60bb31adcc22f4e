//! The validate-key response, as the library reads it.
use vstd::prelude::*;

verus! {

/// A validate-key response.
#[derive(Debug, Clone)]
pub struct LicenseResponse {
    pub meta: LicenseMeta,
    /// Absent when the key was not found.
    pub data: Option<LicenseData>,
}

/// The scope that the validation was made with.
#[derive(Debug, Clone)]
pub struct LicenseScope {
    pub entitlements: Option<Vec<String>>,
}

/// The verdict part of a validate-key response.
#[derive(Debug, Clone)]
pub struct LicenseMeta {
    pub ts: String,
    pub valid: bool,
    pub detail: String,
    pub code: String,
    pub scope: Option<LicenseScope>,
}

/// The license record of a validate-key response.
#[derive(Debug, Clone)]
pub struct LicenseData {
    pub id: String,
    pub attributes: LicenseAttributes,
    pub relationships: LicenseRelationships,
}

/// The attributes of a license record; `metadata` is its JSON text.
#[derive(Debug, Clone)]
pub struct LicenseAttributes {
    pub name: Option<String>,
    pub key: String,
    pub expiry: Option<String>,
    pub metadata: String,
}

#[derive(Debug, Clone)]
pub struct LicenseRelationships {
    pub policy: LicensePolicy,
}

#[derive(Debug, Clone)]
pub struct LicensePolicy {
    pub data: LicensePolicyData,
}

#[derive(Debug, Clone)]
pub struct LicensePolicyData {
    pub id: String,
}

} // verus!
