//! The server's machine-file response and the decrypted machine-file payload.
use vstd::prelude::*;

verus! {

/// A check-out response.
#[derive(Debug, Clone)]
pub struct MachineFileRes {
    pub data: MachineFileData,
}

#[derive(Debug, Clone)]
pub struct MachineFileData {
    pub attributes: MachineFileAttributes,
}

/// The certificate text of a check-out response.
#[derive(Debug, Clone)]
pub struct MachineFileAttributes {
    pub certificate: String,
}

/// The decrypted payload of a machine file.
#[derive(Debug, Clone)]
pub struct MachineLicense {
    pub meta: MachineLicenseMeta,
    pub included: Vec<MachineLicenseIncluded>,
}

/// When the machine file was issued and until when it holds (RFC 3339 texts).
#[derive(Debug, Clone)]
pub struct MachineLicenseMeta {
    pub expiry: Option<String>,
    pub issued: String,
    pub ttl: Option<u64>,
}

/// A record included in a machine file, by its `type` tag.
#[derive(Debug, Clone)]
pub enum MachineLicenseIncluded {
    License(IncludedLicense),
    Entitlement(IncludedEntitlements),
}

#[derive(Debug, Clone)]
pub struct IncludedLicense {
    pub id: String,
    pub attributes: IncludedLicenseAttributes,
    pub relationships: IncludedLicenseRelationsips,
}

/// The attributes of an included license; `metadata` is its JSON text.
#[derive(Debug, Clone)]
pub struct IncludedLicenseAttributes {
    pub name: Option<String>,
    pub key: String,
    pub expiry: String,
    pub metadata: String,
}

#[derive(Debug, Clone)]
pub struct IncludedLicenseRelationsips {
    pub policy: IncludedLicensePolicy,
}

#[derive(Debug, Clone)]
pub struct IncludedLicensePolicy {
    pub data: IncludedLicensePolicyData,
}

#[derive(Debug, Clone)]
pub struct IncludedLicensePolicyData {
    pub id: String,
}

#[derive(Debug, Clone)]
pub struct IncludedEntitlements {
    pub attributes: IncludedEntitlementsAttributes,
}

#[derive(Debug, Clone)]
pub struct IncludedEntitlementsAttributes {
    pub code: String,
}

} // verus!
