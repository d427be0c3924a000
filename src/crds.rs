//! The resource types that the operator watches.
use vstd::prelude::*;

verus! {

/// Where an account's credential is kept: a secret, and the names of its two fields.
#[derive(Debug, Clone, Default)]
pub struct AccountSecretReference {
    pub name: String,
    pub namespace: String,
    pub key_id_field: String,
    pub application_key_field: String,
}

/// The desired state of an account.
#[derive(Debug, Clone, Default)]
pub struct AccountSpec {
    pub credential_reference: AccountSecretReference,
}

/// The desired state of a bucket.
#[derive(Debug, Clone, Default)]
pub struct BucketSpec {
    pub account_reference: String,
}

/// The desired state of a key.
#[derive(Debug, Clone, Default)]
pub struct KeySpec {
    pub target_secrets: Vec<AccountSecretReference>,
}

} // verus!
