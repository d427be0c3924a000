//! Reconciliation core of a Kubernetes operator for Backblaze B2 accounts.

pub mod cache;
pub mod crds;
pub mod policy;
pub mod secret;
pub mod reconcile;
