//! An admission-control policy: a request against a managed resource is
//! rejected exactly when the metadata view designated for its operation kind
//! already carries the kind's sentinel annotation; otherwise it is accepted.

pub mod engine;
pub mod operation;
pub mod query;
pub mod settings;
