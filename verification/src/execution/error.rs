//! Why an execution failed.

use vstd::prelude::*;

use crate::metadata::MetadataId;

verus! {

/// `sqlx::Error`, the error of a database call, declared so that [`ExecutionError`] can
/// carry it. Nothing is claimed of it: the library never looks inside one.
#[verifier::external_type_specification]
#[verifier::external_body]
pub struct ExSqlxError(sqlx::Error);

/// An execution failure: an unknown or unreachable datasource, a database error, or a
/// request that cannot be planned, permitted or mapped.
#[derive(Debug)]
pub enum ExecutionError {
    DatasourceNotFound(MetadataId),
    DatasourceRegistration(String),
    Sqlx(sqlx::Error),
    Planning(String),
    Permission(String),
    Mapping(String),
}

impl From<sqlx::Error> for ExecutionError {
    /// A database error, as it came.
    fn from(value: sqlx::Error) -> (r: ExecutionError)
        ensures
            r == ExecutionError::Sqlx(value),
    {
        ExecutionError::Sqlx(value)
    }
}

impl vstd::std_specs::convert::FromSpecImpl<sqlx::Error> for ExecutionError {
    open spec fn obeys_from_spec() -> bool {
        true
    }

    open spec fn from_spec(v: sqlx::Error) -> ExecutionError {
        ExecutionError::Sqlx(v)
    }
}

} // verus!
