use vstd::prelude::*;

verus! {

/// Why the pet register file could not be loaded.
pub enum DbError {
    /// The file could not be read.
    ReadDBError(std::io::Error),
    /// The file's text is not a valid pet list.
    ParseDBError(serde_json::Error),
}

impl From<std::io::Error> for DbError {
    fn from(e: std::io::Error) -> (r: DbError)
        ensures
            r == DbError::ReadDBError(e),
    {
        DbError::ReadDBError(e)
    }
}

impl vstd::std_specs::convert::FromSpecImpl<std::io::Error> for DbError {
    open spec fn obeys_from_spec() -> bool {
        true
    }

    open spec fn from_spec(e: std::io::Error) -> DbError {
        DbError::ReadDBError(e)
    }
}

impl From<serde_json::Error> for DbError {
    fn from(e: serde_json::Error) -> (r: DbError)
        ensures
            r == DbError::ParseDBError(e),
    {
        DbError::ParseDBError(e)
    }
}

impl vstd::std_specs::convert::FromSpecImpl<serde_json::Error> for DbError {
    open spec fn obeys_from_spec() -> bool {
        true
    }

    open spec fn from_spec(e: serde_json::Error) -> DbError {
        DbError::ParseDBError(e)
    }
}

} // verus!
