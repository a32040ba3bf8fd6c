use vstd::prelude::*;

verus! {

/// One record of the pet register.
#[derive(Clone, Debug)]
pub struct Pet {
    /// Unique, assigned in increasing order.
    pub id: usize,
    pub name: String,
    pub category: String,
    pub age: usize,
    /// Creation instant, in milliseconds since the Unix epoch (UTC).
    pub created_at_ms: i64,
}

} // verus!
