//! The PostgreSQL driver.

use vstd::prelude::*;

verus! {

/// PostgreSQL database driver.
#[derive(Debug)]
pub struct Postgres;

impl Postgres {
    /// The name of the backend, for people to read.
    pub open spec fn spec_name() -> Seq<char> {
        "PostgreSQL"@
    }

    /// The name of the backend, for people to read.
    pub fn name() -> (name: &'static str)
        ensures
            name@ == Self::spec_name(),
    {
        "PostgreSQL"
    }
}

} // verus!
