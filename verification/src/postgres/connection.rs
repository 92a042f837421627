//! What the connection handle reads of a PostgreSQL connection.

use vstd::prelude::*;
use crate::connection::{AnyConnectionBackend, Migrate};
use crate::error::Error;
use crate::postgres::database::Postgres;

verus! {

/// The state of a PostgreSQL connection, as far as the handle asks for it.
#[derive(Debug)]
pub struct PgConnection {
    /// How many prepared statements are kept.
    pub cached_statements: usize,
    /// Whether something is written that has not been sent.
    pub unsent: bool,
    /// How many transactions are open, one inside the other.
    pub transaction_depth: usize,
}

impl Migrate for PgConnection {

}

impl AnyConnectionBackend for PgConnection {
    type Migrator = PgConnection;

    open spec fn spec_name(&self) -> Seq<char> {
        Postgres::spec_name()
    }

    open spec fn spec_cached_statements(&self) -> usize {
        self.cached_statements
    }

    open spec fn spec_should_flush(&self) -> bool {
        self.unsent
    }

    /// PostgreSQL runs migrations.
    open spec fn spec_migrates(&self) -> bool {
        true
    }

    open spec fn spec_transaction_depth(&self) -> usize {
        self.transaction_depth
    }

    fn name(&self) -> (name: String) {
        Postgres::name().to_owned()
    }

    fn cached_statements_size(&self) -> (size: usize) {
        self.cached_statements
    }

    fn should_flush(&self) -> (due: bool) {
        self.unsent
    }

    fn start_rollback(&mut self) {
        if self.transaction_depth > 0 {
            self.transaction_depth = self.transaction_depth - 1;
            self.unsent = true;
        }
    }

    /// The connection itself runs its migrations: what is handed out is this
    /// connection, and what is done to it is done to this connection.
    fn as_migrate(&mut self) -> (migrate: Result<&mut PgConnection, Error>)
        ensures
            migrate matches Ok(migrator) && *migrator == *old(self) && *final(self)
                == *final(migrator),
    {
        Ok(self)
    }
}

} // verus!
