//! The handle on a connection, and what it asks of the backend behind it.

use vstd::prelude::*;
use crate::error::{Error, ErrorView};

verus! {

/// The capability to run migrations on a connection. What a migration does
/// is an exchange with the server, and so the caller's.
pub trait Migrate {

}

/// What a connection handle asks of its backend without an exchange with the
/// server. The exchanges themselves (closing, a ping, transactions, a flush,
/// queries) are the caller's, and go through the same backend.
pub trait AnyConnectionBackend {
    /// The name of the backend, for people to read.
    spec fn spec_name(&self) -> Seq<char>;

    /// How many prepared statements the backend keeps.
    spec fn spec_cached_statements(&self) -> usize;

    /// Whether the backend holds something that it has not sent yet.
    spec fn spec_should_flush(&self) -> bool;

    /// Whether the backend can run migrations.
    spec fn spec_migrates(&self) -> bool;

    /// How many transactions are open on the connection, one inside the other.
    spec fn spec_transaction_depth(&self) -> usize;

    fn name(&self) -> (name: String)
        ensures
            name@ == self.spec_name(),
    ;

    fn cached_statements_size(&self) -> (size: usize)
        ensures
            size == self.spec_cached_statements(),
    ;

    /// Whether a flush is due before the next operation.
    fn should_flush(&self) -> (due: bool)
        ensures
            due == self.spec_should_flush(),
    ;

    /// Rolls the innermost open transaction back without waiting for the
    /// server: the rollback is left to be sent with the next flush. For a
    /// handle that is given up in the middle of a transaction. Where no
    /// transaction is open, nothing changes.
    fn start_rollback(&mut self)
        ensures
            final(self).spec_name() == old(self).spec_name(),
            final(self).spec_migrates() == old(self).spec_migrates(),
            final(self).spec_cached_statements() == old(self).spec_cached_statements(),
            old(self).spec_transaction_depth() > 0 ==> final(self).spec_transaction_depth()
                == old(self).spec_transaction_depth() - 1 && final(self).spec_should_flush(),
            old(self).spec_transaction_depth() == 0 ==> final(self).spec_transaction_depth() == 0
                && final(self).spec_should_flush() == old(self).spec_should_flush(),
    ;

    /// What runs the migrations of this backend.
    type Migrator: Migrate;

    /// The backend as something that runs migrations. A backend that cannot
    /// says so.
    fn as_migrate(&mut self) -> (migrate: Result<&mut Self::Migrator, Error>)
        ensures
            migrate is Ok <==> old(self).spec_migrates(),
            migrate matches Err(e) ==> e@ == ErrorView::Unsupported,
    ;
}

/// What a rollback that is started and not waited for makes of a backend:
/// where a transaction was open, the innermost is closed and the rollback
/// waits to be sent; where none was, the backend is as before.
pub open spec fn rollback_started<B: AnyConnectionBackend>(before: B, after: B) -> bool {
    &&& after.spec_name() == before.spec_name()
    &&& after.spec_migrates() == before.spec_migrates()
    &&& after.spec_cached_statements() == before.spec_cached_statements()
    &&& if before.spec_transaction_depth() > 0 {
        &&& after.spec_transaction_depth() == before.spec_transaction_depth() - 1
        &&& after.spec_should_flush()
    } else {
        &&& after.spec_transaction_depth() == 0
        &&& after.spec_should_flush() == before.spec_should_flush()
    }
}

/// A connection to a database of any backend.
///
/// The handle owns its backend, which is chosen when the connection is made
/// and stays for as long as the handle lives. Every operation is the
/// backend's own: the handle keeps nothing of its own beside it.
pub struct AnyConnection<B: AnyConnectionBackend> {
    backend: B,
}

impl<B: AnyConnectionBackend> AnyConnection<B> {
    /// The backend that this handle owns.
    pub closed spec fn backend(&self) -> B {
        self.backend
    }

    /// A handle on `backend`.
    pub fn new(backend: B) -> (connection: Self)
        ensures
            connection.backend() == backend,
    {
        AnyConnection { backend }
    }

    /// Gives up the handle and hands back its backend, for the caller to
    /// close.
    pub fn into_backend(self) -> (backend: B)
        ensures
            backend == self.backend(),
    {
        self.backend
    }

    /// The name of the backend.
    pub fn backend_name(&self) -> (name: String)
        ensures
            name@ == self.backend().spec_name(),
    {
        self.backend.name()
    }

    pub fn cached_statements_size(&self) -> (size: usize)
        ensures
            size == self.backend().spec_cached_statements(),
    {
        self.backend.cached_statements_size()
    }

    /// Whether a flush is due before the next operation.
    pub fn should_flush(&self) -> (due: bool)
        ensures
            due == self.backend().spec_should_flush(),
    {
        self.backend.should_flush()
    }

    /// Rolls the innermost open transaction back without waiting for the
    /// server: to be called where the handle is given up in the middle of one.
    pub fn start_rollback(&mut self)
        ensures
            rollback_started(old(self).backend(), final(self).backend()),
    {
        self.backend.start_rollback();
    }

    /// The connection as something that runs migrations. Fails where its
    /// backend cannot.
    pub fn get_migrate(&mut self) -> (migrate: Result<&mut B::Migrator, Error>)
        ensures
            migrate is Ok <==> old(self).backend().spec_migrates(),
            migrate matches Err(e) ==> e@ == ErrorView::Unsupported,
    {
        self.backend.as_migrate()
    }
}

} // verus!
