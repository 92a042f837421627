use sqlx_any::connection::{AnyConnection, AnyConnectionBackend};
use sqlx_any::postgres::connection::PgConnection;

fn connection(cached_statements: usize, unsent: bool, transaction_depth: usize) -> AnyConnection<PgConnection> {
    AnyConnection::new(PgConnection { cached_statements, unsent, transaction_depth })
}

#[test]
fn the_handle_answers_as_its_backend() {
    let handle = connection(3, false, 0);
    assert_eq!(handle.backend_name(), "PostgreSQL");
    assert_eq!(handle.cached_statements_size(), 3);
    assert!(!handle.should_flush());
    let handle = connection(0, true, 0);
    assert_eq!(handle.cached_statements_size(), 0);
    assert!(handle.should_flush());
}

#[test]
fn the_backend_answers_for_itself() {
    let backend = PgConnection { cached_statements: 9, unsent: true, transaction_depth: 2 };
    assert_eq!(backend.name(), "PostgreSQL");
    assert_eq!(backend.cached_statements_size(), 9);
    assert!(backend.should_flush());
}

#[test]
fn giving_up_inside_a_transaction_leaves_a_rollback_to_send() {
    let mut handle = connection(1, false, 2);
    handle.start_rollback();
    assert!(handle.should_flush());
    assert_eq!(handle.cached_statements_size(), 1);
    let backend = handle.into_backend();
    assert_eq!(backend.transaction_depth, 1);
    assert!(backend.unsent);
}

#[test]
fn giving_up_outside_a_transaction_changes_nothing() {
    let mut handle = connection(1, false, 0);
    handle.start_rollback();
    assert!(!handle.should_flush());
    let backend = handle.into_backend();
    assert_eq!(backend.transaction_depth, 0);
    assert!(!backend.unsent);
}

#[test]
fn postgresql_runs_migrations() {
    let mut handle = connection(0, false, 0);
    assert!(handle.get_migrate().is_ok());
}

#[test]
fn the_migrator_of_postgresql_is_the_connection_itself() {
    let mut backend = PgConnection { cached_statements: 2, unsent: false, transaction_depth: 1 };
    {
        let migrator = backend.as_migrate().unwrap();
        assert_eq!(migrator.cached_statements, 2);
        assert_eq!(migrator.transaction_depth, 1);
        migrator.unsent = true;
    }
    assert!(backend.unsent);
    assert_eq!(backend.cached_statements, 2);
}
