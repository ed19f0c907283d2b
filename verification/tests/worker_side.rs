use neug_rust::protocol::{RequestPayload, ResponsePayload};
use neug_rust::sidecar::{ExecutionOutcome, Sidecar, Step};

type Worker = Sidecar<&'static str, &'static str>;

fn reply(step: Step<&'static str, &'static str>) -> ResponsePayload {
    match step {
        Step::Reply(r) => r,
        _ => panic!("expected an immediate reply"),
    }
}

fn open(w: &mut Worker, handle: &'static str) -> u64 {
    match w.begin(RequestPayload::OpenDb {
        path: String::from("/g"),
        mode: String::from("read-write"),
        max_thread_num: 2,
        checkpoint_on_close: true,
    }) {
        Step::OpenDb { path, mode, max_thread_num, checkpoint_on_close } => {
            assert_eq!(path, "/g");
            assert_eq!(mode, "read-write");
            assert_eq!(max_thread_num, 2);
            assert!(checkpoint_on_close);
        }
        _ => panic!("expected an engine call"),
    }
    match w.finish_open(Ok(handle)) {
        ResponsePayload::OkDb { db_id } => db_id,
        other => panic!("unexpected {:?}", other),
    }
}

fn connect(w: &mut Worker, db_id: u64, handle: &'static str) -> u64 {
    let db = match w.begin(RequestPayload::Connect { db_id }) {
        Step::Connect { db_id: id, db } => {
            assert_eq!(id, db_id);
            db
        }
        _ => panic!("expected an engine call"),
    };
    assert!(!db.is_empty());
    match w.finish_connect(db_id, Ok(handle)) {
        ResponsePayload::OkConn { conn_id } => conn_id,
        other => panic!("unexpected {:?}", other),
    }
}

#[test]
fn identifiers_count_from_one_and_are_fresh() {
    let mut w = Worker::new();
    assert_eq!(open(&mut w, "db-a"), 1);
    assert_eq!(open(&mut w, "db-b"), 2);
    assert_eq!(connect(&mut w, 1, "c-a"), 1);
    assert_eq!(connect(&mut w, 2, "c-b"), 2);
    assert_eq!(connect(&mut w, 1, "c-c"), 3);
}

#[test]
fn connect_goes_to_the_right_database() {
    let mut w = Worker::new();
    open(&mut w, "db-a");
    open(&mut w, "db-b");
    match w.begin(RequestPayload::Connect { db_id: 2 }) {
        Step::Connect { db_id, db } => {
            assert_eq!(db_id, 2);
            assert_eq!(db, "db-b");
        }
        _ => panic!("expected an engine call"),
    }
}

#[test]
fn engine_failures_become_error_replies() {
    let mut w = Worker::new();
    assert_eq!(w.finish_open(Err(None)), ResponsePayload::Error(String::from("Unknown error")));
    assert_eq!(
        w.finish_open(Err(Some(String::from("locked")))),
        ResponsePayload::Error(String::from("locked"))
    );
    // Failed opens use up no identifier.
    assert_eq!(open(&mut w, "db"), 1);
    assert_eq!(
        w.finish_connect(1, Err(None)),
        ResponsePayload::Error(String::from("Failed to create connection"))
    );
    assert_eq!(
        w.finish_connect(1, Err(Some(String::from("busy")))),
        ResponsePayload::Error(String::from("busy"))
    );
    assert_eq!(connect(&mut w, 1, "c"), 1);
}

#[test]
fn unknown_identifiers_are_refused() {
    let mut w = Worker::new();
    assert_eq!(
        reply(w.begin(RequestPayload::Connect { db_id: 0 })),
        ResponsePayload::Error(String::from("Invalid db_id"))
    );
    assert_eq!(
        reply(w.begin(RequestPayload::Execute {
            conn_id: 4,
            query: String::from("RETURN 1"),
            access_mode: None
        })),
        ResponsePayload::Error(String::from("Invalid conn_id"))
    );
}

#[test]
fn queries_reach_the_engine_on_their_connection() {
    let mut w = Worker::new();
    let db = open(&mut w, "db");
    let c1 = connect(&mut w, db, "c-1");
    let c2 = connect(&mut w, db, "c-2");
    match w.begin(RequestPayload::Execute {
        conn_id: c2,
        query: String::from("MATCH (n) RETURN n"),
        access_mode: Some(String::from("r")),
    }) {
        Step::Execute { conn, query, access_mode } => {
            assert_eq!(conn, "c-2");
            assert_eq!(query, "MATCH (n) RETURN n");
            assert_eq!(access_mode, Some(String::from("r")));
        }
        _ => panic!("expected an engine call"),
    }
    assert_ne!(c1, c2);
}

#[test]
fn a_query_with_nul_is_refused() {
    let mut w = Worker::new();
    let db = open(&mut w, "db");
    let c = connect(&mut w, db, "c");
    assert_eq!(
        reply(w.begin(RequestPayload::Execute {
            conn_id: c,
            query: String::from("RETURN 1\0"),
            access_mode: None
        })),
        ResponsePayload::Error(String::from("Query contains null byte"))
    );
}

#[test]
fn an_access_mode_with_nul_is_refused() {
    let mut w = Worker::new();
    let db = open(&mut w, "db");
    let c = connect(&mut w, db, "c");
    assert_eq!(
        reply(w.begin(RequestPayload::Execute {
            conn_id: c,
            query: String::from("RETURN 1"),
            access_mode: Some(String::from("r\0"))
        })),
        ResponsePayload::Error(String::from("Access mode contains null byte"))
    );
    match w.begin(RequestPayload::Execute {
        conn_id: c,
        query: String::from("RETURN 1"),
        access_mode: None,
    }) {
        Step::Execute { access_mode, .. } => assert_eq!(access_mode, None),
        _ => panic!("expected an engine call"),
    }
}

#[test]
fn execution_outcomes() {
    assert_eq!(
        Worker::finish_execute(ExecutionOutcome::NotInvoked),
        ResponsePayload::Error(String::from("Failed to invoke execute on engine"))
    );
    assert_eq!(
        Worker::finish_execute(ExecutionOutcome::Failed(None)),
        ResponsePayload::Error(String::from("Unknown execution error"))
    );
    assert_eq!(
        Worker::finish_execute(ExecutionOutcome::Failed(Some(String::from("bad")))),
        ResponsePayload::Error(String::from("bad"))
    );
    assert_eq!(
        Worker::finish_execute(ExecutionOutcome::Succeeded(None)),
        ResponsePayload::OkResult { result_string: String::new() }
    );
    assert_eq!(
        Worker::finish_execute(ExecutionOutcome::Succeeded(Some(String::from("n\n1")))),
        ResponsePayload::OkResult { result_string: String::from("n\n1") }
    );
}

#[test]
fn closing_a_connection_is_idempotent() {
    let mut w = Worker::new();
    let db = open(&mut w, "db");
    let c = connect(&mut w, db, "c");
    match w.begin(RequestPayload::CloseConn { conn_id: c }) {
        Step::CloseConn { db, conn, reply } => {
            assert_eq!(db, "db");
            assert_eq!(conn, "c");
            assert_eq!(reply, ResponsePayload::OkConn { conn_id: c });
        }
        _ => panic!("expected an engine call"),
    }
    assert_eq!(reply(w.begin(RequestPayload::CloseConn { conn_id: c })), ResponsePayload::OkConn { conn_id: c });
    assert_eq!(reply(w.begin(RequestPayload::CloseConn { conn_id: 77 })), ResponsePayload::OkConn { conn_id: 77 });
    assert_eq!(
        reply(w.begin(RequestPayload::Execute { conn_id: c, query: String::from("RETURN 1"), access_mode: None })),
        ResponsePayload::Error(String::from("Invalid conn_id"))
    );
}

#[test]
fn closing_a_database_is_idempotent() {
    let mut w = Worker::new();
    let db = open(&mut w, "db");
    match w.begin(RequestPayload::CloseDb { db_id: db }) {
        Step::CloseDb { db: handle, reply } => {
            assert_eq!(handle, "db");
            assert_eq!(reply, ResponsePayload::OkDb { db_id: db });
        }
        _ => panic!("expected an engine call"),
    }
    assert_eq!(reply(w.begin(RequestPayload::CloseDb { db_id: db })), ResponsePayload::OkDb { db_id: db });
    assert_eq!(
        reply(w.begin(RequestPayload::Connect { db_id: db })),
        ResponsePayload::Error(String::from("Invalid db_id"))
    );
}

#[test]
fn a_connection_outliving_its_database_is_released_without_the_engine() {
    let mut w = Worker::new();
    let db = open(&mut w, "db");
    let c = connect(&mut w, db, "c");
    let _ = w.begin(RequestPayload::CloseDb { db_id: db });
    assert_eq!(reply(w.begin(RequestPayload::CloseConn { conn_id: c })), ResponsePayload::OkConn { conn_id: c });
}
