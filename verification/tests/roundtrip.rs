use neug_rust::connection::Connection;
use neug_rust::protocol::{RequestPayload, ResponsePayload};
use neug_rust::sidecar::{ExecutionOutcome, Sidecar, Step};
use neug_rust::{AccessMode, Database, DatabaseOptions, Error, Mode};

type Worker = Sidecar<u8, u8>;

fn open(w: &mut Worker, options: DatabaseOptions) -> Database {
    match w.begin(Database::open_request(&options)) {
        Step::OpenDb { path, mode, max_thread_num, checkpoint_on_close } => {
            assert_eq!(path, options.db_path);
            assert_eq!(mode, options.mode.as_str());
            assert_eq!(max_thread_num, options.max_thread_num);
            assert_eq!(checkpoint_on_close, options.checkpoint_on_close);
        }
        _ => panic!("expected an engine call"),
    }
    let reply = w.finish_open(Ok(1));
    Database::with_options(options, reply).unwrap()
}

#[test]
fn a_database_opened_through_the_worker_connects() {
    let mut w = Worker::new();
    let db = open(
        &mut w,
        DatabaseOptions {
            db_path: String::from("/srv/graph"),
            mode: Mode::ReadWrite,
            max_thread_num: 8,
            checkpoint_on_close: false,
        },
    );
    let reply = match w.begin(db.connect_request()) {
        Step::Connect { db_id, db: handle } => {
            assert_eq!(handle, 1);
            w.finish_connect(db_id, Ok(2))
        }
        _ => panic!("expected an engine call"),
    };
    let conn = db.connect(reply).unwrap();
    assert!(conn.is_open());
}

#[test]
fn a_closed_database_cannot_be_connected_to() {
    let mut w = Worker::new();
    let mut db = open(&mut w, DatabaseOptions::default());
    let close = db.close().unwrap();
    assert!(matches!(w.begin(close), Step::CloseDb { .. }));
    let reply = match w.begin(db.connect_request()) {
        Step::Reply(r) => r,
        _ => panic!("expected an immediate reply"),
    };
    assert_eq!(
        db.connect(reply).err(),
        Some(Error::InitializationFailed(String::from("Invalid db_id")))
    );
}

#[test]
fn zero_names_nothing_in_the_worker() {
    let mut w = Worker::new();
    assert!(matches!(
        w.begin(RequestPayload::CloseConn { conn_id: 0 }),
        Step::Reply(ResponsePayload::OkConn { conn_id: 0 })
    ));
    assert!(matches!(
        w.begin(RequestPayload::CloseDb { db_id: 0 }),
        Step::Reply(ResponsePayload::OkDb { db_id: 0 })
    ));
}

#[test]
fn query_results_and_errors_reach_the_client() {
    let mut w = Worker::new();
    let db = open(&mut w, DatabaseOptions::default());
    let conn_reply = match w.begin(db.connect_request()) {
        Step::Connect { db_id, .. } => w.finish_connect(db_id, Ok(3)),
        _ => panic!("expected an engine call"),
    };
    let conn = db.connect(conn_reply).unwrap();

    let request = conn.execute_with_options("RETURN 1", Some(AccessMode::Read), None).unwrap();
    match w.begin(request) {
        Step::Execute { conn: handle, query, access_mode } => {
            assert_eq!(handle, 3);
            assert_eq!(query, "RETURN 1");
            assert_eq!(access_mode, Some(String::from("r")));
        }
        _ => panic!("expected an engine call"),
    }
    let ok = Connection::query_result(Worker::finish_execute(ExecutionOutcome::Succeeded(Some(
        String::from("1"),
    ))))
    .unwrap();
    assert_eq!(ok.to_string(), "1");

    let failed = Connection::query_result(Worker::finish_execute(ExecutionOutcome::Failed(Some(
        String::from("Binder exception"),
    ))));
    assert_eq!(failed.err(), Some(Error::ExecutionFailed(String::from("Binder exception"))));
}

#[test]
fn a_query_on_an_unknown_connection_is_an_execution_error() {
    let mut w = Worker::new();
    let reply = match w.begin(RequestPayload::Execute {
        conn_id: 12,
        query: String::from("RETURN 1"),
        access_mode: None,
    }) {
        Step::Reply(r) => r,
        _ => panic!("expected an immediate reply"),
    };
    assert_eq!(
        Connection::query_result(reply).err(),
        Some(Error::ExecutionFailed(String::from("Invalid conn_id")))
    );
}
