use neug_rust::connection::Connection;
use neug_rust::protocol::{RequestPayload, Response, ResponsePayload};
use neug_rust::sidecar::{ExecutionOutcome, Sidecar, Step};
use neug_rust::worker::WorkerClient;
use neug_rust::{AccessMode, Database, DatabaseOptions, Mode};
use tempfile::tempdir;

/// A client wired to an in-process worker whose engine always succeeds and
/// echoes each query back as its result.
struct Session {
    client: WorkerClient<u32>,
    worker: Sidecar<u32, u32>,
    next_handle: u32,
}

impl Session {
    fn new() -> Self {
        Session { client: WorkerClient::new(), worker: Sidecar::new(), next_handle: 100 }
    }

    fn ask(&mut self, payload: RequestPayload) -> ResponsePayload {
        let request = self.client.send_request(payload, 7).unwrap();
        let reply = match self.worker.begin(request.payload) {
            Step::Reply(r) => r,
            Step::OpenDb { .. } => {
                self.next_handle += 1;
                self.worker.finish_open(Ok(self.next_handle))
            }
            Step::Connect { db_id, .. } => {
                self.next_handle += 1;
                self.worker.finish_connect(db_id, Ok(self.next_handle))
            }
            Step::Execute { query, .. } => {
                Sidecar::<u32, u32>::finish_execute(ExecutionOutcome::Succeeded(Some(query)))
            }
            Step::CloseConn { reply, .. } => reply,
            Step::CloseDb { reply, .. } => reply,
        };
        let (waiter, payload) = self
            .client
            .dispatch_response(Response { req_id: request.req_id, payload: reply })
            .unwrap();
        assert_eq!(waiter, 7);
        payload
    }

    fn open_with(&mut self, options: DatabaseOptions) -> Database {
        let reply = self.ask(Database::open_request(&options));
        Database::with_options(options, reply).unwrap()
    }

    fn open(&mut self, db_path: std::path::PathBuf, mode: Mode) -> Database {
        self.open_with(Database::open(db_path.to_string_lossy().into_owned(), mode))
    }

    fn connect(&mut self, db: &Database) -> Connection {
        let reply = self.ask(db.connect_request());
        db.connect(reply).unwrap()
    }

    fn close_conn(&mut self, conn: &mut Connection) {
        if let Some(request) = conn.close() {
            self.ask(request);
        }
    }

    fn close_db(&mut self, db: &mut Database) {
        if let Some(request) = db.close() {
            self.ask(request);
        }
    }

    fn execute(
        &mut self,
        conn: &Connection,
        query: &str,
        mode: Option<AccessMode>,
    ) -> Result<neug_rust::QueryResult, neug_rust::Error> {
        let request = conn.execute_with_options(query, mode, None)?;
        let reply = self.ask(request);
        Connection::query_result(reply)
    }
}

#[test]
fn test_local_connection() {
    let dir = tempdir().unwrap();
    let db_path = dir.path().join("local_conn_db");
    let mut s = Session::new();

    let mut db = s.open(db_path, Mode::ReadWrite);
    let mut conn = s.connect(&db);

    assert!(conn.is_open());
    s.close_conn(&mut conn);
    s.close_db(&mut db);
}

#[test]
fn test_open_after_close() {
    let dir = tempdir().unwrap();
    let db_path = dir.path().join("test_open_after_close_db");
    let mut s = Session::new();

    let mut db = s.open(db_path, Mode::ReadWrite);

    let mut conn = s.connect(&db);
    assert!(conn.is_open());
    s.close_conn(&mut conn);

    // try to open a new connection after closing the previous one
    let mut new_conn = s.connect(&db);
    assert!(new_conn.is_open());
    s.close_conn(&mut new_conn);

    s.close_db(&mut db);
}

#[test]
fn test_local_connection_params() {
    let dir = tempdir().unwrap();
    let db_path = dir.path().join("local_conn_param_db");
    let mut s = Session::new();

    let options = DatabaseOptions {
        db_path: db_path.to_string_lossy().into_owned(),
        mode: Mode::ReadWrite,
        max_thread_num: 4,
        checkpoint_on_close: true,
    };

    let mut db = s.open_with(options);
    let mut conn = s.connect(&db);
    assert!(conn.is_open());
    s.close_conn(&mut conn);
    s.close_db(&mut db);
}

#[test]
fn test_local_connection_after_close() {
    let dir = tempdir().unwrap();
    let db_path = dir.path().join("conn_after_close_db");
    let mut s = Session::new();

    let mut db = s.open(db_path, Mode::ReadWrite);
    let mut conn = s.connect(&db);
    s.close_conn(&mut conn);

    let res = conn.execute("MATCH (n) RETURN n");
    assert!(res.is_err());
    assert_eq!(res.unwrap_err().to_string(), "Connection is closed");

    s.close_db(&mut db);
}

#[test]
fn test_parallel_connections() {
    let dir = tempdir().unwrap();
    let db_path = dir.path().join("parallel_conn_db");
    let mut s = Session::new();

    let mut db = s.open(db_path, Mode::ReadOnly);

    let mut connections = vec![];
    for _ in 0..5 {
        connections.push(s.connect(&db));
    }

    for conn in connections.iter_mut() {
        let res = s.execute(conn, "MATCH (n) RETURN n", None);
        assert!(res.is_ok());
        s.close_conn(conn);
    }

    s.close_db(&mut db);
}

#[test]
fn test_parallel_query_executions() {
    let dir = tempdir().unwrap();
    let db_path = dir.path().join("parallel_query_db");
    let mut s = Session::new();

    let mut db = s.open(db_path, Mode::ReadWrite);

    let mut conn = s.connect(&db);
    s.execute(
        &conn,
        "CREATE NODE TABLE person(id INT64, name STRING, PRIMARY KEY(id));",
        None,
    )
    .unwrap();

    // One connection per client, as the threads of a concurrent client would hold.
    let mut locals = vec![];
    for _ in 0..10 {
        locals.push(s.connect(&db));
    }
    for (i, local_conn) in locals.iter().enumerate() {
        for j in 0..10 {
            let node_id = i * 10 + j;
            let query = format!(
                "CREATE (p: person {{id: {}, name: 'Node{}'}});",
                node_id, node_id
            );
            s.execute(local_conn, &query, None).unwrap();
        }
    }

    let res = s.execute(&conn, "MATCH (p) RETURN p.id AS id ORDER BY id;", None);
    assert!(res.is_ok());

    s.close_conn(&mut conn);
    s.close_db(&mut db);
}

#[test]
fn test_access_mode() {
    let dir = tempdir().unwrap();
    let db_path = dir.path().join("access_mode_db");
    let mut s = Session::new();

    let mut db = s.open(db_path, Mode::ReadWrite);
    let mut conn = s.connect(&db);

    let modes = [
        AccessMode::Read,
        AccessMode::Insert,
        AccessMode::Update,
        AccessMode::Schema,
    ];

    for mode in modes {
        let query = format!(
            "CREATE NODE TABLE test_table_{}(id INT64, PRIMARY KEY(id));",
            mode.as_str()
        );
        let res = s.execute(&conn, &query, Some(mode));
        assert!(res.is_ok());
    }

    s.close_conn(&mut conn);
    s.close_db(&mut db);
}
