//! Databases opened in the worker, and the options they are opened with.
use crate::connection::Connection;
use crate::error::{result_view, Error, ErrorView};
use crate::protocol::{opt_request_view, RequestPayload, RequestView, ResponsePayload, ResponseView};
use vstd::prelude::*;

verus! {

/// Whether a database may be written.
#[derive(Debug, Clone, Copy, PartialEq, Eq, Structural)]
pub enum Mode {
    ReadOnly,
    ReadWrite,
}

impl Mode {
    /// The name the engine uses for this mode.
    pub open spec fn spec_name(self) -> Seq<char> {
        match self {
            Mode::ReadOnly => "read-only"@,
            Mode::ReadWrite => "read-write"@,
        }
    }

    pub fn as_str(&self) -> (s: &'static str)
        ensures
            s@ == self.spec_name(),
    {
        match self {
            Mode::ReadOnly => "read-only",
            Mode::ReadWrite => "read-write",
        }
    }
}

/// Distinct modes have distinct names.
pub proof fn lemma_mode_name_injective(a: Mode, b: Mode)
    requires
        a.spec_name() == b.spec_name(),
    ensures
        a == b,
{
    reveal_strlit("read-only");
    reveal_strlit("read-write");
    assert("read-only"@[5] == 'o' && "read-write"@[5] == 'w');
    assert(a.spec_name()[5] == b.spec_name()[5]);
}

/// How a database is opened.
#[derive(Debug)]
pub struct DatabaseOptions {
    pub db_path: String,
    pub mode: Mode,
    pub max_thread_num: usize,
    pub checkpoint_on_close: bool,
}

impl Default for DatabaseOptions {
    /// An in-memory database, writable, with the engine's default thread count,
    /// checkpointed on close.
    fn default() -> (o: Self)
        ensures
            o.db_path@ == Seq::<char>::empty(),
            o.mode == Mode::ReadWrite,
            o.max_thread_num == 0,
            o.checkpoint_on_close,
    {
        DatabaseOptions {
            db_path: String::new(),
            mode: Mode::ReadWrite,
            max_thread_num: 0,
            checkpoint_on_close: true,
        }
    }
}

/// The request that opens a database with the given options.
pub open spec fn open_request(o: DatabaseOptions) -> RequestView {
    RequestView::OpenDb {
        path: o.db_path@,
        mode: o.mode.spec_name(),
        max_thread_num: o.max_thread_num,
        checkpoint_on_close: o.checkpoint_on_close,
    }
}

/// What the worker's reply to an open request means: the database's identifier, or the error.
pub open spec fn open_outcome(reply: ResponseView) -> Result<u64, ErrorView> {
    match reply {
        ResponseView::OkDb { db_id } => Ok(db_id),
        ResponseView::Error(msg) => Err(ErrorView::InitializationFailed(msg)),
        _ => Err(ErrorView::InitializationFailed("Unexpected response"@)),
    }
}

/// What the worker's reply to a connect request means: the connection's identifier, or the error.
pub open spec fn connect_outcome(reply: ResponseView) -> Result<u64, ErrorView> {
    match reply {
        ResponseView::OkConn { conn_id } => Ok(conn_id),
        ResponseView::Error(msg) => Err(ErrorView::InitializationFailed(msg)),
        _ => Err(ErrorView::InitializationFailed("Unexpected response"@)),
    }
}

/// The request that closing the database `db_id` sends to the worker, if any.
pub open spec fn close_request(db_id: u64) -> Option<RequestView> {
    if db_id != 0 {
        Some(RequestView::CloseDb { db_id })
    } else {
        None
    }
}

/// A database is released in the worker once: closing it again sends nothing.
pub proof fn lemma_close_releases_once(db_id: u64)
    requires
        db_id != 0,
    ensures
        close_request(db_id) == Some(RequestView::CloseDb { db_id }),
        close_request(0) is None,
{
}

/// A database opened in the worker.
///
/// The identifier 0 marks a closed database: the worker never hands it out.
pub struct Database {
    db_id: u64,
    options: DatabaseOptions,
}

impl View for Database {
    type V = u64;

    /// The worker's identifier of the database; 0 once it is closed.
    closed spec fn view(&self) -> u64 {
        self.db_id
    }
}

impl Database {
    /// The options the database was opened with.
    pub closed spec fn spec_options(&self) -> DatabaseOptions {
        self.options
    }

    /// The options that open the database at `db_path` in `mode`, the rest by default.
    ///
    /// An empty path or ":memory:" opens the database in memory.
    pub fn open(db_path: String, mode: Mode) -> (o: DatabaseOptions)
        ensures
            o.db_path == db_path,
            o.mode == mode,
            o.max_thread_num == 0,
            o.checkpoint_on_close,
    {
        DatabaseOptions { db_path, mode, ..Default::default() }
    }

    /// The request that opens a database with `options`.
    pub fn open_request(options: &DatabaseOptions) -> (r: RequestPayload)
        ensures
            r@ == open_request(*options),
    {
        RequestPayload::OpenDb {
            path: options.db_path.clone(),
            mode: String::from_str(options.mode.as_str()),
            max_thread_num: options.max_thread_num,
            checkpoint_on_close: options.checkpoint_on_close,
        }
    }

    /// The database that the worker's reply to the open request for `options` describes.
    pub fn with_options(options: DatabaseOptions, reply: ResponsePayload) -> (r: Result<
        Database,
        Error,
    >)
        ensures
            match (r, open_outcome(reply@)) {
                (Ok(db), Ok(id)) => db@ == id && db.spec_options() == options,
                (Err(e), Err(ev)) => e@ == ev,
                _ => false,
            },
    {
        match reply {
            ResponsePayload::OkDb { db_id } => Ok(Database { db_id, options }),
            ResponsePayload::Error(msg) => Err(Error::InitializationFailed(msg)),
            _ => Err(Error::InitializationFailed(String::from_str("Unexpected response"))),
        }
    }

    /// The mode of the database.
    pub fn mode(&self) -> (m: Mode)
        ensures
            m == self.spec_options().mode,
    {
        self.options.mode
    }

    /// The request that opens a new connection to the database.
    pub fn connect_request(&self) -> (r: RequestPayload)
        ensures
            r@ == (RequestView::Connect { db_id: self@ }),
    {
        RequestPayload::Connect { db_id: self.db_id }
    }

    /// The connection that the worker's reply to a connect request describes.
    pub fn connect(&self, reply: ResponsePayload) -> (r: Result<Connection, Error>)
        ensures
            result_view(r) == connect_outcome(reply@),
    {
        match reply {
            ResponsePayload::OkConn { conn_id } => Ok(Connection::new(conn_id)),
            ResponsePayload::Error(msg) => Err(Error::InitializationFailed(msg)),
            _ => Err(Error::InitializationFailed(String::from_str("Unexpected response"))),
        }
    }

    /// Closes the database.
    ///
    /// Returns the request that releases the database in the worker, the first
    /// time only; afterwards the database is closed and closing again does nothing.
    pub fn close(&mut self) -> (r: Option<RequestPayload>)
        ensures
            final(self)@ == 0,
            final(self).spec_options() == old(self).spec_options(),
            opt_request_view(r) == close_request(old(self)@),
    {
        if self.db_id != 0 {
            let db_id = self.db_id;
            self.db_id = 0;
            Some(RequestPayload::CloseDb { db_id })
        } else {
            None
        }
    }
}

} // verus!
