//! Connections to a database and the queries run on them.
use crate::error::{error_text, result_view, Error, ErrorView};
use crate::protocol::{opt_request_view, RequestPayload, RequestView, ResponsePayload, ResponseView};
use std::collections::HashMap;
use vstd::prelude::*;

verus! {

/// The access mode for a query.
#[derive(Debug, Clone, Copy, PartialEq, Eq, Structural)]
pub enum AccessMode {
    Read,
    Insert,
    Update,
    Schema,
}

impl AccessMode {
    /// The one-letter code the engine uses for this access mode.
    pub open spec fn spec_code(self) -> Seq<char> {
        match self {
            AccessMode::Read => "r"@,
            AccessMode::Insert => "i"@,
            AccessMode::Update => "u"@,
            AccessMode::Schema => "s"@,
        }
    }

    pub fn as_str(&self) -> (s: &'static str)
        ensures
            s@ == self.spec_code(),
    {
        match self {
            AccessMode::Read => "r",
            AccessMode::Insert => "i",
            AccessMode::Update => "u",
            AccessMode::Schema => "s",
        }
    }
}

/// Distinct access modes have distinct codes.
pub proof fn lemma_access_mode_code_injective(a: AccessMode, b: AccessMode)
    requires
        a.spec_code() == b.spec_code(),
    ensures
        a == b,
{
    reveal_strlit("r");
    reveal_strlit("i");
    reveal_strlit("u");
    reveal_strlit("s");
    assert("r"@[0] == 'r' && "i"@[0] == 'i' && "u"@[0] == 'u' && "s"@[0] == 's');
    assert(a.spec_code()[0] == b.spec_code()[0]);
}

/// The result of a query, as the engine renders it.
#[derive(Debug)]
pub struct QueryResult {
    result_string: String,
}

impl View for QueryResult {
    type V = Seq<char>;

    closed spec fn view(&self) -> Seq<char> {
        self.result_string@
    }
}

impl QueryResult {
    /// The rendered result.
    pub fn to_string(&self) -> (s: String)
        ensures
            s@ == self@,
    {
        self.result_string.clone()
    }
}

/// A connection to a database in the worker.
///
/// The identifier 0 marks a closed connection: the worker never hands it out.
#[derive(Debug)]
pub struct Connection {
    conn_id: u64,
}

impl View for Connection {
    type V = u64;

    /// The worker's identifier of the connection; 0 once it is closed.
    closed spec fn view(&self) -> u64 {
        self.conn_id
    }
}

/// The code of an optional access mode, as the request carries it.
pub open spec fn access_mode_code(m: Option<AccessMode>) -> Option<Seq<char>> {
    match m {
        Some(a) => Some(a.spec_code()),
        None => None,
    }
}

/// What running `query` on the connection `conn_id` asks of the worker.
pub open spec fn execute_outcome(conn_id: u64, query: Seq<char>, access_mode: Option<AccessMode>)
    -> Result<RequestView, ErrorView> {
    if conn_id == 0 {
        Err(ErrorView::ConnectionClosed)
    } else {
        Ok(RequestView::Execute { conn_id, query, access_mode: access_mode_code(access_mode) })
    }
}

/// What the worker's reply to an execution request means for the caller.
pub open spec fn query_outcome(reply: ResponseView) -> Result<Seq<char>, ErrorView> {
    match reply {
        ResponseView::OkResult { result_string } => Ok(result_string),
        ResponseView::Error(msg) => Err(ErrorView::ExecutionFailed(msg)),
        _ => Err(ErrorView::ExecutionFailed("Unexpected response"@)),
    }
}

/// The request that closing the connection `conn_id` sends to the worker, if any.
pub open spec fn close_request(conn_id: u64) -> Option<RequestView> {
    if conn_id != 0 {
        Some(RequestView::CloseConn { conn_id })
    } else {
        None
    }
}

/// A connection is released in the worker once: closing it again sends nothing.
pub proof fn lemma_close_releases_once(conn_id: u64)
    requires
        conn_id != 0,
    ensures
        close_request(conn_id) == Some(RequestView::CloseConn { conn_id }),
        close_request(0) is None,
{
}

/// A closed connection runs no query: it reports that it is closed, in those words.
pub proof fn lemma_closed_connection_refuses_queries(query: Seq<char>, mode: Option<AccessMode>)
    ensures
        execute_outcome(0, query, mode) == Err::<RequestView, ErrorView>(ErrorView::ConnectionClosed),
        error_text(ErrorView::ConnectionClosed) == "Connection is closed"@,
{
}

impl Connection {
    /// A connection to the worker's connection `conn_id`.
    pub(crate) fn new(conn_id: u64) -> (c: Connection)
        ensures
            c@ == conn_id,
    {
        Connection { conn_id }
    }

    /// Checks if the connection is currently open.
    pub fn is_open(&self) -> (b: bool)
        ensures
            b == (self@ != 0),
    {
        self.conn_id != 0
    }

    /// The request that executes a Cypher query on the database.
    pub fn execute(&self, query: &str) -> (r: Result<RequestPayload, Error>)
        ensures
            result_view(r) == execute_outcome(self@, query@, None),
    {
        self.execute_with_options(query, None, None)
    }

    /// The request that executes a Cypher query with a specific access mode.
    ///
    /// Parameters are accepted and not yet passed on to the engine.
    pub fn execute_with_options(
        &self,
        query: &str,
        access_mode: Option<AccessMode>,
        _parameters: Option<&HashMap<String, String>>,
    ) -> (r: Result<RequestPayload, Error>)
        ensures
            result_view(r) == execute_outcome(self@, query@, access_mode),
    {
        if !self.is_open() {
            return Err(Error::ConnectionClosed);
        }
        let mode = match access_mode {
            Some(m) => Some(String::from_str(m.as_str())),
            None => None,
        };
        Ok(RequestPayload::Execute { conn_id: self.conn_id, query: String::from_str(query), access_mode: mode })
    }

    /// Reads the worker's reply to an execution request.
    pub fn query_result(reply: ResponsePayload) -> (r: Result<QueryResult, Error>)
        ensures
            result_view(r) == query_outcome(reply@),
    {
        match reply {
            ResponsePayload::OkResult { result_string } => Ok(QueryResult { result_string }),
            ResponsePayload::Error(msg) => Err(Error::ExecutionFailed(msg)),
            _ => Err(Error::ExecutionFailed(String::from_str("Unexpected response"))),
        }
    }

    /// Closes the connection.
    ///
    /// Returns the request that releases the connection in the worker, the first
    /// time only; afterwards the connection is closed and closing again does nothing.
    pub fn close(&mut self) -> (r: Option<RequestPayload>)
        ensures
            final(self)@ == 0,
            opt_request_view(r) == close_request(old(self)@),
    {
        if self.conn_id != 0 {
            let conn_id = self.conn_id;
            self.conn_id = 0;
            Some(RequestPayload::CloseConn { conn_id })
        } else {
            None
        }
    }
}

} // verus!
