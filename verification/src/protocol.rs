//! Messages exchanged between the client and the worker process.
use vstd::prelude::*;

verus! {

/// What a client asks the worker to do.
#[derive(Debug, PartialEq)]
pub enum RequestPayload {
    OpenDb { path: String, mode: String, max_thread_num: usize, checkpoint_on_close: bool },
    Connect { db_id: u64 },
    Execute { conn_id: u64, query: String, access_mode: Option<String> },
    CloseConn { conn_id: u64 },
    CloseDb { db_id: u64 },
}

/// A request tagged with the identifier its response will carry.
#[derive(Debug, PartialEq)]
pub struct Request {
    pub req_id: u64,
    pub payload: RequestPayload,
}

/// What the worker answers.
#[derive(Debug, PartialEq)]
pub enum ResponsePayload {
    OkDb { db_id: u64 },
    OkConn { conn_id: u64 },
    OkResult { result_string: String },
    Error(String),
}

/// A response tagged with the identifier of the request it answers.
#[derive(Debug, PartialEq)]
pub struct Response {
    pub req_id: u64,
    pub payload: ResponsePayload,
}

/// The mathematical content of a [`RequestPayload`]: strings as character sequences.
pub enum RequestView {
    OpenDb { path: Seq<char>, mode: Seq<char>, max_thread_num: usize, checkpoint_on_close: bool },
    Connect { db_id: u64 },
    Execute { conn_id: u64, query: Seq<char>, access_mode: Option<Seq<char>> },
    CloseConn { conn_id: u64 },
    CloseDb { db_id: u64 },
}

/// The mathematical content of a [`ResponsePayload`].
pub enum ResponseView {
    OkDb { db_id: u64 },
    OkConn { conn_id: u64 },
    OkResult { result_string: Seq<char> },
    Error(Seq<char>),
}

/// The characters of an optional string.
pub open spec fn opt_string_view(s: Option<String>) -> Option<Seq<char>> {
    match s {
        Some(t) => Some(t@),
        None => None,
    }
}

impl View for RequestPayload {
    type V = RequestView;

    open spec fn view(&self) -> RequestView {
        match self {
            RequestPayload::OpenDb { path, mode, max_thread_num, checkpoint_on_close } =>
                RequestView::OpenDb {
                path: path@,
                mode: mode@,
                max_thread_num: *max_thread_num,
                checkpoint_on_close: *checkpoint_on_close,
            },
            RequestPayload::Connect { db_id } => RequestView::Connect { db_id: *db_id },
            RequestPayload::Execute { conn_id, query, access_mode } => RequestView::Execute {
                conn_id: *conn_id,
                query: query@,
                access_mode: opt_string_view(*access_mode),
            },
            RequestPayload::CloseConn { conn_id } => RequestView::CloseConn { conn_id: *conn_id },
            RequestPayload::CloseDb { db_id } => RequestView::CloseDb { db_id: *db_id },
        }
    }
}

impl View for ResponsePayload {
    type V = ResponseView;

    open spec fn view(&self) -> ResponseView {
        match self {
            ResponsePayload::OkDb { db_id } => ResponseView::OkDb { db_id: *db_id },
            ResponsePayload::OkConn { conn_id } => ResponseView::OkConn { conn_id: *conn_id },
            ResponsePayload::OkResult { result_string } => ResponseView::OkResult {
                result_string: result_string@,
            },
            ResponsePayload::Error(msg) => ResponseView::Error(msg@),
        }
    }
}

/// The optional views of an optional payload.
pub open spec fn opt_request_view(p: Option<RequestPayload>) -> Option<RequestView> {
    match p {
        Some(q) => Some(q@),
        None => None,
    }
}

} // verus!
