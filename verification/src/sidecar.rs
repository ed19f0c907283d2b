//! The worker process's side: the databases and connections it holds for its
//! clients, and what it answers to each request.
//!
//! The worker hands out identifiers of its own for the engine's handles,
//! counting from 1, so that 0 never names a live database or connection. A
//! request that needs the engine becomes a [`Step`] that names the engine call
//! to make; the engine's outcome is then handed back to finish the request.
use crate::protocol::{opt_string_view, RequestPayload, RequestView, ResponsePayload, ResponseView};
use std::collections::HashMap;
use vstd::prelude::*;
use vstd::std_specs::iter::IteratorSpec;

verus! {

broadcast use vstd::std_specs::hash::group_hash_axioms;

/// The worker's registry. `D` and `C` are the engine's database and connection handles.
pub struct Sidecar<D, C> {
    dbs: HashMap<u64, D>,
    conns: HashMap<u64, C>,
    conn_to_db: HashMap<u64, u64>,
    next_db_id: u64,
    next_conn_id: u64,
}

/// The mathematical content of a [`Sidecar`].
pub struct SidecarView<D, C> {
    pub dbs: Map<u64, D>,
    pub conns: Map<u64, C>,
    pub conn_to_db: Map<u64, u64>,
    pub next_db_id: u64,
    pub next_conn_id: u64,
}

impl<D, C> View for Sidecar<D, C> {
    type V = SidecarView<D, C>;

    closed spec fn view(&self) -> SidecarView<D, C> {
        SidecarView {
            dbs: self.dbs@,
            conns: self.conns@,
            conn_to_db: self.conn_to_db@,
            next_db_id: self.next_db_id,
            next_conn_id: self.next_conn_id,
        }
    }
}

impl<D, C> SidecarView<D, C> {
    /// Identifiers are handed out from 1 upwards, every live one below the next to
    /// come, and every live connection remembers the database it was made on.
    pub open spec fn wf(self) -> bool {
        &&& 1 <= self.next_db_id
        &&& 1 <= self.next_conn_id
        &&& forall|id: u64| #[trigger]
            self.dbs.contains_key(id) ==> 1 <= id < self.next_db_id
        &&& forall|id: u64| #[trigger]
            self.conns.contains_key(id) ==> 1 <= id < self.next_conn_id
        &&& self.conn_to_db.dom() == self.conns.dom()
    }
}

/// What the worker does next about a request.
pub enum Step<D, C> {
    /// Answer at once.
    Reply(ResponsePayload),
    /// Open a database in the engine, then finish with [`Sidecar::finish_open`].
    OpenDb { path: String, mode: String, max_thread_num: usize, checkpoint_on_close: bool },
    /// Connect to the database `db_id` in the engine, then finish with [`Sidecar::finish_connect`].
    Connect { db_id: u64, db: D },
    /// Run the query in the engine with the requested access mode, if any, then
    /// finish with [`Sidecar::finish_execute`].
    Execute { conn: C, query: String, access_mode: Option<String> },
    /// Close the connection in the engine, then answer `reply`.
    CloseConn { db: D, conn: C, reply: ResponsePayload },
    /// Close the database in the engine, then answer `reply`.
    CloseDb { db: D, reply: ResponsePayload },
}

/// The mathematical content of a [`Step`].
pub enum StepView<D, C> {
    Reply(ResponseView),
    OpenDb { path: Seq<char>, mode: Seq<char>, max_thread_num: usize, checkpoint_on_close: bool },
    Connect { db_id: u64, db: D },
    Execute { conn: C, query: Seq<char>, access_mode: Option<Seq<char>> },
    CloseConn { db: D, conn: C, reply: ResponseView },
    CloseDb { db: D, reply: ResponseView },
}

impl<D, C> View for Step<D, C> {
    type V = StepView<D, C>;

    open spec fn view(&self) -> StepView<D, C> {
        match self {
            Step::Reply(r) => StepView::Reply(r@),
            Step::OpenDb { path, mode, max_thread_num, checkpoint_on_close } => StepView::OpenDb {
                path: path@,
                mode: mode@,
                max_thread_num: *max_thread_num,
                checkpoint_on_close: *checkpoint_on_close,
            },
            Step::Connect { db_id, db } => StepView::Connect { db_id: *db_id, db: *db },
            Step::Execute { conn, query, access_mode } => StepView::Execute {
                conn: *conn,
                query: query@,
                access_mode: opt_string_view(*access_mode),
            },
            Step::CloseConn { db, conn, reply } => StepView::CloseConn {
                db: *db,
                conn: *conn,
                reply: reply@,
            },
            Step::CloseDb { db, reply } => StepView::CloseDb { db: *db, reply: reply@ },
        }
    }
}

/// How the engine's attempt to run a query ended.
pub enum ExecutionOutcome {
    /// The engine could not be invoked at all.
    NotInvoked,
    /// The query failed, with the engine's message if it gave one.
    Failed(Option<String>),
    /// The query succeeded, with the rendered result if the engine gave one.
    Succeeded(Option<String>),
}

/// The mathematical content of an [`ExecutionOutcome`].
pub enum ExecutionOutcomeView {
    NotInvoked,
    Failed(Option<Seq<char>>),
    Succeeded(Option<Seq<char>>),
}

impl View for ExecutionOutcome {
    type V = ExecutionOutcomeView;

    open spec fn view(&self) -> ExecutionOutcomeView {
        match self {
            ExecutionOutcome::NotInvoked => ExecutionOutcomeView::NotInvoked,
            ExecutionOutcome::Failed(m) => ExecutionOutcomeView::Failed(opt_string_view(*m)),
            ExecutionOutcome::Succeeded(s) => ExecutionOutcomeView::Succeeded(opt_string_view(*s)),
        }
    }
}

/// The view of an engine outcome that yields a handle or, maybe, a message.
pub open spec fn handle_outcome_view<H>(r: Result<H, Option<String>>) -> Result<H, Option<Seq<char>>> {
    match r {
        Ok(h) => Ok(h),
        Err(m) => Err(opt_string_view(m)),
    }
}

/// What the worker does about a request, and its registry afterwards.
pub open spec fn begin_step<D, C>(s: SidecarView<D, C>, p: RequestView) -> (
    SidecarView<D, C>,
    StepView<D, C>,
) {
    match p {
        RequestView::OpenDb { path, mode, max_thread_num, checkpoint_on_close } => (
            s,
            StepView::OpenDb { path, mode, max_thread_num, checkpoint_on_close },
        ),
        RequestView::Connect { db_id } => if s.dbs.contains_key(db_id) {
            (s, StepView::Connect { db_id, db: s.dbs[db_id] })
        } else {
            (s, StepView::Reply(ResponseView::Error("Invalid db_id"@)))
        },
        RequestView::Execute { conn_id, query, access_mode } => if !s.conns.contains_key(
            conn_id,
        ) {
            (s, StepView::Reply(ResponseView::Error("Invalid conn_id"@)))
        } else if query.contains('\0') {
            (s, StepView::Reply(ResponseView::Error("Query contains null byte"@)))
        } else if access_mode matches Some(m) && m.contains('\0') {
            (s, StepView::Reply(ResponseView::Error("Access mode contains null byte"@)))
        } else {
            (s, StepView::Execute { conn: s.conns[conn_id], query, access_mode })
        },
        RequestView::CloseConn { conn_id } => {
            let reply = ResponseView::OkConn { conn_id };
            if s.conns.contains_key(conn_id) {
                let after = SidecarView {
                    dbs: s.dbs,
                    conns: s.conns.remove(conn_id),
                    conn_to_db: s.conn_to_db.remove(conn_id),
                    next_db_id: s.next_db_id,
                    next_conn_id: s.next_conn_id,
                };
                if s.conn_to_db.contains_key(conn_id) && s.dbs.contains_key(s.conn_to_db[conn_id]) {
                    (
                        after,
                        StepView::CloseConn {
                            db: s.dbs[s.conn_to_db[conn_id]],
                            conn: s.conns[conn_id],
                            reply,
                        },
                    )
                } else {
                    (after, StepView::Reply(reply))
                }
            } else {
                (s, StepView::Reply(reply))
            }
        },
        RequestView::CloseDb { db_id } => {
            let reply = ResponseView::OkDb { db_id };
            if s.dbs.contains_key(db_id) {
                (
                    SidecarView {
                        dbs: s.dbs.remove(db_id),
                        conns: s.conns,
                        conn_to_db: s.conn_to_db,
                        next_db_id: s.next_db_id,
                        next_conn_id: s.next_conn_id,
                    },
                    StepView::CloseDb { db: s.dbs[db_id], reply },
                )
            } else {
                (s, StepView::Reply(reply))
            }
        },
    }
}

/// The registry and the answer after the engine's attempt to open a database.
pub open spec fn open_finished<D, C>(s: SidecarView<D, C>, opened: Result<D, Option<Seq<char>>>) -> (
    SidecarView<D, C>,
    ResponseView,
) {
    match opened {
        Ok(db) => (
            SidecarView {
                dbs: s.dbs.insert(s.next_db_id, db),
                conns: s.conns,
                conn_to_db: s.conn_to_db,
                next_db_id: (s.next_db_id + 1) as u64,
                next_conn_id: s.next_conn_id,
            },
            ResponseView::OkDb { db_id: s.next_db_id },
        ),
        Err(Some(msg)) => (s, ResponseView::Error(msg)),
        Err(None) => (s, ResponseView::Error("Unknown error"@)),
    }
}

/// The registry and the answer after the engine's attempt to connect to database `db_id`.
pub open spec fn connect_finished<D, C>(
    s: SidecarView<D, C>,
    db_id: u64,
    connected: Result<C, Option<Seq<char>>>,
) -> (SidecarView<D, C>, ResponseView) {
    match connected {
        Ok(conn) => (
            SidecarView {
                dbs: s.dbs,
                conns: s.conns.insert(s.next_conn_id, conn),
                conn_to_db: s.conn_to_db.insert(s.next_conn_id, db_id),
                next_db_id: s.next_db_id,
                next_conn_id: (s.next_conn_id + 1) as u64,
            },
            ResponseView::OkConn { conn_id: s.next_conn_id },
        ),
        Err(Some(msg)) => (s, ResponseView::Error(msg)),
        Err(None) => (s, ResponseView::Error("Failed to create connection"@)),
    }
}

/// The answer after the engine's attempt to run a query.
pub open spec fn execute_finished(outcome: ExecutionOutcomeView) -> ResponseView {
    match outcome {
        ExecutionOutcomeView::NotInvoked => ResponseView::Error(
            "Failed to invoke execute on engine"@,
        ),
        ExecutionOutcomeView::Failed(Some(msg)) => ResponseView::Error(msg),
        ExecutionOutcomeView::Failed(None) => ResponseView::Error("Unknown execution error"@),
        ExecutionOutcomeView::Succeeded(Some(text)) => ResponseView::OkResult { result_string: text },
        ExecutionOutcomeView::Succeeded(None) => ResponseView::OkResult {
            result_string: Seq::<char>::empty(),
        },
    }
}

/// Every database the worker opens gets an identifier it has not handed out
/// before, and never 0.
pub proof fn lemma_opened_database_id_is_fresh<D, C>(s: SidecarView<D, C>, db: D)
    requires
        s.wf(),
        s.next_db_id < u64::MAX,
    ensures
        open_finished(s, Ok(db)).1 == (ResponseView::OkDb { db_id: s.next_db_id }),
        s.next_db_id != 0,
        !s.dbs.contains_key(s.next_db_id),
        open_finished(s, Ok(db)).0.wf(),
        open_finished(s, Ok(db)).0.dbs[s.next_db_id] == db,
{
}

/// Every connection the worker makes gets an identifier it has not handed out
/// before, and never 0.
pub proof fn lemma_made_connection_id_is_fresh<D, C>(s: SidecarView<D, C>, db_id: u64, conn: C)
    requires
        s.wf(),
        s.next_conn_id < u64::MAX,
    ensures
        connect_finished(s, db_id, Ok(conn)).1 == (ResponseView::OkConn {
            conn_id: s.next_conn_id,
        }),
        s.next_conn_id != 0,
        !s.conns.contains_key(s.next_conn_id),
        connect_finished(s, db_id, Ok(conn)).0.wf(),
        connect_finished(s, db_id, Ok(conn)).0.conns[s.next_conn_id] == conn,
        connect_finished(s, db_id, Ok(conn)).0.conn_to_db[s.next_conn_id] == db_id,
{
    assert(connect_finished(s, db_id, Ok(conn)).0.conn_to_db.dom() =~= connect_finished(
        s,
        db_id,
        Ok(conn),
    ).0.conns.dom());
}

/// A connection is closed in the engine together with the database it was made
/// on, as long as that database is still open.
pub proof fn lemma_connection_closes_with_its_database<D, C>(
    s: SidecarView<D, C>,
    db_id: u64,
    conn: C,
)
    requires
        s.wf(),
        s.dbs.contains_key(db_id),
        s.next_conn_id < u64::MAX,
    ensures
        ({
            let (s1, reply) = connect_finished(s, db_id, Ok(conn));
            let conn_id = s.next_conn_id;
            &&& reply == (ResponseView::OkConn { conn_id })
            &&& begin_step(s1, RequestView::CloseConn { conn_id }).1 == StepView::CloseConn {
                db: s.dbs[db_id],
                conn,
                reply: ResponseView::OkConn { conn_id },
            }
        }),
{
}

/// Closing a connection succeeds whether or not it exists, and closing it again
/// changes nothing and calls nothing in the engine.
pub proof fn lemma_close_connection_idempotent<D, C>(s: SidecarView<D, C>, conn_id: u64)
    requires
        s.wf(),
    ensures
        ({
            let (s1, step1) = begin_step(s, RequestView::CloseConn { conn_id });
            let (s2, step2) = begin_step(s1, RequestView::CloseConn { conn_id });
            &&& s2 == s1
            &&& step2 == StepView::<D, C>::Reply(ResponseView::OkConn { conn_id })
            &&& match step1 {
                StepView::Reply(r) => r == (ResponseView::OkConn { conn_id }),
                StepView::CloseConn { reply, .. } => reply == (ResponseView::OkConn { conn_id }),
                _ => false,
            }
            &&& !s1.conns.contains_key(conn_id)
        }),
{
}

/// Closing a database succeeds whether or not it exists, and closing it again
/// changes nothing and calls nothing in the engine.
pub proof fn lemma_close_database_idempotent<D, C>(s: SidecarView<D, C>, db_id: u64)
    requires
        s.wf(),
    ensures
        ({
            let (s1, step1) = begin_step(s, RequestView::CloseDb { db_id });
            let (s2, step2) = begin_step(s1, RequestView::CloseDb { db_id });
            &&& s2 == s1
            &&& step2 == StepView::<D, C>::Reply(ResponseView::OkDb { db_id })
            &&& match step1 {
                StepView::Reply(r) => r == (ResponseView::OkDb { db_id }),
                StepView::CloseDb { reply, .. } => reply == (ResponseView::OkDb { db_id }),
                _ => false,
            }
            &&& !s1.dbs.contains_key(db_id)
        }),
{
}

/// A closed connection is unknown to the worker: a query on it is refused.
pub proof fn lemma_closed_connection_is_invalid<D, C>(
    s: SidecarView<D, C>,
    conn_id: u64,
    query: Seq<char>,
    access_mode: Option<Seq<char>>,
)
    requires
        s.wf(),
    ensures
        ({
            let s1 = begin_step(s, RequestView::CloseConn { conn_id }).0;
            begin_step(s1, RequestView::Execute { conn_id, query, access_mode }) == (
                s1,
                StepView::<D, C>::Reply(ResponseView::Error("Invalid conn_id"@)),
            )
        }),
{
}

/// A closed database is unknown to the worker: connecting to it is refused.
pub proof fn lemma_closed_database_is_invalid<D, C>(s: SidecarView<D, C>, db_id: u64)
    requires
        s.wf(),
    ensures
        ({
            let s1 = begin_step(s, RequestView::CloseDb { db_id }).0;
            begin_step(s1, RequestView::Connect { db_id }) == (
                s1,
                StepView::<D, C>::Reply(ResponseView::Error("Invalid db_id"@)),
            )
        }),
{
}

/// Identifier 0 names nothing in the worker: no request about it reaches the engine.
pub proof fn lemma_zero_names_nothing<D, C>(s: SidecarView<D, C>)
    requires
        s.wf(),
    ensures
        !s.dbs.contains_key(0),
        !s.conns.contains_key(0),
        begin_step(s, RequestView::Connect { db_id: 0 }).1 == StepView::<D, C>::Reply(
            ResponseView::Error("Invalid db_id"@),
        ),
        begin_step(s, RequestView::CloseConn { conn_id: 0 }) == (
            s,
            StepView::<D, C>::Reply(ResponseView::OkConn { conn_id: 0 }),
        ),
        begin_step(s, RequestView::CloseDb { db_id: 0 }) == (
            s,
            StepView::<D, C>::Reply(ResponseView::OkDb { db_id: 0 }),
        ),
{
}

/// Whether an optional access mode can be handed to the engine: it holds no NUL.
pub open spec fn mode_is_passable(m: Option<Seq<char>>) -> bool {
    !(m matches Some(x) && x.contains('\0'))
}

/// Opening, connecting and querying change nothing in the registry until the
/// engine has answered; connecting names the requested database's own handle,
/// and a query on a live connection names that connection's own handle.
pub proof fn lemma_requests_before_the_engine_change_nothing<D, C>(
    s: SidecarView<D, C>,
    p: RequestView,
)
    requires
        s.wf(),
        p is OpenDb || p is Connect || p is Execute,
    ensures
        begin_step(s, p).0 == s,
        p matches RequestView::Connect { db_id } ==> (s.dbs.contains_key(db_id) ==> begin_step(
            s,
            p,
        ).1 == StepView::<D, C>::Connect { db_id, db: s.dbs[db_id] }),
        p matches RequestView::Execute { conn_id, query, access_mode } ==> (s.conns.contains_key(
            conn_id,
        ) && !query.contains('\0') && mode_is_passable(access_mode) ==> begin_step(s, p).1
            == StepView::<D, C>::Execute { conn: s.conns[conn_id], query, access_mode }),
{
}

/// Closing a connection unregisters that connection and nothing else. If it is
/// live and its database is still open, the engine is asked to close exactly
/// that connection's own handle on that database's own handle; otherwise the
/// engine is not involved. Either way the answer is success.
pub proof fn lemma_close_connection_frame<D, C>(s: SidecarView<D, C>, conn_id: u64)
    requires
        s.wf(),
    ensures
        ({
            let (s1, step) = begin_step(s, RequestView::CloseConn { conn_id });
            &&& s1.wf()
            &&& s1.dbs == s.dbs
            &&& s1.conns == s.conns.remove(conn_id)
            &&& s1.conn_to_db == s.conn_to_db.remove(conn_id)
            &&& s1.next_db_id == s.next_db_id
            &&& s1.next_conn_id == s.next_conn_id
            &&& if s.conns.contains_key(conn_id) && s.dbs.contains_key(s.conn_to_db[conn_id]) {
                step == StepView::<D, C>::CloseConn {
                    db: s.dbs[s.conn_to_db[conn_id]],
                    conn: s.conns[conn_id],
                    reply: ResponseView::OkConn { conn_id },
                }
            } else {
                step == StepView::<D, C>::Reply(ResponseView::OkConn { conn_id })
            }
        }),
{
    let s1 = begin_step(s, RequestView::CloseConn { conn_id }).0;
    if s.conns.contains_key(conn_id) {
        assert(s1.conn_to_db.dom() =~= s1.conns.dom());
    } else {
        assert(s.conns.remove(conn_id) =~= s.conns);
        assert(!s.conn_to_db.contains_key(conn_id));
        assert(s.conn_to_db.remove(conn_id) =~= s.conn_to_db);
    }
}

/// Closing one connection leaves every other live connection usable: a query
/// on it still reaches the engine on its own handle.
pub proof fn lemma_other_connections_survive_close<D, C>(
    s: SidecarView<D, C>,
    closed: u64,
    other: u64,
    query: Seq<char>,
    access_mode: Option<Seq<char>>,
)
    requires
        s.wf(),
        s.conns.contains_key(other),
        other != closed,
        !query.contains('\0'),
        mode_is_passable(access_mode),
    ensures
        ({
            let s1 = begin_step(s, RequestView::CloseConn { conn_id: closed }).0;
            &&& s1.conns.contains_key(other)
            &&& s1.conns[other] == s.conns[other]
            &&& s1.conn_to_db[other] == s.conn_to_db[other]
            &&& begin_step(s1, RequestView::Execute { conn_id: other, query, access_mode }).1
                == StepView::<D, C>::Execute { conn: s.conns[other], query, access_mode }
        }),
{
    lemma_close_connection_frame(s, closed);
}

/// Closing a database unregisters that database and nothing else, and if it was
/// open the engine is asked to close its own handle, whatever connections were
/// made or closed before; otherwise the engine is not involved. Either way the
/// answer is success.
pub proof fn lemma_close_database_frame<D, C>(s: SidecarView<D, C>, db_id: u64)
    requires
        s.wf(),
    ensures
        ({
            let (s1, step) = begin_step(s, RequestView::CloseDb { db_id });
            &&& s1.wf()
            &&& s1.dbs == s.dbs.remove(db_id)
            &&& s1.conns == s.conns
            &&& s1.conn_to_db == s.conn_to_db
            &&& s1.next_db_id == s.next_db_id
            &&& s1.next_conn_id == s.next_conn_id
            &&& if s.dbs.contains_key(db_id) {
                step == StepView::<D, C>::CloseDb {
                    db: s.dbs[db_id],
                    reply: ResponseView::OkDb { db_id },
                }
            } else {
                step == StepView::<D, C>::Reply(ResponseView::OkDb { db_id })
            }
        }),
{
    if !s.dbs.contains_key(db_id) {
        assert(s.dbs.remove(db_id) =~= s.dbs);
    }
}

/// Opening a database registers exactly the new handle under the next
/// identifier and leaves everything else alone; a failed open changes nothing.
pub proof fn lemma_open_frame<D, C>(s: SidecarView<D, C>, opened: Result<D, Option<Seq<char>>>)
    requires
        s.wf(),
        opened is Ok ==> s.next_db_id < u64::MAX,
    ensures
        ({
            let s1 = open_finished(s, opened);
            &&& s1.0.wf()
            &&& s1.0.conns == s.conns
            &&& s1.0.conn_to_db == s.conn_to_db
            &&& s1.0.next_conn_id == s.next_conn_id
            &&& match opened {
                Ok(db) => {
                    &&& s1.0.dbs == s.dbs.insert(s.next_db_id, db)
                    &&& s1.0.next_db_id == s.next_db_id + 1
                    &&& s1.1 == ResponseView::OkDb { db_id: s.next_db_id }
                    &&& forall|k: u64|
                        #[trigger] s.dbs.contains_key(k) ==> s1.0.dbs.contains_key(k)
                            && s1.0.dbs[k] == s.dbs[k]
                },
                Err(_) => s1.0 == s && s1.1 is Error,
            }
        }),
{
}

/// Making a connection registers exactly the new handle, linked to its
/// database, under the next identifier; every connection live before stays
/// live with its own handle and database. A failed connect changes nothing.
pub proof fn lemma_connect_frame<D, C>(
    s: SidecarView<D, C>,
    db_id: u64,
    connected: Result<C, Option<Seq<char>>>,
)
    requires
        s.wf(),
        connected is Ok ==> s.next_conn_id < u64::MAX,
    ensures
        ({
            let s1 = connect_finished(s, db_id, connected);
            &&& s1.0.wf()
            &&& s1.0.dbs == s.dbs
            &&& s1.0.next_db_id == s.next_db_id
            &&& match connected {
                Ok(conn) => {
                    &&& s1.0.conns == s.conns.insert(s.next_conn_id, conn)
                    &&& s1.0.conn_to_db == s.conn_to_db.insert(s.next_conn_id, db_id)
                    &&& s1.0.next_conn_id == s.next_conn_id + 1
                    &&& s1.1 == ResponseView::OkConn { conn_id: s.next_conn_id }
                    &&& forall|k: u64|
                        #[trigger] s.conns.contains_key(k) ==> {
                            &&& s1.0.conns.contains_key(k)
                            &&& s1.0.conns[k] == s.conns[k]
                            &&& s1.0.conn_to_db[k] == s.conn_to_db[k]
                        }
                },
                Err(_) => s1.0 == s && s1.1 is Error,
            }
        }),
{
    if connected is Ok {
        lemma_made_connection_id_is_fresh(s, db_id, connected->Ok_0);
    }
}

/// Making a connection leaves the others usable on their own handles: a query
/// on a connection made earlier still reaches the engine on that connection's
/// handle, not the new one's.
pub proof fn lemma_connections_keep_their_handles<D, C>(
    s: SidecarView<D, C>,
    db_id: u64,
    conn: C,
    other: u64,
    query: Seq<char>,
    access_mode: Option<Seq<char>>,
)
    requires
        s.wf(),
        s.next_conn_id < u64::MAX,
        s.conns.contains_key(other),
        !query.contains('\0'),
        mode_is_passable(access_mode),
    ensures
        ({
            let s1 = connect_finished(s, db_id, Ok(conn)).0;
            begin_step(s1, RequestView::Execute { conn_id: other, query, access_mode }).1
                == StepView::<D, C>::Execute { conn: s.conns[other], query, access_mode }
        }),
{
    lemma_connect_frame(s, db_id, Ok::<C, Option<Seq<char>>>(conn));
}

/// Whether `s` holds the character NUL, which the engine's C interface cannot carry.
fn has_nul(s: &str) -> (b: bool)
    ensures
        b == s@.contains('\0'),
{
    for c in it: s.chars()
        invariant
            it.seq() == s@,
            forall|j: int| 0 <= j < it.index() ==> s@[j] != '\0',
    {
        if c == '\0' {
            return true;
        }
    }
    false
}

impl<D: Copy, C: Copy> Sidecar<D, C> {
    /// A worker that holds nothing; its first database and connection are numbered 1.
    pub fn new() -> (s: Self)
        ensures
            s@.wf(),
            s@.dbs == Map::<u64, D>::empty(),
            s@.conns == Map::<u64, C>::empty(),
            s@.conn_to_db == Map::<u64, u64>::empty(),
            s@.next_db_id == 1,
            s@.next_conn_id == 1,
    {
        Sidecar {
            dbs: HashMap::new(),
            conns: HashMap::new(),
            conn_to_db: HashMap::new(),
            next_db_id: 1,
            next_conn_id: 1,
        }
    }

    /// The identifier the next database opened will get.
    pub fn next_db_id(&self) -> (id: u64)
        ensures
            id == self@.next_db_id,
    {
        self.next_db_id
    }

    /// The identifier the next connection made will get.
    pub fn next_conn_id(&self) -> (id: u64)
        ensures
            id == self@.next_conn_id,
    {
        self.next_conn_id
    }

    /// Decides what to do about a request.
    pub fn begin(&mut self, payload: RequestPayload) -> (step: Step<D, C>)
        requires
            old(self)@.wf(),
        ensures
            final(self)@.wf(),
            (final(self)@, step@) == begin_step(old(self)@, payload@),
    {
        match payload {
            RequestPayload::OpenDb { path, mode, max_thread_num, checkpoint_on_close } => {
                Step::OpenDb { path, mode, max_thread_num, checkpoint_on_close }
            },
            RequestPayload::Connect { db_id } => self.begin_connect(db_id),
            RequestPayload::Execute { conn_id, query, access_mode } => {
                self.begin_execute(conn_id, query, access_mode)
            },
            RequestPayload::CloseConn { conn_id } => self.begin_close_conn(conn_id),
            RequestPayload::CloseDb { db_id } => self.begin_close_db(db_id),
        }
    }

    fn begin_connect(&mut self, db_id: u64) -> (step: Step<D, C>)
        requires
            old(self)@.wf(),
        ensures
            final(self)@.wf(),
            (final(self)@, step@) == begin_step(old(self)@, RequestView::Connect { db_id }),
    {
        match self.dbs.get(&db_id) {
            Some(db) => Step::Connect { db_id, db: *db },
            None => Step::Reply(ResponsePayload::Error(String::from_str("Invalid db_id"))),
        }
    }

    fn begin_execute(&mut self, conn_id: u64, query: String, access_mode: Option<String>) -> (step:
        Step<D, C>)
        requires
            old(self)@.wf(),
        ensures
            final(self)@.wf(),
            (final(self)@, step@) == begin_step(
                old(self)@,
                RequestView::Execute {
                    conn_id,
                    query: query@,
                    access_mode: opt_string_view(access_mode),
                },
            ),
    {
        match self.conns.get(&conn_id) {
            Some(conn) => {
                if has_nul(query.as_str()) {
                    return Step::Reply(
                        ResponsePayload::Error(String::from_str("Query contains null byte")),
                    );
                }
                let mode_has_nul = match &access_mode {
                    Some(m) => has_nul(m.as_str()),
                    None => false,
                };
                if mode_has_nul {
                    Step::Reply(ResponsePayload::Error(String::from_str("Access mode contains null byte")))
                } else {
                    Step::Execute { conn: *conn, query, access_mode }
                }
            },
            None => Step::Reply(ResponsePayload::Error(String::from_str("Invalid conn_id"))),
        }
    }

    fn begin_close_conn(&mut self, conn_id: u64) -> (step: Step<D, C>)
        requires
            old(self)@.wf(),
        ensures
            final(self)@.wf(),
            (final(self)@, step@) == begin_step(old(self)@, RequestView::CloseConn { conn_id }),
    {
        let reply = ResponsePayload::OkConn { conn_id };
        let ghost before = self@;
        match self.conns.remove(&conn_id) {
            Some(conn) => {
                let linked = self.conn_to_db.remove(&conn_id);
                assert(self@.conn_to_db.dom() =~= self@.conns.dom());
                assert(before.conn_to_db.contains_key(conn_id));
                match linked {
                    Some(db_id) => match self.dbs.get(&db_id) {
                        Some(db) => Step::CloseConn { db: *db, conn, reply },
                        None => Step::Reply(reply),
                    },
                    None => Step::Reply(reply),
                }
            },
            None => {
                assert(self@.conns =~= before.conns);
                Step::Reply(reply)
            },
        }
    }

    fn begin_close_db(&mut self, db_id: u64) -> (step: Step<D, C>)
        requires
            old(self)@.wf(),
        ensures
            final(self)@.wf(),
            (final(self)@, step@) == begin_step(old(self)@, RequestView::CloseDb { db_id }),
    {
        let reply = ResponsePayload::OkDb { db_id };
        let ghost before = self@;
        match self.dbs.remove(&db_id) {
            Some(db) => Step::CloseDb { db, reply },
            None => {
                assert(self@.dbs =~= before.dbs);
                Step::Reply(reply)
            },
        }
    }

    /// Registers the database the engine opened, or reports why it did not.
    pub fn finish_open(&mut self, opened: Result<D, Option<String>>) -> (reply: ResponsePayload)
        requires
            old(self)@.wf(),
            opened is Ok ==> old(self)@.next_db_id < u64::MAX,
        ensures
            final(self)@.wf(),
            (final(self)@, reply@) == open_finished(old(self)@, handle_outcome_view(opened)),
    {
        match opened {
            Ok(db) => {
                let db_id = self.next_db_id;
                self.next_db_id = self.next_db_id + 1;
                self.dbs.insert(db_id, db);
                ResponsePayload::OkDb { db_id }
            },
            Err(Some(msg)) => ResponsePayload::Error(msg),
            Err(None) => ResponsePayload::Error(String::from_str("Unknown error")),
        }
    }

    /// Registers the connection the engine made to database `db_id`, or reports
    /// why it did not.
    pub fn finish_connect(&mut self, db_id: u64, connected: Result<C, Option<String>>) -> (reply:
        ResponsePayload)
        requires
            old(self)@.wf(),
            connected is Ok ==> old(self)@.next_conn_id < u64::MAX,
        ensures
            final(self)@.wf(),
            (final(self)@, reply@) == connect_finished(
                old(self)@,
                db_id,
                handle_outcome_view(connected),
            ),
    {
        match connected {
            Ok(conn) => {
                let conn_id = self.next_conn_id;
                self.next_conn_id = self.next_conn_id + 1;
                self.conns.insert(conn_id, conn);
                self.conn_to_db.insert(conn_id, db_id);
                ResponsePayload::OkConn { conn_id }
            },
            Err(Some(msg)) => ResponsePayload::Error(msg),
            Err(None) => ResponsePayload::Error(String::from_str("Failed to create connection")),
        }
    }

    /// The answer to a query, from how the engine's attempt to run it ended.
    pub fn finish_execute(outcome: ExecutionOutcome) -> (reply: ResponsePayload)
        ensures
            reply@ == execute_finished(outcome@),
    {
        match outcome {
            ExecutionOutcome::NotInvoked => ResponsePayload::Error(
                String::from_str("Failed to invoke execute on engine"),
            ),
            ExecutionOutcome::Failed(Some(msg)) => ResponsePayload::Error(msg),
            ExecutionOutcome::Failed(None) => ResponsePayload::Error(
                String::from_str("Unknown execution error"),
            ),
            ExecutionOutcome::Succeeded(Some(text)) => ResponsePayload::OkResult { result_string: text },
            ExecutionOutcome::Succeeded(None) => ResponsePayload::OkResult {
                result_string: String::new(),
            },
        }
    }
}

} // verus!
