//! How the client's and the worker's decisions fit together.
//!
//! Each law follows a request from the client through the worker and back,
//! over the specifications of the functions on either side.
use crate::connection::{access_mode_code, execute_outcome, query_outcome, AccessMode};
use crate::database::{connect_outcome, open_outcome, open_request, DatabaseOptions};
use crate::error::ErrorView;
use crate::protocol::{RequestView, ResponseView};
use crate::sidecar::{
    begin_step, connect_finished, execute_finished, open_finished, ExecutionOutcomeView,
    SidecarView, StepView,
};
use vstd::prelude::*;

verus! {

/// Opening a database hands the engine exactly the path, mode name, thread
/// count and checkpoint setting of the options, and once the engine has
/// opened it the client holds an open database under a fresh identifier.
pub proof fn lemma_open_through_worker<D, C>(s: SidecarView<D, C>, options: DatabaseOptions, db: D)
    requires
        s.wf(),
        s.next_db_id < u64::MAX,
    ensures
        begin_step(s, open_request(options)) == (
            s,
            StepView::<D, C>::OpenDb {
                path: options.db_path@,
                mode: options.mode.spec_name(),
                max_thread_num: options.max_thread_num,
                checkpoint_on_close: options.checkpoint_on_close,
            },
        ),
        open_outcome(open_finished(s, Ok(db)).1) == Ok::<u64, ErrorView>(s.next_db_id),
        s.next_db_id != 0,
        !s.dbs.contains_key(s.next_db_id),
{
}

/// Connecting to an open database yields an open connection: the engine is
/// asked to connect to that database, and the identifier the client gets is
/// fresh and not 0.
pub proof fn lemma_connect_through_worker<D, C>(s: SidecarView<D, C>, db_id: u64, conn: C)
    requires
        s.wf(),
        s.dbs.contains_key(db_id),
        s.next_conn_id < u64::MAX,
    ensures
        begin_step(s, RequestView::Connect { db_id }) == (
            s,
            StepView::<D, C>::Connect { db_id, db: s.dbs[db_id] },
        ),
        connect_outcome(connect_finished(s, db_id, Ok(conn)).1) == Ok::<u64, ErrorView>(
            s.next_conn_id,
        ),
        s.next_conn_id != 0,
        !s.conns.contains_key(s.next_conn_id),
{
}

/// A database the worker does not hold, a closed one included, cannot be
/// connected to: the client gets an initialization error.
pub proof fn lemma_connect_to_unknown_database<D, C>(s: SidecarView<D, C>, db_id: u64)
    requires
        !s.dbs.contains_key(db_id),
    ensures
        begin_step(s, RequestView::Connect { db_id }).0 == s,
        ({
            let step = begin_step(s, RequestView::Connect { db_id }).1;
            &&& step is Reply
            &&& connect_outcome(step->Reply_0) == Err::<u64, ErrorView>(
                ErrorView::InitializationFailed("Invalid db_id"@),
            )
        }),
{
}

/// A query on an open connection reaches the engine unchanged, on that
/// connection and with the requested access mode; what the engine renders is
/// what the client gets back.
pub proof fn lemma_query_through_worker<D, C>(
    s: SidecarView<D, C>,
    conn_id: u64,
    query: Seq<char>,
    mode: Option<AccessMode>,
    text: Seq<char>,
)
    requires
        s.wf(),
        s.conns.contains_key(conn_id),
        !query.contains('\0'),
    ensures
        conn_id != 0,
        execute_outcome(conn_id, query, mode) == Ok::<RequestView, ErrorView>(
            RequestView::Execute { conn_id, query, access_mode: access_mode_code(mode) },
        ),
        begin_step(
            s,
            RequestView::Execute { conn_id, query, access_mode: access_mode_code(mode) },
        ) == (
            s,
            StepView::<D, C>::Execute {
                conn: s.conns[conn_id],
                query,
                access_mode: access_mode_code(mode),
            },
        ),
        query_outcome(execute_finished(ExecutionOutcomeView::Succeeded(Some(text)))) == Ok::<
            Seq<char>,
            ErrorView,
        >(text),
{
    reveal_strlit("r");
    reveal_strlit("i");
    reveal_strlit("u");
    reveal_strlit("s");
    if let Some(m) = mode {
        assert(m.spec_code().len() == 1);
        assert(m.spec_code()[0] != '\0');
        if m.spec_code().contains('\0') {
            let j = choose|j: int| 0 <= j < m.spec_code().len() && m.spec_code()[j] == '\0';
            assert(j == 0);
        }
    }
}

/// A query the engine rejects reaches the client as an execution error with
/// the engine's message.
pub proof fn lemma_engine_error_reaches_client(msg: Seq<char>)
    ensures
        query_outcome(execute_finished(ExecutionOutcomeView::Failed(Some(msg)))) == Err::<
            Seq<char>,
            ErrorView,
        >(ErrorView::ExecutionFailed(msg)),
{
}

/// A query on a connection the worker does not hold is refused, and the
/// client sees an execution error saying so.
pub proof fn lemma_query_on_unknown_connection<D, C>(
    s: SidecarView<D, C>,
    conn_id: u64,
    query: Seq<char>,
    access_mode: Option<Seq<char>>,
)
    requires
        !s.conns.contains_key(conn_id),
    ensures
        ({
            let (s1, step) = begin_step(s, RequestView::Execute { conn_id, query, access_mode });
            &&& s1 == s
            &&& step is Reply
            &&& query_outcome(step->Reply_0) == Err::<Seq<char>, ErrorView>(
                ErrorView::ExecutionFailed("Invalid conn_id"@),
            )
        }),
{
}

} // verus!
