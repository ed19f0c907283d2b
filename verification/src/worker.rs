//! The client's side of the conversation with the worker process.
//!
//! Requests are numbered; each one leaves a waiter behind, and the worker's
//! responses, which may come in any order, are handed to the waiter of the
//! request they answer. Once the worker is lost, every waiter is told so and
//! every later request fails.
use crate::error::{Error, ErrorView};
use crate::protocol::{Request, RequestPayload, Response, ResponsePayload, ResponseView};
use std::collections::HashMap;
use vstd::prelude::*;
use vstd::std_specs::iter::IteratorSpec;

verus! {

broadcast use vstd::std_specs::hash::group_hash_axioms;

/// The bookkeeping of a client of the worker: the next request identifier,
/// the waiters of the requests not yet answered, and the failure that ended
/// the conversation, if any. `T` is whatever a waiter is woken through.
pub struct WorkerClient<T> {
    next_req_id: u64,
    pending: HashMap<u64, T>,
    error: Option<String>,
}

/// The mathematical content of a [`WorkerClient`].
pub struct WorkerClientView<T> {
    pub next_req_id: u64,
    pub pending: Map<u64, T>,
    pub error: Option<Seq<char>>,
}

impl<T> View for WorkerClient<T> {
    type V = WorkerClientView<T>;

    closed spec fn view(&self) -> WorkerClientView<T> {
        WorkerClientView {
            next_req_id: self.next_req_id,
            pending: self.pending@,
            error: match self.error {
                Some(e) => Some(e@),
                None => None,
            },
        }
    }
}

/// The identifier after `id`; identifiers wrap around.
pub open spec fn next_id(id: u64) -> u64 {
    if id == u64::MAX {
        0
    } else {
        (id + 1) as u64
    }
}

/// The payload every waiter gets when the worker is lost.
pub open spec fn disconnected_reply() -> ResponseView {
    ResponseView::Error("Worker disconnected"@)
}

/// The client after numbering a request whose waiter is `waiter`.
pub open spec fn after_send<T>(v: WorkerClientView<T>, waiter: T) -> WorkerClientView<T> {
    WorkerClientView {
        next_req_id: next_id(v.next_req_id),
        pending: if v.error is None {
            v.pending.insert(v.next_req_id, waiter)
        } else {
            v.pending
        },
        error: v.error,
    }
}

/// The number a new request gets, or the error it fails with once the worker is lost.
pub open spec fn send_outcome<T>(v: WorkerClientView<T>) -> Result<u64, ErrorView> {
    match v.error {
        Some(reason) => Err(ErrorView::ExecutionFailed("Worker error: "@ + reason)),
        None => Ok(v.next_req_id),
    }
}

/// The client after the response to request `id` came.
pub open spec fn after_dispatch<T>(v: WorkerClientView<T>, id: u64) -> WorkerClientView<T> {
    WorkerClientView { next_req_id: v.next_req_id, pending: v.pending.remove(id), error: v.error }
}

/// The waiter that the response to request `id` goes to, if any.
pub open spec fn dispatched<T>(v: WorkerClientView<T>, id: u64) -> Option<T> {
    if v.pending.contains_key(id) {
        Some(v.pending[id])
    } else {
        None
    }
}

/// The client after the worker was lost for `reason`.
pub open spec fn after_disconnect<T>(v: WorkerClientView<T>, reason: Seq<char>) -> WorkerClientView<
    T,
> {
    WorkerClientView {
        next_req_id: v.next_req_id,
        pending: Map::empty(),
        error: Some("IPC reader thread failed: "@ + reason),
    }
}

/// A request made while the worker is up is answered to its own waiter: the
/// response that carries its number reaches the waiter it was sent with, and
/// the other outstanding requests keep theirs.
pub proof fn lemma_response_reaches_its_waiter<T>(v: WorkerClientView<T>, waiter: T)
    requires
        v.error is None,
    ensures
        send_outcome(v) == Ok::<u64, ErrorView>(v.next_req_id),
        dispatched(after_send(v, waiter), v.next_req_id) == Some(waiter),
        after_dispatch(after_send(v, waiter), v.next_req_id).pending == v.pending.remove(
            v.next_req_id,
        ),
{
    assert(v.pending.insert(v.next_req_id, waiter).remove(v.next_req_id) =~= v.pending.remove(
        v.next_req_id,
    ));
}

/// Responses may come in any order: whichever of two outstanding requests is
/// answered first, each response reaches the waiter of its own request.
pub proof fn lemma_responses_in_any_order<T>(v: WorkerClientView<T>, a: u64, b: u64)
    requires
        v.pending.contains_key(a),
        v.pending.contains_key(b),
        a != b,
    ensures
        dispatched(v, a) == Some(v.pending[a]),
        dispatched(after_dispatch(v, a), b) == Some(v.pending[b]),
        dispatched(v, b) == Some(v.pending[b]),
        dispatched(after_dispatch(v, b), a) == Some(v.pending[a]),
        after_dispatch(after_dispatch(v, a), b) == after_dispatch(after_dispatch(v, b), a),
{
    assert(v.pending.remove(a).remove(b) =~= v.pending.remove(b).remove(a));
}

/// A response is delivered at most once: after it reached its waiter, the same
/// number reaches nobody.
pub proof fn lemma_response_delivered_once<T>(v: WorkerClientView<T>, id: u64)
    ensures
        dispatched(after_dispatch(v, id), id) is None,
{
}

/// Once the worker is lost, no waiter is left behind; a later request fails with
/// the reason, registers no waiter, and leaves the failure in place for the next.
pub proof fn lemma_lost_worker_is_final<T>(v: WorkerClientView<T>, reason: Seq<char>, waiter: T)
    ensures
        after_disconnect(v, reason).pending == Map::<u64, T>::empty(),
        send_outcome(after_disconnect(v, reason)) == Err::<u64, ErrorView>(
            ErrorView::ExecutionFailed("Worker error: "@ + ("IPC reader thread failed: "@ + reason)),
        ),
        after_send(after_disconnect(v, reason), waiter).error == after_disconnect(v, reason).error,
        after_send(after_disconnect(v, reason), waiter).pending == Map::<u64, T>::empty(),
{
}

/// Which program a client starts as its worker.
#[derive(Debug, Clone, Copy, PartialEq, Eq, Structural)]
pub enum WorkerProgram {
    /// `neug-worker` in the directory of the running executable.
    BesideExecutable,
    /// `neug-worker` in the parent of that directory.
    InParentDirectory,
    /// `neug-worker`, found through the search path.
    OnPath,
}

/// The worker program to start: the one beside the running executable if the
/// executable's location is known and the program is there, else the one in
/// the directory above it if it is there, else the one on the search path.
pub fn worker_program(exe_known: bool, beside_exists: bool, parent_exists: bool) -> (p:
    WorkerProgram)
    ensures
        p == if exe_known && beside_exists {
            WorkerProgram::BesideExecutable
        } else if exe_known && parent_exists {
            WorkerProgram::InParentDirectory
        } else {
            WorkerProgram::OnPath
        },
{
    if exe_known {
        if beside_exists {
            return WorkerProgram::BesideExecutable;
        }
        if parent_exists {
            return WorkerProgram::InParentDirectory;
        }
    }
    WorkerProgram::OnPath
}

/// What happens to a client: a request sent with its waiter, or the response
/// to request `id` arriving.
pub enum ClientEvent<T> {
    Send(T),
    Answer(u64),
}

/// The client after one event.
pub open spec fn after_event<T>(v: WorkerClientView<T>, e: ClientEvent<T>) -> WorkerClientView<T> {
    match e {
        ClientEvent::Send(w) => after_send(v, w),
        ClientEvent::Answer(id) => after_dispatch(v, id),
    }
}

/// The client after a history of events, in order.
pub open spec fn after_events<T>(v: WorkerClientView<T>, evs: Seq<ClientEvent<T>>) -> WorkerClientView<
    T,
>
    decreases evs.len(),
{
    if evs.len() == 0 {
        v
    } else {
        after_event(after_events(v, evs.drop_last()), evs.last())
    }
}

/// How many requests a history sends.
pub open spec fn sends<T>(evs: Seq<ClientEvent<T>>) -> nat
    decreases evs.len(),
{
    if evs.len() == 0 {
        0
    } else {
        sends(evs.drop_last()) + if evs.last() is Send {
            1nat
        } else {
            0nat
        }
    }
}

/// The waiter of the request numbered `id` in a history that starts from a new
/// client, if that request was sent and its response has not arrived since.
pub open spec fn outstanding<T>(evs: Seq<ClientEvent<T>>, id: u64) -> Option<T>
    decreases evs.len(),
{
    if evs.len() == 0 {
        None
    } else {
        match evs.last() {
            ClientEvent::Send(w) => if sends(evs.drop_last()) + 1 == id {
                Some(w)
            } else {
                outstanding(evs.drop_last(), id)
            },
            ClientEvent::Answer(a) => if a == id {
                None
            } else {
                outstanding(evs.drop_last(), id)
            },
        }
    }
}

/// Whether `v` is a client that has sent nothing yet.
pub open spec fn is_new<T>(v: WorkerClientView<T>) -> bool {
    &&& v.next_req_id == 1
    &&& v.pending == Map::<u64, T>::empty()
    &&& v.error is None
}

/// Over any history of requests and responses on a new client, as long as
/// the worker is up and the numbers do not wrap: the next request gets the
/// number one above the count of requests sent, and the response to any number
/// reaches the waiter of the request with that number that is still
/// outstanding, and nobody else.
pub proof fn lemma_history_routes_every_response<T>(v: WorkerClientView<T>, evs: Seq<ClientEvent<T>>)
    requires
        is_new(v),
        sends(evs) < u64::MAX,
    ensures
        after_events(v, evs).error is None,
        after_events(v, evs).next_req_id == sends(evs) + 1,
        send_outcome(after_events(v, evs)) == Ok::<u64, ErrorView>((sends(evs) + 1) as u64),
        forall|id: u64| #[trigger] dispatched(after_events(v, evs), id) == outstanding(evs, id),
    decreases evs.len(),
{
    if evs.len() > 0 {
        let prefix = evs.drop_last();
        lemma_history_routes_every_response(v, prefix);
        let r = after_events(v, prefix);
        assert forall|id: u64| #[trigger]
            dispatched(after_events(v, evs), id) == outstanding(evs, id) by {
            assert(dispatched(r, id) == outstanding(prefix, id));
        }
    } else {
        assert forall|id: u64| #[trigger] dispatched(after_events(v, evs), id) == outstanding(
            evs,
            id,
        ) by {}
    }
}

/// A history's count of requests never falls as it goes on.
pub proof fn lemma_sends_grow<T>(evs: Seq<ClientEvent<T>>, i: int, j: int)
    requires
        0 <= i <= j <= evs.len(),
    ensures
        sends(evs.take(i)) <= sends(evs.take(j)),
        i < j && evs[i] is Send ==> sends(evs.take(i)) < sends(evs.take(j)),
    decreases j - i,
{
    if i < j {
        lemma_sends_grow(evs, i, j - 1);
        assert(evs.take(j).drop_last() =~= evs.take(j - 1));
        if i == j - 1 {
            assert(evs.take(j).last() == evs[i]);
        }
    }
}

/// Whether some request of the history gets the number `id`.
pub open spec fn number_used<T>(evs: Seq<ClientEvent<T>>, id: int) -> bool {
    exists|i: int|
        #![trigger evs[i]]
        0 <= i < evs.len() && evs[i] is Send && sends(evs.take(i)) + 1 == id
}

/// On a new client, the requests of a history are numbered 1, 2, 3, ... in the
/// order they are sent: each gets one above the count sent before it, later
/// requests get larger numbers, and every number from 1 to the count is used.
pub proof fn lemma_requests_numbered_in_order<T>(v: WorkerClientView<T>, evs: Seq<ClientEvent<T>>)
    requires
        is_new(v),
        sends(evs) < u64::MAX,
    ensures
        forall|i: int|
            #![trigger evs[i]]
            0 <= i < evs.len() && evs[i] is Send ==> send_outcome(after_events(v, evs.take(i)))
                == Ok::<u64, ErrorView>((sends(evs.take(i)) + 1) as u64),
        forall|i: int, j: int|
            #![trigger evs[i], evs[j]]
            0 <= i < j < evs.len() && evs[i] is Send && evs[j] is Send ==> sends(evs.take(i))
                < sends(evs.take(j)),
        forall|id: int| 1 <= id <= sends(evs) ==> #[trigger] number_used(evs, id),
    decreases evs.len(),
{
    assert forall|i: int|
        #![trigger evs[i]]
        0 <= i < evs.len() && evs[i] is Send implies send_outcome(after_events(v, evs.take(i)))
        == Ok::<u64, ErrorView>((sends(evs.take(i)) + 1) as u64) by {
        lemma_sends_grow(evs, i, evs.len() as int);
        assert(evs.take(evs.len() as int) =~= evs);
        lemma_history_routes_every_response(v, evs.take(i));
    }
    assert forall|i: int, j: int|
        #![trigger evs[i], evs[j]]
        0 <= i < j < evs.len() && evs[i] is Send && evs[j] is Send implies sends(evs.take(i))
        < sends(evs.take(j)) by {
        lemma_sends_grow(evs, i, j);
    }
    if evs.len() > 0 {
        let prefix = evs.drop_last();
        assert(sends(prefix) <= sends(evs));
        lemma_requests_numbered_in_order(v, prefix);
        assert forall|id: int| 1 <= id <= sends(evs) implies #[trigger] number_used(evs, id) by {
            if id <= sends(prefix) {
                assert(number_used(prefix, id));
                let i = choose|i: int|
                    #![trigger prefix[i]]
                    0 <= i < prefix.len() && prefix[i] is Send && sends(prefix.take(i)) + 1 == id;
                assert(prefix.take(i) =~= evs.take(i));
                assert(evs[i] == prefix[i]);
            } else {
                let last = evs.len() - 1;
                assert(evs.take(last) =~= prefix);
                assert(evs[last] is Send);
            }
        }
    }
}

/// On a new client, a request's response reaches the waiter it was sent with,
/// whatever else was sent or answered in between, as long as that response has
/// not already arrived and the numbers do not wrap.
pub proof fn lemma_each_request_gets_its_own_reply<T>(
    v: WorkerClientView<T>,
    evs: Seq<ClientEvent<T>>,
    j: int,
    k: int,
    waiter: T,
)
    requires
        is_new(v),
        sends(evs) < u64::MAX,
        0 <= j < k <= evs.len(),
        evs[j] == ClientEvent::Send(waiter),
        forall|m: int|
            j < m < k ==> evs[m] != ClientEvent::<T>::Answer((sends(evs.take(j)) + 1) as u64),
    ensures
        dispatched(after_events(v, evs.take(k)), (sends(evs.take(j)) + 1) as u64) == Some(waiter),
    decreases k - j,
{
    let id = (sends(evs.take(j)) + 1) as u64;
    lemma_sends_grow(evs, k, evs.len() as int);
    assert(evs.take(evs.len() as int) =~= evs);
    lemma_history_routes_every_response(v, evs.take(k));
    let p = evs.take(k);
    assert(p.drop_last() =~= evs.take(k - 1));
    if k == j + 1 {
        assert(p.last() == evs[j]);
    } else {
        lemma_each_request_gets_its_own_reply(v, evs, j, k - 1, waiter);
        lemma_history_routes_every_response(v, evs.take(k - 1));
        lemma_sends_grow(evs, j, k - 1);
        assert(p.last() == evs[k - 1]);
    }
}

impl<T> WorkerClient<T> {
    /// A client that has sent nothing yet; its first request is numbered 1.
    pub fn new() -> (c: Self)
        ensures
            c@.next_req_id == 1,
            c@.pending == Map::<u64, T>::empty(),
            c@.error is None,
    {
        WorkerClient { next_req_id: 1, pending: HashMap::new(), error: None }
    }

    /// Numbers a request and registers its waiter.
    ///
    /// The number is used up in any case. Once the worker has been lost, the
    /// request fails with the reason and nothing is registered.
    pub fn send_request(&mut self, payload: RequestPayload, waiter: T) -> (r: Result<Request, Error>)
        ensures
            final(self)@ == after_send(old(self)@, waiter),
            match (r, send_outcome(old(self)@)) {
                (Ok(req), Ok(id)) => req.req_id == id && req.payload == payload,
                (Err(e), Err(ev)) => e@ == ev,
                _ => false,
            },
    {
        let req_id = self.next_req_id;
        self.next_req_id = self.next_req_id.wrapping_add(1);
        match &self.error {
            Some(reason) => {
                return Err(
                    Error::ExecutionFailed(String::from_str("Worker error: ").concat(reason.as_str())),
                );
            },
            None => {},
        }
        self.pending.insert(req_id, waiter);
        Ok(Request { req_id, payload })
    }

    /// Hands a response to the waiter of the request it answers.
    ///
    /// A response that answers no outstanding request is dropped.
    pub fn dispatch_response(&mut self, response: Response) -> (r: Option<(T, ResponsePayload)>)
        ensures
            final(self)@ == after_dispatch(old(self)@, response.req_id),
            match (r, dispatched(old(self)@, response.req_id)) {
                (Some((w, p)), Some(v)) => w == v && p == response.payload,
                (None, None) => true,
                _ => false,
            },
    {
        let Response { req_id, payload } = response;
        match self.pending.remove(&req_id) {
            Some(waiter) => Some((waiter, payload)),
            None => None,
        }
    }

    /// Records that the worker was lost for `reason`, and hands every
    /// outstanding waiter its "Worker disconnected" reply.
    pub fn disconnect(&mut self, reason: &str) -> (r: Vec<(T, ResponsePayload)>)
        ensures
            final(self)@ == after_disconnect(old(self)@, reason@),
            r@.len() == old(self)@.pending.len(),
            exists|ids: Seq<u64>|
                {
                    &&& ids.no_duplicates()
                    &&& ids.to_set() == old(self)@.pending.dom()
                    &&& ids.len() == r@.len()
                    &&& forall|i: int|
                        0 <= i < r@.len() ==> {
                            &&& (#[trigger] r@[i]).0 == old(self)@.pending[ids[i]]
                            &&& r@[i].1@ == disconnected_reply()
                        }
                },
    {
        self.error = Some(String::from_str("IPC reader thread failed: ").concat(reason));
        let ids = self.pending_ids();
        let ghost old_pending = self.pending@;
        let ghost fixed = (self@.next_req_id, self@.error);
        let mut woken: Vec<(T, ResponsePayload)> = Vec::new();
        let n = ids.len();
        let mut i: usize = 0;
        while i < n
            invariant
                n == ids@.len(),
                i <= n,
                (self@.next_req_id, self@.error) == fixed,
                ids@.no_duplicates(),
                ids@.to_set() == old_pending.dom(),
                woken@.len() == i,
                forall|j: int|
                    0 <= j < i ==> {
                        &&& (#[trigger] woken@[j]).0 == old_pending[ids@[j]]
                        &&& woken@[j].1@ == disconnected_reply()
                    },
                forall|k: u64|
                    #![trigger self.pending@.contains_key(k)]
                    self.pending@.contains_key(k) <==> (old_pending.contains_key(k)
                        && !ids@.take(i as int).contains(k)),
                forall|k: u64|
                    self.pending@.contains_key(k) ==> #[trigger] self.pending@[k]
                        == old_pending[k],
            decreases n - i,
        {
            let id = ids[i];
            assert(ids@.to_set().contains(id));
            assert(!ids@.take(i as int).contains(id)) by {
                if ids@.take(i as int).contains(id) {
                    let j = choose|j: int| 0 <= j < i && #[trigger] ids@.take(i as int)[j] == id;
                    assert(ids@[j] == ids@[i as int]);
                }
            }
            let waiter = self.pending.remove(&id);
            match waiter {
                Some(w) => {
                    woken.push((w, ResponsePayload::Error(String::from_str("Worker disconnected"))));
                },
                None => {
                    assert(false);
                },
            }
            assert forall|k: u64| ids@.take(i + 1).contains(k) <==> (ids@.take(i as int).contains(k)
                || k == id) by {
                if ids@.take(i + 1).contains(k) {
                    let j = choose|j: int| 0 <= j < i + 1 && #[trigger] ids@.take(i + 1)[j] == k;
                    if j < i {
                        assert(ids@.take(i as int)[j] == k);
                    }
                }
                if ids@.take(i as int).contains(k) {
                    let j = choose|j: int| 0 <= j < i && #[trigger] ids@.take(i as int)[j] == k;
                    assert(ids@.take(i + 1)[j] == k);
                }
                if k == id {
                    assert(ids@.take(i + 1)[i as int] == k);
                }
            }
            i = i + 1;
        }
        assert(ids@.take(n as int) == ids@);
        proof {
            ids@.unique_seq_to_set();
        }
        assert(self.pending@ == Map::<u64, T>::empty());
        woken
    }

    /// The error a request reports when its answer never came.
    pub fn transport_error(&self) -> (e: Error)
        ensures
            e@ == ErrorView::ExecutionFailed(
                match self@.error {
                    Some(reason) => reason,
                    None => "Unknown IPC error"@,
                },
            ),
    {
        match &self.error {
            Some(reason) => Error::ExecutionFailed(reason.clone()),
            None => Error::ExecutionFailed(String::from_str("Unknown IPC error")),
        }
    }

    /// The identifiers of the outstanding requests, each once.
    fn pending_ids(&self) -> (r: Vec<u64>)
        ensures
            r@.no_duplicates(),
            r@.to_set() == self@.pending.dom(),
    {
        let ghost all = vstd::std_specs::hash::spec_keys_iter(&self.pending).remaining().unref();
        let mut ids: Vec<u64> = Vec::new();
        for k in it: self.pending.keys()
            invariant
                it.seq().unref() == all,
                ids@ == all.take(it.index() as int),
        {
            ids.push(*k);
        }
        assert(ids@ == all);
        ids
    }
}

} // verus!
