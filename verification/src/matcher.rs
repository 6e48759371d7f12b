//! Rpc requests that are on their way and wait for a response: one table per
//! peer, keyed by request id.

use vstd::prelude::*;
use std::collections::HashMap;
use std::sync::Arc;
use crate::channel::{
    arc_clone,
    fill_slot,
    guarded,
    mutex_lock,
    mutex_new,
    CompletionSender,
    RpcResult,
};
use crate::identity::{NetworkId, RoleType};
use crate::protocol::ProtocolId;
use crate::wire::RequestId;

verus! {

/// A point in time, or a span, in nanoseconds of the caller's monotonic clock.
pub type Nanos = u64;

/// What is kept of an rpc while it waits: the slot that its response goes
/// to, and what is reported when it ends.
#[derive(Debug)]
pub struct OpenRpcRequestState {
    pub sender: CompletionSender,
    pub protocol_id: ProtocolId,
    pub started: Nanos,
    pub deadline: Nanos,
    pub network_id: NetworkId,
    pub role_type: RoleType,
}

/// How handing a response to the table ended.
#[derive(Clone, Copy, Debug, PartialEq, Eq, Structural)]
pub enum Completion {
    /// The waiting caller has the response.
    Delivered,
    /// The request was open, but its caller had stopped waiting.
    Abandoned,
    /// No request with this id is open; the response was dropped.
    Unmatched,
}

/// The open requests of one peer.
#[derive(Debug)]
pub struct RpcTable {
    open: HashMap<RequestId, OpenRpcRequestState>,
}

impl View for RpcTable {
    type V = Map<RequestId, OpenRpcRequestState>;

    closed spec fn view(&self) -> Map<RequestId, OpenRpcRequestState> {
        self.open@
    }
}

impl RpcTable {
    pub fn new() -> (r: Self)
        ensures
            r@ == Map::<RequestId, OpenRpcRequestState>::empty(),
    {
        RpcTable { open: HashMap::new() }
    }

    pub fn len(&self) -> (r: usize)
        ensures
            r == self@.len(),
            self@.dom().finite(),
    {
        self.open.len()
    }

    pub fn contains(&self, request_id: RequestId) -> (r: bool)
        ensures
            r == self@.contains_key(request_id),
    {
        self.open.contains_key(&request_id)
    }

    /// Opens a request. An entry that was open under the same id is
    /// replaced and handed back.
    pub fn insert(&mut self, request_id: RequestId, state: OpenRpcRequestState) -> (r: Option<
        OpenRpcRequestState,
    >)
        ensures
            final(self)@ == old(self)@.insert(request_id, state),
            r == (if old(self)@.contains_key(request_id) {
                Some(old(self)@[request_id])
            } else {
                None
            }),
    {
        self.open.insert(request_id, state)
    }

    /// Closes a request without a response, and hands its entry over.
    pub fn remove(&mut self, request_id: RequestId) -> (r: Option<OpenRpcRequestState>)
        ensures
            final(self)@ == old(self)@.remove(request_id),
            r == (if old(self)@.contains_key(request_id) {
                Some(old(self)@[request_id])
            } else {
                None
            }),
    {
        self.open.remove(&request_id)
    }

    /// Hands `response` to the request open under `request_id` and closes
    /// it. With no such request the response is dropped and nothing changes.
    pub fn complete(&mut self, request_id: RequestId, response: RpcResult) -> (r: Completion)
        ensures
            final(self)@ == old(self)@.remove(request_id),
            r is Unmatched <==> !old(self)@.contains_key(request_id),
    {
        match self.open.remove(&request_id) {
            None => Completion::Unmatched,
            Some(state) => completion_of(fill_slot(state.sender, response)),
        }
    }
}

/// What a filled or refused slot means for the response that went to it.
pub fn completion_of(filled: Result<(), RpcResult>) -> (r: Completion)
    ensures
        r == (if filled is Ok {
            Completion::Delivered
        } else {
            Completion::Abandoned
        }),
{
    match filled {
        Ok(()) => Completion::Delivered,
        Err(_) => Completion::Abandoned,
    }
}

/// A request that is closed, by a response, by its deadline or because its
/// connection went away, is closed for good: a response that comes for it
/// afterwards meets no entry and leaves the table as it is.
pub proof fn closed_request_stays_closed(
    table: Map<RequestId, OpenRpcRequestState>,
    request_id: RequestId,
)
    ensures
        !table.remove(request_id).contains_key(request_id),
        table.remove(request_id).remove(request_id) == table.remove(request_id),
{
}

/// The handle on a peer's table of open requests. Every clone of a peer's
/// send handle holds the same table, and so does the task that reads the
/// peer's responses; the table is behind a lock, and what it holds at any
/// moment depends on all of them.
#[derive(Debug)]
pub struct OutboundRpcMatcher {
    table: Arc<std::sync::Mutex<RpcTable>>,
}

impl OutboundRpcMatcher {
    pub fn new() -> Self {
        OutboundRpcMatcher { table: Arc::new(mutex_new(RpcTable::new())) }
    }

    /// Waits for the table's lock; `None` when the lock is poisoned. Whoever
    /// holds the lock lets go of it before asking again.
    pub(crate) fn lock(&self) -> Option<std::sync::MutexGuard<'_, RpcTable>> {
        mutex_lock(&self.table)
    }

    /// Another handle on the same table.
    pub fn share(&self) -> (r: Self)
        ensures
            r == *self,
    {
        OutboundRpcMatcher { table: arc_clone(&self.table) }
    }

    /// Opens a request under `request_id`; see `RpcTable::insert`. `false`
    /// when the table's lock is poisoned: then nothing was opened.
    pub fn insert(
        &self,
        request_id: RequestId,
        sender: CompletionSender,
        protocol_id: ProtocolId,
        started: Nanos,
        deadline: Nanos,
        network_id: NetworkId,
        role_type: RoleType,
    ) -> bool {
        match mutex_lock(&self.table) {
            Some(mut guard) => {
                let table = guarded(&mut guard);
                table.insert(
                    request_id,
                    OpenRpcRequestState {
                        sender,
                        protocol_id,
                        started,
                        deadline,
                        network_id,
                        role_type,
                    },
                );
                true
            },
            None => false,
        }
    }

    /// Closes a request without a response; see `RpcTable::remove`.
    pub fn remove(&self, request_id: &RequestId) -> Option<OpenRpcRequestState> {
        match mutex_lock(&self.table) {
            Some(mut guard) => {
                let table = guarded(&mut guard);
                table.remove(*request_id)
            },
            None => None,
        }
    }

    /// Hands a response to the request it answers; see `RpcTable::complete`.
    /// With a poisoned lock the response is dropped as unmatched.
    pub fn complete(&self, request_id: RequestId, response: RpcResult) -> Completion {
        match mutex_lock(&self.table) {
            Some(mut guard) => {
                let table = guarded(&mut guard);
                table.complete(request_id, response)
            },
            None => Completion::Unmatched,
        }
    }

    /// Whether a request is open under `request_id` at this moment.
    pub fn contains(&self, request_id: RequestId) -> bool {
        match mutex_lock(&self.table) {
            Some(mut guard) => {
                let table = guarded(&mut guard);
                table.contains(request_id)
            },
            None => false,
        }
    }
}

} // verus!
