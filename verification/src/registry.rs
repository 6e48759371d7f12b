//! The table of connected peers: which peers this node can send to, and
//! through which channels. Every change of the table moves its generation
//! on, so that whoever holds a copy can tell cheaply whether it is stale.

use vstd::prelude::*;
use std::sync::atomic::AtomicU32;
use std::sync::Arc;
use crate::channel::{arc_clone, PeerChannel};
use crate::closer::Closer;
use crate::identity::PeerNetworkId;
use crate::matcher::OutboundRpcMatcher;

verus! {

/// What is needed to send to one peer: its two bounded outbound queues, the
/// counter that numbers its rpc requests, the table of its open requests and
/// the latch of its connection.
#[derive(Debug)]
pub struct PeerStub {
    /// The queue that the peer's write task drains.
    pub sender: PeerChannel,
    /// The queue for traffic that must not wait behind the rest.
    pub sender_high_prio: PeerChannel,
    pub rpc_counter: Arc<AtomicU32>,
    pub close: Closer,
    pub open_outbound_rpc: OutboundRpcMatcher,
}

impl PeerStub {
    pub fn new(
        sender: PeerChannel,
        sender_high_prio: PeerChannel,
        open_outbound_rpc: OutboundRpcMatcher,
        close: Closer,
    ) -> (r: Self)
        ensures
            r.sender == sender,
            r.sender_high_prio == sender_high_prio,
            r.open_outbound_rpc == open_outbound_rpc,
            r.close == close,
    {
        PeerStub {
            sender,
            sender_high_prio,
            rpc_counter: Arc::new(AtomicU32::new(0)),
            close,
            open_outbound_rpc,
        }
    }
}

impl Clone for PeerStub {
    /// Another handle on the same peer: it feeds the same queues, draws
    /// request ids from the same counter and sees the same open requests.
    fn clone(&self) -> (r: Self)
        ensures
            r.rpc_counter == self.rpc_counter,
            r.open_outbound_rpc == self.open_outbound_rpc,
            r.close.wat == self.close.wat,
    {
        PeerStub {
            sender: self.sender.clone(),
            sender_high_prio: self.sender_high_prio.clone(),
            rpc_counter: arc_clone(&self.rpc_counter),
            close: self.close.clone(),
            open_outbound_rpc: self.open_outbound_rpc.share(),
        }
    }
}

#[derive(Debug)]
struct PeerEntry {
    key: PeerNetworkId,
    stub: Arc<PeerStub>,
}

spec fn keys_distinct(entries: Seq<PeerEntry>) -> bool {
    forall|i: int, j: int|
        0 <= i < j < entries.len() ==> (#[trigger] entries[i]).key != (#[trigger] entries[j]).key
}

spec fn has_key(entries: Seq<PeerEntry>, key: PeerNetworkId) -> bool {
    exists|i: int| 0 <= i < entries.len() && (#[trigger] entries[i]).key == key
}

spec fn index_of(entries: Seq<PeerEntry>, key: PeerNetworkId) -> int {
    choose|i: int| 0 <= i < entries.len() && (#[trigger] entries[i]).key == key
}

spec fn table_of(entries: Seq<PeerEntry>) -> Map<PeerNetworkId, PeerStub> {
    Map::new(
        |key: PeerNetworkId| has_key(entries, key),
        |key: PeerNetworkId| *entries[index_of(entries, key)].stub,
    )
}

proof fn entry_is_mapped(entries: Seq<PeerEntry>, i: int)
    requires
        keys_distinct(entries),
        0 <= i < entries.len(),
    ensures
        has_key(entries, entries[i].key),
        index_of(entries, entries[i].key) == i,
        table_of(entries).contains_key(entries[i].key),
        table_of(entries)[entries[i].key] == *entries[i].stub,
{
    let j = index_of(entries, entries[i].key);
    assert(0 <= j < entries.len() && entries[j].key == entries[i].key);
}

/// A map from peers to their send handles. A copy shares the handles: both
/// lead to the same channels.
#[derive(Debug)]
pub struct PeerTable {
    entries: Vec<PeerEntry>,
}

impl View for PeerTable {
    type V = Map<PeerNetworkId, PeerStub>;

    closed spec fn view(&self) -> Map<PeerNetworkId, PeerStub> {
        table_of(self.entries@)
    }
}

impl PeerTable {
    #[verifier::type_invariant]
    spec fn no_peer_twice(&self) -> bool {
        keys_distinct(self.entries@)
    }

    pub fn new() -> (r: Self)
        ensures
            r@ == Map::<PeerNetworkId, PeerStub>::empty(),
    {
        let r = PeerTable { entries: Vec::new() };
        assert(r@ =~= Map::<PeerNetworkId, PeerStub>::empty());
        r
    }

    fn position(&self, key: &PeerNetworkId) -> (r: Option<usize>)
        ensures
            match r {
                Some(i) => i < self.entries.len() && self.entries@[i as int].key == *key,
                None => !has_key(self.entries@, *key),
            },
    {
        let mut i: usize = 0;
        while i < self.entries.len()
            invariant
                i <= self.entries.len(),
                forall|j: int| 0 <= j < i ==> (#[trigger] self.entries@[j]).key != *key,
            decreases self.entries.len() - i,
        {
            if self.entries[i].key == *key {
                return Some(i);
            }
            i = i + 1;
        }
        None
    }

    pub fn contains_key(&self, key: &PeerNetworkId) -> (r: bool)
        ensures
            r == self@.contains_key(*key),
    {
        match self.position(key) {
            Some(i) => {
                proof {
                    use_type_invariant(self);
                    entry_is_mapped(self.entries@, i as int);
                }
                true
            },
            None => false,
        }
    }

    /// The handle of `key`, if the table has one.
    pub fn get(&self, key: &PeerNetworkId) -> (r: Option<&PeerStub>)
        ensures
            match r {
                Some(stub) => self@.contains_key(*key) && *stub == self@[*key],
                None => !self@.contains_key(*key),
            },
    {
        match self.position(key) {
            Some(i) => {
                proof {
                    use_type_invariant(self);
                    entry_is_mapped(self.entries@, i as int);
                }
                Some(&*self.entries[i].stub)
            },
            None => None,
        }
    }

    /// The handle of `key` to keep, if the table has one.
    pub fn get_shared(&self, key: &PeerNetworkId) -> (r: Option<Arc<PeerStub>>)
        ensures
            match r {
                Some(stub) => self@.contains_key(*key) && *stub == self@[*key],
                None => !self@.contains_key(*key),
            },
    {
        match self.position(key) {
            Some(i) => {
                proof {
                    use_type_invariant(self);
                    entry_is_mapped(self.entries@, i as int);
                }
                Some(arc_clone(&self.entries[i].stub))
            },
            None => None,
        }
    }

    /// Sets the handle of `key`, in place of the one it had, if any.
    pub fn insert(&mut self, key: PeerNetworkId, stub: Arc<PeerStub>)
        ensures
            final(self)@ == old(self)@.insert(key, *stub),
    {
        proof {
            use_type_invariant(&*self);
        }
        let ghost before = self.entries@;
        let found = self.position(&key);
        let mut entries: Vec<PeerEntry> = Vec::new();
        std::mem::swap(&mut self.entries, &mut entries);
        match found {
            Some(i) => {
                entries[i] = PeerEntry { key, stub };
                let ghost after = entries@;
                proof {
                    assert(after == before.update(i as int, PeerEntry { key, stub }));
                    assert forall|j: int| 0 <= j < after.len() implies (#[trigger] after[j]).key
                        == before[j].key by {}
                    assert(keys_distinct(after));
                    assert forall|k: PeerNetworkId| has_key(after, k) == has_key(before, k) by {
                        if has_key(before, k) {
                            let j = index_of(before, k);
                            assert(after[j].key == k);
                        }
                        if has_key(after, k) {
                            let j = index_of(after, k);
                            assert(before[j].key == k);
                        }
                    }
                    assert forall|k: PeerNetworkId| has_key(after, k) implies table_of(after)[k]
                        == table_of(before).insert(key, *stub)[k] by {
                        let j = index_of(after, k);
                        entry_is_mapped(after, j);
                        entry_is_mapped(before, j);
                    }
                    assert(table_of(after) =~= table_of(before).insert(key, *stub));
                }
            },
            None => {
                entries.push(PeerEntry { key, stub });
                let ghost after = entries@;
                proof {
                    assert(after == before.push(PeerEntry { key, stub }));
                    assert(keys_distinct(after)) by {
                        assert forall|i: int, j: int| 0 <= i < j < after.len() implies (
                        #[trigger] after[i]).key != (#[trigger] after[j]).key by {
                            if j < before.len() {
                                assert(before[i].key != before[j].key);
                            } else {
                                assert(before[i].key != key);
                            }
                        }
                    }
                    assert forall|k: PeerNetworkId|
                        has_key(after, k) == (has_key(before, k) || k == key) by {
                        if has_key(before, k) {
                            let j = index_of(before, k);
                            assert(after[j].key == k);
                        }
                        if k == key {
                            assert(after[before.len() as int].key == k);
                        }
                        if has_key(after, k) {
                            let j = index_of(after, k);
                            if j < before.len() {
                                assert(before[j].key == k);
                            }
                        }
                    }
                    assert forall|k: PeerNetworkId| has_key(after, k) implies table_of(after)[k]
                        == table_of(before).insert(key, *stub)[k] by {
                        let j = index_of(after, k);
                        entry_is_mapped(after, j);
                        if j < before.len() {
                            entry_is_mapped(before, j);
                        }
                    }
                    assert(table_of(after) =~= table_of(before).insert(key, *stub));
                }
            },
        }
        self.entries = entries;
    }

    /// Takes `key` out of the table, if it is there.
    pub fn remove(&mut self, key: &PeerNetworkId)
        ensures
            final(self)@ == old(self)@.remove(*key),
    {
        proof {
            use_type_invariant(&*self);
        }
        let ghost before = self.entries@;
        let found = self.position(key);
        let mut entries: Vec<PeerEntry> = Vec::new();
        std::mem::swap(&mut self.entries, &mut entries);
        match found {
            Some(i) => {
                entries.remove(i);
                let ghost after = entries@;
                proof {
                    assert(after == before.remove(i as int));
                    assert forall|j: int| 0 <= j < after.len() implies #[trigger] after[j] == (if j
                        < i {
                        before[j]
                    } else {
                        before[j + 1]
                    }) by {}
                    assert(keys_distinct(after)) by {
                        assert forall|a: int, b: int| 0 <= a < b < after.len() implies (
                        #[trigger] after[a]).key != (#[trigger] after[b]).key by {
                            let a0 = if a < i { a } else { a + 1 };
                            let b0 = if b < i { b } else { b + 1 };
                            assert(before[a0].key != before[b0].key);
                        }
                    }
                    assert forall|k: PeerNetworkId|
                        has_key(after, k) == (has_key(before, k) && k != *key) by {
                        if has_key(before, k) && k != *key {
                            let j = index_of(before, k);
                            let j1 = if j < i { j } else { j - 1 };
                            assert(after[j1].key == k);
                        }
                        if has_key(after, k) {
                            let j = index_of(after, k);
                            let j0 = if j < i { j } else { j + 1 };
                            assert(before[j0].key == k);
                            assert(before[i as int].key == *key);
                        }
                    }
                    assert forall|k: PeerNetworkId| has_key(after, k) implies table_of(after)[k]
                        == table_of(before).remove(*key)[k] by {
                        let j = index_of(after, k);
                        let j0 = if j < i { j } else { j + 1 };
                        entry_is_mapped(after, j);
                        entry_is_mapped(before, j0);
                    }
                    assert(table_of(after) =~= table_of(before).remove(*key));
                }
            },
            None => {
                assert(table_of(before) =~= table_of(before).remove(*key));
            },
        }
        self.entries = entries;
    }

    /// A copy of the table that shares its handles.
    pub fn snapshot(&self) -> (r: Self)
        ensures
            r@ == self@,
    {
        proof {
            use_type_invariant(self);
        }
        let mut copy: Vec<PeerEntry> = Vec::new();
        let mut i: usize = 0;
        while i < self.entries.len()
            invariant
                i <= self.entries.len(),
                copy@ == self.entries@.take(i as int),
            decreases self.entries.len() - i,
        {
            let entry = PeerEntry { key: self.entries[i].key, stub: arc_clone(&self.entries[i].stub) };
            assert(entry == self.entries@[i as int]);
            copy.push(entry);
            i = i + 1;
            assert(self.entries@.take(i as int) == self.entries@.take(i - 1).push(
                self.entries@[i - 1],
            ));
        }
        assert(self.entries@.take(self.entries.len() as int) == self.entries@);
        PeerTable { entries: copy }
    }
}


/// The registry as a mathematical value: who is connected, and how often
/// that has changed.
pub struct RegistryState {
    pub peers: Map<PeerNetworkId, PeerStub>,
    pub generation: u32,
}

/// One change of the registry.
pub enum RegistryChange {
    Insert { peer: PeerNetworkId, stub: PeerStub },
    Remove { peer: PeerNetworkId },
}

/// The generation after `generation`: one more, and 0 after the largest.
pub open spec fn next_generation(generation: u32) -> u32 {
    if generation == u32::MAX {
        0
    } else {
        (generation + 1) as u32
    }
}

impl RegistryState {
    pub open spec fn fresh() -> RegistryState {
        RegistryState { peers: Map::empty(), generation: 0 }
    }

    pub open spec fn insert(self, peer: PeerNetworkId, stub: PeerStub) -> RegistryState {
        RegistryState {
            peers: self.peers.insert(peer, stub),
            generation: next_generation(self.generation),
        }
    }

    pub open spec fn remove(self, peer: PeerNetworkId) -> RegistryState {
        RegistryState {
            peers: self.peers.remove(peer),
            generation: next_generation(self.generation),
        }
    }

    pub open spec fn apply(self, change: RegistryChange) -> RegistryState {
        match change {
            RegistryChange::Insert { peer, stub } => self.insert(peer, stub),
            RegistryChange::Remove { peer } => self.remove(peer),
        }
    }

    /// The registry after `changes`, made in order.
    pub open spec fn after(self, changes: Seq<RegistryChange>) -> RegistryState
        decreases changes.len(),
    {
        if changes.len() == 0 {
            self
        } else {
            self.after(changes.drop_last()).apply(changes.last())
        }
    }

    /// What a holder of a copy taken at generation `known` gets when asking
    /// for news: nothing if that is the current generation, else the peers
    /// and the generation of now.
    pub open spec fn snapshot_if_stale(self, known: u32) -> Option<
        (Map<PeerNetworkId, PeerStub>, u32),
    > {
        if known == self.generation {
            None
        } else {
            Some((self.peers, self.generation))
        }
    }
}

/// Container for the map from peers to their outbound channels, with a
/// generation counter for a fast path when nothing has changed.
#[derive(Debug)]
pub struct OutboundPeerConnections {
    peer_connections: PeerTable,
    generation: u32,
}

impl View for OutboundPeerConnections {
    type V = RegistryState;

    closed spec fn view(&self) -> RegistryState {
        RegistryState { peers: self.peer_connections@, generation: self.generation }
    }
}

impl OutboundPeerConnections {
    pub fn new() -> (r: Self)
        ensures
            r@ == RegistryState::fresh(),
    {
        OutboundPeerConnections { peer_connections: PeerTable::new(), generation: 0 }
    }

    /// The current generation.
    pub fn generation(&self) -> (r: u32)
        ensures
            r == self@.generation,
    {
        self.generation
    }

    /// Pass in a generation number: if it is stale, get a copy of the peer
    /// map and the current generation, otherwise `None`.
    pub fn get_generational(&self, generation: u32) -> (r: Option<(PeerTable, u32)>)
        ensures
            match r {
                Some((peers, current)) => self@.snapshot_if_stale(generation) == Some(
                    (peers@, current),
                ),
                None => self@.snapshot_if_stale(generation) is None,
            },
    {
        if generation == self.generation {
            return None;
        }
        let out = self.peer_connections.snapshot();
        Some((out, self.generation))
    }

    /// Sets the handle of a peer, in place of the one it had, if any.
    /// Returns the new generation.
    pub fn insert(&mut self, peer_network_id: PeerNetworkId, peer: PeerStub) -> (r: u32)
        ensures
            final(self)@ == old(self)@.insert(peer_network_id, peer),
            r == final(self)@.generation,
    {
        self.peer_connections.insert(peer_network_id, Arc::new(peer));
        self.generation = if self.generation == u32::MAX {
            0
        } else {
            self.generation + 1
        };
        self.generation
    }

    /// Takes a peer out, if it is there. Returns the new generation.
    pub fn remove(&mut self, peer_network_id: &PeerNetworkId) -> (r: u32)
        ensures
            final(self)@ == old(self)@.remove(*peer_network_id),
            r == final(self)@.generation,
    {
        self.peer_connections.remove(peer_network_id);
        self.generation = if self.generation == u32::MAX {
            0
        } else {
            self.generation + 1
        };
        self.generation
    }
}

impl Default for OutboundPeerConnections {
    fn default() -> (r: Self)
        ensures
            r@ == RegistryState::fresh(),
    {
        OutboundPeerConnections::new()
    }
}

/// As long as the counter does not run over, every change moves the
/// generation on by one: after `changes` it is larger by their number.
pub proof fn generation_counts_changes(state: RegistryState, changes: Seq<RegistryChange>)
    requires
        state.generation + changes.len() <= u32::MAX,
    ensures
        state.after(changes).generation == state.generation + changes.len(),
    decreases changes.len(),
{
    if changes.len() > 0 {
        generation_counts_changes(state, changes.drop_last());
    }
}

/// As long as the counter does not run over, the generation is strictly
/// increasing along any sequence of inserts and removes: of two points in
/// the sequence the later one has the larger generation.
pub proof fn generation_strictly_increases(
    state: RegistryState,
    changes: Seq<RegistryChange>,
    earlier: int,
    later: int,
)
    requires
        state.generation + changes.len() <= u32::MAX,
        0 <= earlier < later <= changes.len(),
    ensures
        state.after(changes.take(earlier)).generation < state.after(
            changes.take(later),
        ).generation,
{
    generation_counts_changes(state, changes.take(earlier));
    generation_counts_changes(state, changes.take(later));
}

/// Who asks with the generation last observed gets `None`; who asks with
/// the generation of any earlier point of the sequence gets the peers and
/// the generation of now (as long as the counter does not run over).
pub proof fn snapshot_tells_stale_from_current(
    state: RegistryState,
    changes: Seq<RegistryChange>,
    earlier: int,
)
    requires
        state.generation + changes.len() <= u32::MAX,
        0 <= earlier < changes.len(),
    ensures
        ({
            let now = state.after(changes);
            let then = state.after(changes.take(earlier));
            &&& now.snapshot_if_stale(now.generation) is None
            &&& now.snapshot_if_stale(then.generation) == Some((now.peers, now.generation))
        }),
{
    assert(changes.take(changes.len() as int) == changes);
    generation_strictly_increases(state, changes, earlier, changes.len() as int);
}

} // verus!
