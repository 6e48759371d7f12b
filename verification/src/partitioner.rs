//! Preparing a block of transactions for sharded execution: every sender and
//! every storage key gets a dense index, and for every key it is recorded
//! which transactions read it and which write it.

use vstd::prelude::*;
use std::collections::HashSet;
use crate::identity::PeerId;

verus! {

pub type ShardId = usize;

pub type PrePartitionedTxnIdx = usize;

pub type SenderIdx = usize;

pub type StorageKeyIdx = usize;

/// A storage location, by the number that identifies it.
#[derive(Clone, Copy, Debug, PartialEq, Eq, Hash, Structural)]
pub struct StateKey {
    pub id: u64,
}

/// A transaction with the storage locations it is expected to touch.
#[derive(Debug)]
pub struct AnalyzedTransaction {
    pub sender: PeerId,
    pub read_hints: Vec<StateKey>,
    pub write_hints: Vec<StateKey>,
}

/// For one storage location: the shard it is anchored to and the
/// transactions that may conflict on it.
#[derive(Debug)]
pub struct ConflictingTxnTracker {
    pub storage_location: StateKey,
    pub anchor_shard_id: ShardId,
    pub pending_reads: HashSet<PrePartitionedTxnIdx>,
    pub pending_writes: HashSet<PrePartitionedTxnIdx>,
}

/// What the partitioner works on. `sender_idx_table` and `key_idx_table` map
/// an index to the sender or key it stands for; `trackers` is indexed like
/// `key_idx_table`.
#[derive(Debug)]
pub struct PartitionState {
    pub num_executor_shards: usize,
    pub txns: Vec<AnalyzedTransaction>,
    pub sender_idxs: Vec<Option<SenderIdx>>,
    pub read_sets: Vec<HashSet<StorageKeyIdx>>,
    pub write_sets: Vec<HashSet<StorageKeyIdx>>,
    pub sender_idx_table: Vec<PeerId>,
    pub key_idx_table: Vec<StateKey>,
    pub trackers: Vec<ConflictingTxnTracker>,
}

pub struct PartitionerV2 {}

/// The shard a storage location is anchored to.
pub open spec fn anchor_shard(key: StateKey, num_executor_shards: usize) -> int {
    key.id as int % num_executor_shards as int
}

pub fn get_anchor_shard_id(storage_location: &StateKey, num_executor_shards: usize) -> (r: ShardId)
    requires
        num_executor_shards > 0,
    ensures
        r == anchor_shard(*storage_location, num_executor_shards),
        r < num_executor_shards,
{
    let shards: u64 = num_executor_shards as u64;
    let r: u64 = storage_location.id % shards;
    r as usize
}

/// No value occurs twice in `s`.
pub open spec fn distinct<T>(s: Seq<T>) -> bool {
    forall|i: int, j: int| 0 <= i < j < s.len() ==> s[i] != s[j]
}

/// Whether transaction `txn` names `key` among its read hints (`is_write`
/// false) or its write hints (`is_write` true).
pub open spec fn hints_at(txn: AnalyzedTransaction, key: StateKey, is_write: bool) -> bool {
    if is_write {
        txn.write_hints@.contains(key)
    } else {
        txn.read_hints@.contains(key)
    }
}

/// The accesses recorded once the transactions before `done` are through,
/// together with the first `reads` read hints and the first `writes` write
/// hints of transaction `done`.
pub open spec fn recorded(
    txns: Seq<AnalyzedTransaction>,
    done: int,
    reads: int,
    writes: int,
    i: int,
    key: StateKey,
    is_write: bool,
) -> bool {
    ||| 0 <= i < done && i < txns.len() && hints_at(txns[i], key, is_write)
    ||| i == done && 0 <= i < txns.len() && !is_write && txns[i].read_hints@.take(reads).contains(
        key,
    )
    ||| i == done && 0 <= i < txns.len() && is_write && txns[i].write_hints@.take(
        writes,
    ).contains(key)
}

/// Whether one of the transactions before `done` was sent by `sender`.
pub open spec fn sent_before(txns: Seq<AnalyzedTransaction>, done: int, sender: PeerId) -> bool {
    exists|i: int| 0 <= i < txns.len() && i < done && (#[trigger] txns[i]).sender == sender
}

/// Whether one of the accesses `recorded` at this point is to `key`.
pub open spec fn touched(
    txns: Seq<AnalyzedTransaction>,
    done: int,
    reads: int,
    writes: int,
    key: StateKey,
) -> bool {
    exists|i: int, w: bool| recorded(txns, done, reads, writes, i, key, w)
}

impl ConflictingTxnTracker {
    pub fn new(storage_location: StateKey, anchor_shard_id: ShardId) -> (r: Self)
        ensures
            r.storage_location == storage_location,
            r.anchor_shard_id == anchor_shard_id,
            r.pending_reads@ == Set::<usize>::empty(),
            r.pending_writes@ == Set::<usize>::empty(),
    {
        ConflictingTxnTracker {
            storage_location,
            anchor_shard_id,
            pending_reads: HashSet::new(),
            pending_writes: HashSet::new(),
        }
    }

    /// Notes that transaction `txn_idx` reads this location.
    pub fn add_read_candidate(&mut self, txn_idx: PrePartitionedTxnIdx)
        ensures
            final(self).pending_reads@ == old(self).pending_reads@.insert(txn_idx),
            final(self).pending_writes == old(self).pending_writes,
            final(self).storage_location == old(self).storage_location,
            final(self).anchor_shard_id == old(self).anchor_shard_id,
    {
        let _ = self.pending_reads.insert(txn_idx);
    }

    /// Notes that transaction `txn_idx` writes this location.
    pub fn add_write_candidate(&mut self, txn_idx: PrePartitionedTxnIdx)
        ensures
            final(self).pending_writes@ == old(self).pending_writes@.insert(txn_idx),
            final(self).pending_reads == old(self).pending_reads,
            final(self).storage_location == old(self).storage_location,
            final(self).anchor_shard_id == old(self).anchor_shard_id,
    {
        let _ = self.pending_writes.insert(txn_idx);
    }
}

/// The index of `key` in `table`, if it is there.
fn find_key(table: &Vec<StateKey>, key: StateKey) -> (r: Option<usize>)
    ensures
        match r {
            Some(k) => k < table.len() && table@[k as int] == key,
            None => !table@.contains(key),
        },
{
    let mut k: usize = 0;
    while k < table.len()
        invariant
            k <= table.len(),
            forall|j: int| 0 <= j < k ==> table@[j] != key,
        decreases table.len() - k,
    {
        if table[k] == key {
            return Some(k);
        }
        k = k + 1;
    }
    None
}

/// The index of `sender` in `table`, if it is there.
fn find_sender(table: &Vec<PeerId>, sender: PeerId) -> (r: Option<usize>)
    ensures
        match r {
            Some(s) => s < table.len() && table@[s as int] == sender,
            None => !table@.contains(sender),
        },
{
    let mut s: usize = 0;
    while s < table.len()
        invariant
            s <= table.len(),
            forall|j: int| 0 <= j < s ==> table@[j] != sender,
        decreases table.len() - s,
    {
        if table[s] == sender {
            return Some(s);
        }
        s = s + 1;
    }
    None
}

impl PartitionState {
    /// A state over `txns` in which nothing has been recorded yet.
    pub fn new(txns: Vec<AnalyzedTransaction>, num_executor_shards: usize) -> (r: Self)
        requires
            num_executor_shards > 0,
        ensures
            r.txns == txns,
            r.num_executor_shards == num_executor_shards,
            r.fresh(),
    {
        let n = txns.len();
        let mut sender_idxs: Vec<Option<SenderIdx>> = Vec::new();
        let mut read_sets: Vec<HashSet<StorageKeyIdx>> = Vec::new();
        let mut write_sets: Vec<HashSet<StorageKeyIdx>> = Vec::new();
        let mut i: usize = 0;
        while i < n
            invariant
                i <= n,
                sender_idxs.len() == i,
                read_sets.len() == i,
                write_sets.len() == i,
                forall|j: int| 0 <= j < i ==> sender_idxs@[j] is None,
                forall|j: int| 0 <= j < i ==> read_sets@[j]@ == Set::<usize>::empty(),
                forall|j: int| 0 <= j < i ==> write_sets@[j]@ == Set::<usize>::empty(),
            decreases n - i,
        {
            sender_idxs.push(None);
            read_sets.push(HashSet::new());
            write_sets.push(HashSet::new());
            i = i + 1;
        }
        PartitionState {
            num_executor_shards,
            txns,
            sender_idxs,
            read_sets,
            write_sets,
            sender_idx_table: Vec::new(),
            key_idx_table: Vec::new(),
            trackers: Vec::new(),
        }
    }

    pub fn num_txns(&self) -> (r: usize)
        ensures
            r == self.txns.len(),
    {
        self.txns.len()
    }

    /// Nothing has been recorded: no sender and no key has an index, and
    /// every transaction has its slot, still empty.
    pub open spec fn fresh(&self) -> bool {
        &&& self.num_executor_shards > 0
        &&& self.sender_idxs.len() == self.txns.len()
        &&& self.read_sets.len() == self.txns.len()
        &&& self.write_sets.len() == self.txns.len()
        &&& self.sender_idx_table.len() == 0
        &&& self.key_idx_table.len() == 0
        &&& self.trackers.len() == 0
        &&& forall|i: int| 0 <= i < self.txns.len() ==> self.sender_idxs@[i] is None
        &&& forall|i: int|
            0 <= i < self.txns.len() ==> (#[trigger] self.read_sets@[i])@ == Set::<usize>::empty()
        &&& forall|i: int|
            0 <= i < self.txns.len() ==> (#[trigger] self.write_sets@[i])@ == Set::<usize>::empty()
    }

    /// The shape every state keeps: one slot per transaction, one tracker per
    /// key, and no sender or key with two indices.
    pub open spec fn shaped(&self) -> bool {
        &&& self.num_executor_shards > 0
        &&& self.sender_idxs.len() == self.txns.len()
        &&& self.read_sets.len() == self.txns.len()
        &&& self.write_sets.len() == self.txns.len()
        &&& self.trackers.len() == self.key_idx_table.len()
        &&& distinct(self.sender_idx_table@)
        &&& distinct(self.key_idx_table@)
    }

    /// The transactions before `done` have their sender's index, the others
    /// have none yet, and every sender with an index sent one of the former.
    pub open spec fn senders_hold(&self, done: int) -> bool {
        &&& forall|i: int|
            0 <= i < self.txns.len() && i < done ==> (#[trigger] self.sender_idxs@[i] matches Some(
                s,
            ) && s < self.sender_idx_table.len() && self.sender_idx_table@[s as int]
                == self.txns@[i].sender)
        &&& forall|i: int|
            0 <= i < self.txns.len() && i >= done ==> #[trigger] self.sender_idxs@[i] is None
        &&& forall|s: int|
            0 <= s < self.sender_idx_table.len() ==> sent_before(
                self.txns@,
                done,
                #[trigger] self.sender_idx_table@[s],
            )
    }

    /// The read and write sets and the trackers hold exactly the accesses
    /// `recorded` at this point, and the keys with an index are exactly
    /// those of these accesses.
    pub open spec fn keys_hold(&self, done: int, reads: int, writes: int) -> bool {
        let txns = self.txns@;
        let keys = self.key_idx_table@;
        &&& forall|i: int, k: usize|
            0 <= i < txns.len() ==> (#[trigger] self.read_sets@[i]@.contains(k) <==> (k
                < keys.len() && recorded(txns, done, reads, writes, i, keys[k as int], false)))
        &&& forall|i: int, k: usize|
            0 <= i < txns.len() ==> (#[trigger] self.write_sets@[i]@.contains(k) <==> (k
                < keys.len() && recorded(txns, done, reads, writes, i, keys[k as int], true)))
        &&& forall|k: int|
            0 <= k < keys.len() ==> {
                let t = #[trigger] self.trackers@[k];
                &&& t.storage_location == keys[k]
                &&& t.anchor_shard_id == anchor_shard(keys[k], self.num_executor_shards)
            }
        &&& forall|k: int, i: usize|
            0 <= k < keys.len() ==> (#[trigger] self.trackers@[k].pending_reads@.contains(i)
                <==> recorded(txns, done, reads, writes, i as int, keys[k], false))
        &&& forall|k: int, i: usize|
            0 <= k < keys.len() ==> (#[trigger] self.trackers@[k].pending_writes@.contains(i)
                <==> recorded(txns, done, reads, writes, i as int, keys[k], true))
        &&& forall|k: int|
            0 <= k < keys.len() ==> touched(txns, done, reads, writes, #[trigger] keys[k])
        &&& forall|i: int, key: StateKey, w: bool|
            #[trigger] recorded(txns, done, reads, writes, i, key, w) ==> keys.contains(key)
    }

    /// Every transaction is through: each has its sender's index, and the
    /// read sets, write sets and trackers hold every hinted access.
    pub open spec fn initialized(&self) -> bool {
        &&& self.shaped()
        &&& self.senders_hold(self.txns.len() as int)
        &&& self.keys_hold(self.txns.len() as int, 0, 0)
    }
}


/// The hint of transaction `txn` at position `pos` among its read hints or
/// its write hints.
pub open spec fn hint_at(txn: AnalyzedTransaction, pos: int, is_write: bool) -> StateKey {
    if is_write {
        txn.write_hints@[pos]
    } else {
        txn.read_hints@[pos]
    }
}

/// Taking one more hint of transaction `done` adds exactly that access.
proof fn recorded_step(
    txns: Seq<AnalyzedTransaction>,
    done: int,
    reads: int,
    writes: int,
    reads_after: int,
    writes_after: int,
    is_write: bool,
)
    requires
        0 <= done < txns.len(),
        0 <= reads <= txns[done].read_hints@.len(),
        0 <= writes <= txns[done].write_hints@.len(),
        is_write ==> writes < txns[done].write_hints@.len() && reads_after == reads
            && writes_after == writes + 1,
        !is_write ==> reads < txns[done].read_hints@.len() && reads_after == reads + 1
            && writes_after == writes,
    ensures
        forall|i: int, key: StateKey, w: bool|
            #![trigger recorded(txns, done, reads, writes, i, key, w)]
            #![trigger recorded(txns, done, reads_after, writes_after, i, key, w)]
            recorded(txns, done, reads_after, writes_after, i, key, w) <==> (recorded(
                txns,
                done,
                reads,
                writes,
                i,
                key,
                w,
            ) || (i == done && w == is_write && key == hint_at(
                txns[done],
                if is_write {
                    writes
                } else {
                    reads
                },
                is_write,
            ))),
{
    let r = txns[done].read_hints@;
    let wr = txns[done].write_hints@;
    if is_write {
        assert(wr.take(writes + 1) == wr.take(writes).push(wr[writes]));
        assert forall|key: StateKey|
            wr.take(writes + 1).contains(key) <==> (wr.take(writes).contains(key) || key
                == wr[writes]) by {
            take_push_contains(wr.take(writes), wr[writes], key);
        }
    } else {
        assert(r.take(reads + 1) == r.take(reads).push(r[reads]));
        assert forall|key: StateKey|
            r.take(reads + 1).contains(key) <==> (r.take(reads).contains(key) || key
                == r[reads]) by {
            take_push_contains(r.take(reads), r[reads], key);
        }
    }
}

/// What a sequence holds after one more value is pushed.
proof fn take_push_contains<T>(s: Seq<T>, x: T, y: T)
    ensures
        s.push(x).contains(y) <==> (s.contains(y) || y == x),
{
    if s.contains(y) {
        let j = choose|j: int| 0 <= j < s.len() && s[j] == y;
        assert(s.push(x)[j] == y);
    }
    if y == x {
        assert(s.push(x)[s.len() as int] == x);
    }
    if s.push(x).contains(y) {
        let j = choose|j: int| 0 <= j < s.push(x).len() && s.push(x)[j] == y;
        if j < s.len() {
            assert(s[j] == y);
        }
    }
}

/// When transaction `done` is through, its accesses count as those of a
/// transaction before `done + 1`.
proof fn recorded_next(txns: Seq<AnalyzedTransaction>, done: int)
    requires
        0 <= done < txns.len(),
    ensures
        forall|i: int, key: StateKey, w: bool|
            #![trigger recorded(txns, done + 1, 0, 0, i, key, w)]
            #![trigger recorded(txns, done, txns[done].read_hints@.len() as int, txns[done].write_hints@.len() as int, i, key, w)]
            recorded(txns, done + 1, 0, 0, i, key, w) <==> recorded(
                txns,
                done,
                txns[done].read_hints@.len() as int,
                txns[done].write_hints@.len() as int,
                i,
                key,
                w,
            ),
{
    let r = txns[done].read_hints@;
    let wr = txns[done].write_hints@;
    assert(r.take(r.len() as int) == r);
    assert(wr.take(wr.len() as int) == wr);
    assert forall|i: int, key: StateKey, w: bool|
        #![trigger recorded(txns, done + 1, 0, 0, i, key, w)]
        recorded(txns, done + 1, 0, 0, i, key, w) <==> recorded(
            txns,
            done,
            r.len() as int,
            wr.len() as int,
            i,
            key,
            w,
        ) by {
        if i == done + 1 && i < txns.len() {
            assert(txns[i].read_hints@.take(0).len() == 0);
            assert(txns[i].write_hints@.take(0).len() == 0);
        }
    }
}


/// How many read hints of a transaction are through when its hint at `pos`
/// among the reads, or among the writes, is the next one.
pub open spec fn reads_through(txn: AnalyzedTransaction, pos: int, is_write: bool) -> int {
    if is_write {
        txn.read_hints@.len() as int
    } else {
        pos
    }
}

/// How many write hints are through at that point.
pub open spec fn writes_through(pos: int, is_write: bool) -> int {
    if is_write {
        pos
    } else {
        0
    }
}

impl PartitionState {
    /// Gives `sender` an index if it has none yet, and returns its index.
    pub fn add_sender(&mut self, sender: PeerId) -> (r: SenderIdx)
        requires
            distinct(old(self).sender_idx_table@),
        ensures
            distinct(final(self).sender_idx_table@),
            r < final(self).sender_idx_table.len(),
            final(self).sender_idx_table@[r as int] == sender,
            final(self).sender_idx_table@ == (if old(self).sender_idx_table@.contains(sender) {
                old(self).sender_idx_table@
            } else {
                old(self).sender_idx_table@.push(sender)
            }),
            final(self).num_executor_shards == old(self).num_executor_shards,
            final(self).txns == old(self).txns,
            final(self).sender_idxs == old(self).sender_idxs,
            final(self).read_sets == old(self).read_sets,
            final(self).write_sets == old(self).write_sets,
            final(self).key_idx_table == old(self).key_idx_table,
            final(self).trackers == old(self).trackers,
    {
        match find_sender(&self.sender_idx_table, sender) {
            Some(s) => s,
            None => {
                self.sender_idx_table.push(sender);
                self.sender_idx_table.len() - 1
            },
        }
    }

    /// Gives `key` an index if it has none yet, and returns its index.
    pub fn add_key(&mut self, key: StateKey) -> (r: StorageKeyIdx)
        requires
            distinct(old(self).key_idx_table@),
        ensures
            distinct(final(self).key_idx_table@),
            r < final(self).key_idx_table.len(),
            final(self).key_idx_table@[r as int] == key,
            final(self).key_idx_table@ == (if old(self).key_idx_table@.contains(key) {
                old(self).key_idx_table@
            } else {
                old(self).key_idx_table@.push(key)
            }),
            final(self).num_executor_shards == old(self).num_executor_shards,
            final(self).txns == old(self).txns,
            final(self).sender_idxs == old(self).sender_idxs,
            final(self).read_sets == old(self).read_sets,
            final(self).write_sets == old(self).write_sets,
            final(self).sender_idx_table == old(self).sender_idx_table,
            final(self).trackers == old(self).trackers,
    {
        match find_key(&self.key_idx_table, key) {
            Some(k) => k,
            None => {
                self.key_idx_table.push(key);
                self.key_idx_table.len() - 1
            },
        }
    }

    /// Records one hinted access of transaction `txn_idx`: the hint at `pos`
    /// among its write hints (`is_write`) or among its read hints.
    fn record_access(&mut self, txn_idx: PrePartitionedTxnIdx, pos: usize, is_write: bool)
        requires
            old(self).shaped(),
            txn_idx < old(self).txns.len(),
            is_write ==> pos < old(self).txns@[txn_idx as int].write_hints@.len(),
            !is_write ==> pos < old(self).txns@[txn_idx as int].read_hints@.len(),
            old(self).keys_hold(
                txn_idx as int,
                reads_through(old(self).txns@[txn_idx as int], pos as int, is_write),
                writes_through(pos as int, is_write),
            ),
        ensures
            final(self).shaped(),
            final(self).txns == old(self).txns,
            final(self).num_executor_shards == old(self).num_executor_shards,
            final(self).sender_idxs == old(self).sender_idxs,
            final(self).sender_idx_table == old(self).sender_idx_table,
            final(self).keys_hold(
                txn_idx as int,
                reads_through(old(self).txns@[txn_idx as int], pos + 1, is_write),
                writes_through(pos + 1, is_write),
            ),
    {
        let ghost txns = self.txns@;
        let ghost done = txn_idx as int;
        let ghost r0 = reads_through(txns[done], pos as int, is_write);
        let ghost w0 = writes_through(pos as int, is_write);
        let ghost r1 = reads_through(txns[done], pos + 1, is_write);
        let ghost w1 = writes_through(pos + 1, is_write);
        let ghost keys0 = self.key_idx_table@;
        let key = if is_write {
            self.txns[txn_idx].write_hints[pos]
        } else {
            self.txns[txn_idx].read_hints[pos]
        };
        assert(key == hint_at(txns[done], pos as int, is_write));
        proof {
            recorded_step(txns, done, r0, w0, r1, w1, is_write);
        }
        let key_idx = self.add_key(key);
        let ghost fresh_key = !keys0.contains(key);
        if key_idx == self.trackers.len() {
            let anchor = get_anchor_shard_id(&key, self.num_executor_shards);
            self.trackers.push(ConflictingTxnTracker::new(key, anchor));
        }
        let ghost keys1 = self.key_idx_table@;
        let ghost trackers_mid = self.trackers@;
        assert(forall|k: int| 0 <= k < keys0.len() ==> keys1[k] == keys0[k]);
        assert(forall|k: int| 0 <= k < keys1.len() ==> (keys1[k] == key <==> k == key_idx));
        assert(fresh_key ==> forall|i: int, w: bool|
            !recorded(txns, done, r0, w0, i, key, w));
        assert(forall|k: int| 0 <= k < keys0.len() ==> trackers_mid[k] == old(self).trackers@[k]);
        if is_write {
            let _ = self.write_sets[txn_idx].insert(key_idx);
            self.trackers[key_idx].add_write_candidate(txn_idx);
        } else {
            let _ = self.read_sets[txn_idx].insert(key_idx);
            self.trackers[key_idx].add_read_candidate(txn_idx);
        }
        proof {
            let keys = keys1;
            assert forall|i: int, k: usize| 0 <= i < txns.len() implies (
            #[trigger] self.read_sets@[i]@.contains(k) <==> (k < keys.len() && recorded(
                txns,
                done,
                r1,
                w1,
                i,
                keys[k as int],
                false,
            ))) by {
                assert(old(self).read_sets@[i]@.contains(k) <==> (k < keys0.len() && recorded(
                    txns,
                    done,
                    r0,
                    w0,
                    i,
                    keys0[k as int],
                    false,
                )));
                if i == done && !is_write {
                    assert(self.read_sets@[i]@.contains(k) <==> (old(self).read_sets@[i]@.contains(
                        k,
                    ) || k == key_idx));
                } else {
                    assert(self.read_sets@[i] == old(self).read_sets@[i]);
                }
                if k < keys.len() {
                    assert(keys[k as int] == key <==> k == key_idx);
                }
            }
            assert forall|i: int, k: usize| 0 <= i < txns.len() implies (
            #[trigger] self.write_sets@[i]@.contains(k) <==> (k < keys.len() && recorded(
                txns,
                done,
                r1,
                w1,
                i,
                keys[k as int],
                true,
            ))) by {
                assert(old(self).write_sets@[i]@.contains(k) <==> (k < keys0.len() && recorded(
                    txns,
                    done,
                    r0,
                    w0,
                    i,
                    keys0[k as int],
                    true,
                )));
                if i == done && is_write {
                    assert(self.write_sets@[i]@.contains(k) <==> (old(
                        self,
                    ).write_sets@[i]@.contains(k) || k == key_idx));
                } else {
                    assert(self.write_sets@[i] == old(self).write_sets@[i]);
                }
                if k < keys.len() {
                    assert(keys[k as int] == key <==> k == key_idx);
                }
            }
            assert forall|k: int, i: usize| 0 <= k < keys.len() implies (
            #[trigger] self.trackers@[k].pending_reads@.contains(i) <==> recorded(
                txns,
                done,
                r1,
                w1,
                i as int,
                keys[k],
                false,
            )) by {
                if k < keys0.len() {
                    assert(old(self).trackers@[k].pending_reads@.contains(i) <==> recorded(
                        txns,
                        done,
                        r0,
                        w0,
                        i as int,
                        keys0[k],
                        false,
                    ));
                }
            }
            assert forall|k: int, i: usize| 0 <= k < keys.len() implies (
            #[trigger] self.trackers@[k].pending_writes@.contains(i) <==> recorded(
                txns,
                done,
                r1,
                w1,
                i as int,
                keys[k],
                true,
            )) by {
                if k < keys0.len() {
                    assert(old(self).trackers@[k].pending_writes@.contains(i) <==> recorded(
                        txns,
                        done,
                        r0,
                        w0,
                        i as int,
                        keys0[k],
                        true,
                    ));
                }
            }
            assert forall|k: int| 0 <= k < keys.len() implies touched(
                txns,
                done,
                r1,
                w1,
                #[trigger] keys[k],
            ) by {
                if k < keys0.len() {
                    assert(touched(txns, done, r0, w0, keys0[k]));
                    let (i, w) = choose|i: int, w: bool|
                        recorded(txns, done, r0, w0, i, keys0[k], w);
                    assert(recorded(txns, done, r1, w1, i, keys[k], w));
                } else {
                    assert(recorded(txns, done, r1, w1, done, keys[k], is_write));
                }
            }
            assert forall|i: int, key2: StateKey, w: bool| #[trigger]
                recorded(txns, done, r1, w1, i, key2, w) implies keys.contains(key2) by {
                if recorded(txns, done, r0, w0, i, key2, w) {
                    let k = choose|k: int| 0 <= k < keys0.len() && keys0[k] == key2;
                    assert(keys[k] == key2);
                } else {
                    assert(keys[key_idx as int] == key2);
                }
            }
            assert forall|k: int| 0 <= k < keys.len() implies {
                let t = #[trigger] self.trackers@[k];
                &&& t.storage_location == keys[k]
                &&& t.anchor_shard_id == anchor_shard(keys[k], self.num_executor_shards)
            } by {
                if k < keys0.len() {
                    let t0 = old(self).trackers@[k];
                    assert(t0.storage_location == keys0[k]);
                }
            }
        }
    }
}


/// Before anything is taken, nothing is recorded.
proof fn recorded_nothing(txns: Seq<AnalyzedTransaction>)
    ensures
        forall|i: int, key: StateKey, w: bool| !#[trigger] recorded(txns, 0, 0, 0, i, key, w),
{
    assert forall|i: int, key: StateKey, w: bool| !#[trigger] recorded(
        txns,
        0,
        0,
        0,
        i,
        key,
        w,
    ) by {
        if i == 0 && i < txns.len() {
            assert(txns[i].read_hints@.take(0).len() == 0);
            assert(txns[i].write_hints@.take(0).len() == 0);
        }
    }
}

impl PartitionerV2 {
    /// Goes through the transactions in order. Each gets the index of its
    /// sender; each of its read hints, then each of its write hints, gets
    /// the index of its key, enters the transaction's read or write set, and
    /// is noted in the key's tracker, which is made on the key's first
    /// occurrence and anchored at `anchor_shard`.
    pub fn init(state: &mut PartitionState)
        requires
            old(state).fresh(),
        ensures
            final(state).txns == old(state).txns,
            final(state).num_executor_shards == old(state).num_executor_shards,
            final(state).initialized(),
    {
        let n = state.num_txns();
        let ghost txns = state.txns@;
        proof {
            recorded_nothing(txns);
            assert(state.keys_hold(0, 0, 0));
        }
        let mut txn_idx: usize = 0;
        while txn_idx < n
            invariant
                txn_idx <= n,
                n == state.txns.len(),
                txns == state.txns@,
                state.txns == old(state).txns,
                state.num_executor_shards == old(state).num_executor_shards,
                state.shaped(),
                state.senders_hold(txn_idx as int),
                state.keys_hold(txn_idx as int, 0, 0),
            decreases n - txn_idx,
        {
            let ghost before = *state;
            let sender = state.txns[txn_idx].sender;
            let sender_idx = state.add_sender(sender);
            state.sender_idxs[txn_idx] = Some(sender_idx);
            proof {
                assert forall|s: int| 0 <= s < state.sender_idx_table.len() implies sent_before(
                    txns,
                    txn_idx + 1,
                    #[trigger] state.sender_idx_table@[s],
                ) by {
                    if s < before.sender_idx_table.len() {
                        assert(sent_before(txns, txn_idx as int, before.sender_idx_table@[s]));
                        let i = choose|i: int|
                            0 <= i < txns.len() && i < txn_idx && (#[trigger] txns[i]).sender
                                == before.sender_idx_table@[s];
                        assert(txns[i].sender == state.sender_idx_table@[s]);
                    } else {
                        assert(txns[txn_idx as int].sender == state.sender_idx_table@[s]);
                    }
                }
                assert forall|i: int| 0 <= i < txns.len() && i < txn_idx + 1 implies (
                #[trigger] state.sender_idxs@[i] matches Some(s) && s
                    < state.sender_idx_table.len() && state.sender_idx_table@[s as int]
                    == txns[i].sender) by {
                    if i < txn_idx {
                        assert(before.sender_idxs@[i] is Some);
                    }
                }
                assert(state.senders_hold(txn_idx + 1));
            }
            let reads = state.txns[txn_idx].read_hints.len();
            let mut pos: usize = 0;
            while pos < reads
                invariant
                    pos <= reads,
                    txn_idx < n,
                    n == state.txns.len(),
                    txns == state.txns@,
                    reads == txns[txn_idx as int].read_hints@.len(),
                    state.txns == old(state).txns,
                    state.num_executor_shards == old(state).num_executor_shards,
                    state.shaped(),
                    state.senders_hold(txn_idx + 1),
                    state.keys_hold(txn_idx as int, pos as int, 0),
                decreases reads - pos,
            {
                state.record_access(txn_idx, pos, false);
                pos = pos + 1;
            }
            let writes = state.txns[txn_idx].write_hints.len();
            pos = 0;
            while pos < writes
                invariant
                    pos <= writes,
                    txn_idx < n,
                    n == state.txns.len(),
                    txns == state.txns@,
                    reads == txns[txn_idx as int].read_hints@.len(),
                    writes == txns[txn_idx as int].write_hints@.len(),
                    state.txns == old(state).txns,
                    state.num_executor_shards == old(state).num_executor_shards,
                    state.shaped(),
                    state.senders_hold(txn_idx + 1),
                    state.keys_hold(txn_idx as int, reads as int, pos as int),
                decreases writes - pos,
            {
                state.record_access(txn_idx, pos, true);
                pos = pos + 1;
            }
            proof {
                recorded_next(txns, txn_idx as int);
            }
            txn_idx = txn_idx + 1;
        }
    }
}


/// Once every transaction is through, what is recorded is what the
/// transactions hint at, no more and no less.
pub proof fn recorded_at_the_end(
    txns: Seq<AnalyzedTransaction>,
    i: int,
    key: StateKey,
    is_write: bool,
)
    ensures
        recorded(txns, txns.len() as int, 0, 0, i, key, is_write) <==> (0 <= i < txns.len()
            && hints_at(txns[i], key, is_write)),
{
}

/// In an initialized state two transactions have the same sender index
/// exactly when they have the same sender.
pub proof fn senders_share_an_index(state: PartitionState, i: int, j: int)
    requires
        state.initialized(),
        0 <= i < state.txns.len(),
        0 <= j < state.txns.len(),
    ensures
        state.sender_idxs@[i] == state.sender_idxs@[j] <==> state.txns@[i].sender
            == state.txns@[j].sender,
{
    let a = state.sender_idxs@[i]->0 as int;
    let b = state.sender_idxs@[j]->0 as int;
    assert(state.sender_idxs@[i] is Some && state.sender_idxs@[j] is Some);
    assert(state.sender_idx_table@[a] == state.txns@[i].sender);
    assert(state.sender_idx_table@[b] == state.txns@[j].sender);
    if state.txns@[i].sender == state.txns@[j].sender && a != b {
        if a < b {
            assert(state.sender_idx_table@[a] != state.sender_idx_table@[b]);
        } else {
            assert(state.sender_idx_table@[b] != state.sender_idx_table@[a]);
        }
    }
}

/// What a transaction waits for in other shards and what waits for it there,
/// by the indices of the transactions concerned.
#[derive(Debug)]
pub struct CrossShardDependencies {
    pub required_edges: Vec<PrePartitionedTxnIdx>,
    pub dependent_edges: Vec<PrePartitionedTxnIdx>,
}

impl CrossShardDependencies {
    /// No dependency in either direction.
    pub fn new() -> (r: Self)
        ensures
            r.required_edges@.len() == 0,
            r.dependent_edges@.len() == 0,
    {
        CrossShardDependencies { required_edges: Vec::new(), dependent_edges: Vec::new() }
    }
}

#[derive(Debug)]
pub struct TransactionWithDependencies<T> {
    pub txn: T,
    pub cross_shard_dependencies: CrossShardDependencies,
}

impl<T> TransactionWithDependencies<T> {
    pub fn new(txn: T, cross_shard_dependencies: CrossShardDependencies) -> (r: Self)
        ensures
            r.txn == txn,
            r.cross_shard_dependencies == cross_shard_dependencies,
    {
        TransactionWithDependencies { txn, cross_shard_dependencies }
    }
}

/// A run of transactions of one shard, with the index of its first one.
#[derive(Debug)]
pub struct SubBlock<T> {
    pub start_index: PrePartitionedTxnIdx,
    pub transactions: Vec<TransactionWithDependencies<T>>,
}

impl<T> SubBlock<T> {
    pub fn new(
        start_index: PrePartitionedTxnIdx,
        transactions: Vec<TransactionWithDependencies<T>>,
    ) -> (r: Self)
        ensures
            r.start_index == start_index,
            r.transactions == transactions,
    {
        SubBlock { start_index, transactions }
    }
}

#[derive(Debug)]
pub struct SubBlocksForShard<T> {
    pub shard_id: ShardId,
    pub sub_blocks: Vec<SubBlock<T>>,
}

impl<T> SubBlocksForShard<T> {
    pub fn new(shard_id: ShardId, sub_blocks: Vec<SubBlock<T>>) -> (r: Self)
        ensures
            r.shard_id == shard_id,
            r.sub_blocks == sub_blocks,
    {
        SubBlocksForShard { shard_id, sub_blocks }
    }
}

/// The partitioner for a single shard: it leaves the block as it is.
pub struct NoOpPartitioner {}

impl NoOpPartitioner {
    /// Whether `blocks` is `transactions` as the one sub-block of shard 0,
    /// in order and free of dependencies.
    pub open spec fn unpartitioned<T>(
        transactions: Seq<T>,
        blocks: Seq<SubBlocksForShard<T>>,
    ) -> bool {
        &&& blocks.len() == 1
        &&& blocks[0].shard_id == 0
        &&& blocks[0].sub_blocks@.len() == 1
        &&& blocks[0].sub_blocks@[0].start_index == 0
        &&& blocks[0].sub_blocks@[0].transactions@.len() == transactions.len()
        &&& forall|i: int|
            0 <= i < transactions.len() ==> {
                let t = #[trigger] blocks[0].sub_blocks@[0].transactions@[i];
                &&& t.txn == transactions[i]
                &&& t.cross_shard_dependencies.required_edges@.len() == 0
                &&& t.cross_shard_dependencies.dependent_edges@.len() == 0
            }
    }

    pub fn partition<T>(&self, transactions: Vec<T>, num_executor_shards: usize) -> (r: Vec<
        SubBlocksForShard<T>,
    >)
        requires
            num_executor_shards == 1,
        ensures
            Self::unpartitioned(transactions@, r@),
    {
        let mut twds: Vec<TransactionWithDependencies<T>> = Vec::new();
        for t in iter: transactions
            invariant
                twds.len() == iter.index(),
                iter.seq() == transactions@,
                forall|j: int|
                    0 <= j < twds.len() ==> {
                        let d = #[trigger] twds@[j];
                        &&& d.txn == transactions@[j]
                        &&& d.cross_shard_dependencies.required_edges@.len() == 0
                        &&& d.cross_shard_dependencies.dependent_edges@.len() == 0
                    },
        {
            twds.push(TransactionWithDependencies::new(t, CrossShardDependencies::new()));
        }
        let sub_block = SubBlock::new(0, twds);
        let mut sub_blocks: Vec<SubBlock<T>> = Vec::new();
        sub_blocks.push(sub_block);
        let sub_block_list = SubBlocksForShard::new(0, sub_blocks);
        let mut r: Vec<SubBlocksForShard<T>> = Vec::new();
        r.push(sub_block_list);
        r
    }
}

} // verus!
