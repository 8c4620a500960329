use vstd::prelude::*;
use vstd::string::*;

use crate::crdt::{ops_delta, txs_delta};
use crate::errors::{ConnectivityError, ServerPushPullError};
use crate::mutable::Attribute;
use crate::operations::{Operation, Transaction};
use crate::pull_handler::remote_ops_result;
use crate::push_pull_pack::PushPullPack;
use crate::types::{CheckPoint, Cuid, DataType, DatatypeState, Duid, Uid};

verus! {

/// How many of `txs` a client whose acknowledged cseq is `c` adds to the
/// history: each one whose cseq exceeds every cseq accepted before it.
pub open spec fn accepted_count(txs: Seq<Transaction>, c: u64) -> nat
    decreases txs.len(),
{
    if txs.len() == 0 {
        0
    } else {
        let rest = accepted_count(txs.drop_last(), c);
        if txs.last().cseq > running_cseq(txs.drop_last(), c) {
            rest + 1
        } else {
            rest
        }
    }
}

/// The transactions of `txs` that a client whose acknowledged cseq is `c`
/// adds to the history, in order.
pub open spec fn accepted(txs: Seq<Transaction>, c: u64) -> Seq<Transaction>
    decreases txs.len(),
{
    if txs.len() == 0 {
        Seq::empty()
    } else {
        let rest = accepted(txs.drop_last(), c);
        if txs.last().cseq > running_cseq(txs.drop_last(), c) {
            rest.push(txs.last())
        } else {
            rest
        }
    }
}

/// Equal in every field but the sseq, which the server assigns.
pub open spec fn same_but_sseq(a: Transaction, b: Transaction) -> bool {
    &&& a.cuid@ == b.cuid@
    &&& a.cseq == b.cseq
    &&& a.tag == b.tag
    &&& a.event == b.event
    &&& a.operations@ == b.operations@
}

/// The history after `old` gained `txs`: the old entries, then each of `txs`
/// in order, with the next sseqs.
pub open spec fn extends_with(old: Seq<Transaction>, new: Seq<Transaction>, txs: Seq<Transaction>) -> bool {
    &&& new.len() == old.len() + txs.len()
    &&& new.take(old.len() as int) == old
    &&& forall|k: int|
        0 <= k < txs.len() ==> same_but_sseq(#[trigger] new[old.len() + k], txs[k]) && new[old.len()
            + k].sseq == old.len() + k + 1
}

/// The acknowledged cseq after `txs`: the largest of `c` and their cseqs.
pub open spec fn running_cseq(txs: Seq<Transaction>, c: u64) -> u64
    decreases txs.len(),
{
    if txs.len() == 0 {
        c
    } else {
        let p = running_cseq(txs.drop_last(), c);
        if txs.last().cseq > p {
            txs.last().cseq
        } else {
            p
        }
    }
}

/// The summed deltas of the transactions that are accepted.
pub open spec fn accepted_delta(txs: Seq<Transaction>, c: u64) -> int
    decreases txs.len(),
{
    if txs.len() == 0 {
        0
    } else {
        let rest = accepted_delta(txs.drop_last(), c);
        if txs.last().cseq > running_cseq(txs.drop_last(), c) {
            rest + ops_delta(txs.last().operations@)
        } else {
            rest
        }
    }
}

/// The value of a counter whose history is `txs`, each operation applied as
/// the server hands it on.
pub open spec fn history_value(txs: Seq<Transaction>) -> i64
    decreases txs.len(),
{
    if txs.len() == 0 {
        0
    } else {
        remote_ops_result(history_value(txs.drop_last()), txs.last().operations@)
    }
}

/// What a creation answers and how it changes the record.
pub open spec fn create_post(
    old: LocalDatatypeServer,
    new: LocalDatatypeServer,
    pushed: PushPullPack,
    p: PushPullPack,
) -> bool {
    let c = old.client_cseq(pushed.cuid@);
    &&& p.collection@ == pushed.collection@
    &&& p.cuid@ == pushed.cuid@
    &&& p.duid@ == pushed.duid@
    &&& p.key@ == pushed.key@
    &&& p.kind == pushed.kind
    &&& p.is_readonly == pushed.is_readonly
    &&& p.transactions@.len() == 0
    &&& !p.has_snapshot
    &&& if old.created && old.duid@ != pushed.duid@ {
        &&& p.error matches Some(ServerPushPullError::FailedToCreate(m)) && m@ == "already exist"@
        &&& p.state == pushed.state
        &&& p.checkpoint == (CheckPoint { sseq: 0, cseq: 0 })
        &&& new.history == old.history
        &&& new.created == old.created
        &&& new.duid == old.duid
    } else if pushed.is_readonly {
        &&& p.error matches Some(ServerPushPullError::FailedToCreate(_))
        &&& p.state == pushed.state
        &&& p.checkpoint == (CheckPoint { sseq: 0, cseq: 0 })
        &&& new.history == old.history
        &&& new.created == old.created
        &&& new.duid == old.duid
    } else {
        &&& p.error is None
        &&& p.state == DatatypeState::DueToCreate
        &&& new.created
        &&& new.duid@ == pushed.duid@
        &&& new.creator@ == pushed.cuid@
        &&& new.history@.take(old.history@.len() as int) == old.history@
        &&& p.checkpoint.sseq == new.sseq
        &&& new.client_cp(pushed.cuid@) == p.checkpoint
        &&& (old.sseq + pushed.transactions@.len() <= u64::MAX ==> {
            &&& p.checkpoint.cseq == running_cseq(pushed.transactions@, c)
            &&& extends_with(old.history@, new.history@, accepted(pushed.transactions@, c))
            &&& new.history@.len() == old.history@.len()
                + accepted_count(pushed.transactions@, c)
            &&& txs_delta(new.history@) == txs_delta(old.history@)
                + accepted_delta(pushed.transactions@, c)
        })
    }
}

/// What a subscription answers; the record stays as it is.
pub open spec fn subscribe_post(old: LocalDatatypeServer, pushed: PushPullPack, p: PushPullPack) -> bool {
    &&& p.collection@ == pushed.collection@
    &&& p.cuid@ == pushed.cuid@
    &&& p.key@ == pushed.key@
    &&& p.kind == pushed.kind
    &&& p.is_readonly == pushed.is_readonly
    &&& if !old.created {
        &&& p.error matches Some(ServerPushPullError::FailedToSubscribe(_))
        &&& p.duid@ == pushed.duid@
        &&& p.state == pushed.state
        &&& p.checkpoint == (CheckPoint { sseq: 0, cseq: 0 })
        &&& p.transactions@.len() == 0
    } else if old.kind != pushed.kind {
        &&& p.error matches Some(ServerPushPullError::FailedToSubscribe(_))
        &&& p.duid@ == pushed.duid@
        &&& p.state == pushed.state
        &&& p.checkpoint == (CheckPoint { sseq: 0, cseq: 0 })
        &&& p.transactions@.len() == 0
    } else if pushed.transactions@.len() > 0 {
        &&& p.error matches Some(ServerPushPullError::IllegalPushRequest(_))
        &&& p.duid@ == pushed.duid@
        &&& p.state == pushed.state
        &&& p.checkpoint == (CheckPoint { sseq: 0, cseq: 0 })
        &&& p.transactions@.len() == 0
    } else {
        &&& p.error is None
        &&& p.state == DatatypeState::DueToSubscribe
        &&& p.duid@ == old.duid@
        &&& p.has_snapshot
        &&& p.checkpoint == (CheckPoint { sseq: old.sseq, cseq: 0 })
        &&& p.transactions@.len() == 1
        &&& p.transactions@[0].cuid@ == old.creator@
        &&& p.transactions@[0].sseq == old.sseq
        &&& p.transactions@[0].operations@ == seq![
            Operation::snapshot_of(history_value(old.history@)),
        ]
    }
}

/// The committed transactions of clients other than `me` past sseq `s`, in
/// order.
pub open spec fn others_after(h: Seq<Transaction>, me: Seq<char>, s: u64) -> Seq<Transaction>
    decreases h.len(),
{
    if h.len() == 0 {
        Seq::empty()
    } else {
        let p = others_after(h.drop_last(), me, s);
        if h.last().sseq > s && h.last().cuid@ != me {
            p.push(h.last())
        } else {
            p
        }
    }
}

/// What a push of a subscribed client answers and how it changes the record.
pub open spec fn subscribed_post(
    old: LocalDatatypeServer,
    new: LocalDatatypeServer,
    pushed: PushPullPack,
    p: PushPullPack,
) -> bool {
    let c = old.client_cseq(pushed.cuid@);
    let want = others_after(new.history@, pushed.cuid@, pushed.checkpoint.sseq);
    &&& p.cuid@ == pushed.cuid@
    &&& p.duid@ == pushed.duid@
    &&& p.key@ == pushed.key@
    &&& p.error is None
    &&& p.state == DatatypeState::Subscribed
    &&& p.checkpoint.sseq == new.sseq
    &&& p.transactions@.len() == want.len()
    &&& forall|i: int| 0 <= i < want.len() ==> #[trigger] p.transactions@[i].view_eq(&want[i])
    &&& new.created == old.created
    &&& new.duid == old.duid
    &&& new.history@.take(old.history@.len() as int) == old.history@
    &&& pushed.is_readonly ==> new.history == old.history && p.checkpoint.cseq == c
    &&& (!pushed.is_readonly && old.sseq + pushed.transactions@.len() <= u64::MAX) ==> {
        &&& p.checkpoint.cseq == running_cseq(pushed.transactions@, c)
        &&& new.history@.len() == old.history@.len() + accepted_count(pushed.transactions@, c)
    }
}

/// The server's record of one datatype: its identity, whether it was
/// created and by whom, the server sequence, the checkpoint of each client,
/// and the committed history.
#[derive(Debug)]
pub struct LocalDatatypeServer {
    pub key: String,
    pub kind: DataType,
    pub duid: Duid,
    pub created: bool,
    pub creator: Cuid,
    pub sseq: u64,
    pub cseq_map: Vec<(Cuid, CheckPoint)>,
    pub history: Vec<Transaction>,
}

impl LocalDatatypeServer {
    /// The checkpoint recorded for the client `cuid`, or zeros.
    pub open spec fn client_cp(&self, cuid: Seq<char>) -> CheckPoint {
        if exists|i: int| 0 <= i < self.cseq_map@.len() && (#[trigger] self.cseq_map@[i]).0@ == cuid {
            let i = choose|i: int| 0 <= i < self.cseq_map@.len() && (#[trigger] self.cseq_map@[i]).0@ == cuid;
            self.cseq_map@[i].1
        } else {
            CheckPoint { sseq: 0, cseq: 0 }
        }
    }

    pub open spec fn client_cseq(&self, cuid: Seq<char>) -> u64 {
        self.client_cp(cuid).cseq
    }

    /// Client entries are unique, the sseq counts the history, and each
    /// committed transaction carries its sseq.
    pub open spec fn wf(&self) -> bool {
        &&& forall|i: int, j: int|
            0 <= i < j < self.cseq_map@.len() ==> (#[trigger] self.cseq_map@[i]).0@ != (
            #[trigger] self.cseq_map@[j]).0@
        &&& self.sseq == self.history@.len()
        &&& forall|i: int| 0 <= i < self.history@.len() ==> (#[trigger] self.history@[i]).sseq == i + 1
    }

    /// An empty, not yet created record of the datatype of `attr`.
    pub fn new(attr: &Attribute) -> (r: LocalDatatypeServer)
        ensures
            r.wf(),
            !r.created,
            r.sseq == 0,
            r.history@.len() == 0,
            r.cseq_map@.len() == 0,
            r.key@ == attr.key@,
            r.kind == attr.kind,
            r.duid@ == attr.duid@,
    {
        LocalDatatypeServer {
            key: String::from_str(attr.key.as_str()),
            kind: attr.kind,
            duid: attr.duid.clone(),
            created: false,
            creator: Uid::new_nil(),
            sseq: 0,
            cseq_map: Vec::new(),
            history: Vec::new(),
        }
    }

    fn find_client(&self, cuid: &Cuid) -> (r: Option<usize>)
        ensures
            r matches Some(i) ==> i < self.cseq_map@.len() && self.cseq_map@[i as int].0@ == cuid@,
            r is None ==> forall|i: int| 0 <= i < self.cseq_map@.len() ==> (#[trigger] self.cseq_map@[i]).0@ != cuid@,
    {
        let mut i: usize = 0;
        while i < self.cseq_map.len()
            invariant
                0 <= i <= self.cseq_map@.len(),
                forall|k: int| 0 <= k < i ==> (#[trigger] self.cseq_map@[k]).0@ != cuid@,
            decreases self.cseq_map@.len() - i,
        {
            if self.cseq_map[i].0 == *cuid {
                return Some(i);
            }
            i += 1;
        }
        None
    }

    /// Appends to the history each pushed transaction whose cseq is past the
    /// client's acknowledged one, giving it the next sseq, and returns the
    /// client's new acknowledged cseq.
    pub fn push_transactions(&mut self, pushed: &PushPullPack) -> (r: u64)
        requires
            old(self).wf(),
        ensures
            final(self).wf(),
            final(self).created == old(self).created,
            final(self).duid == old(self).duid,
            final(self).kind == old(self).kind,
            final(self).creator == old(self).creator,
            final(self).history@.take(old(self).history@.len() as int) == old(self).history@,
            final(self).client_cp(pushed.cuid@) == (CheckPoint { sseq: final(self).sseq, cseq: r }),
            old(self).sseq + pushed.transactions@.len() <= u64::MAX ==> {
                let c = old(self).client_cseq(pushed.cuid@);
                &&& r == running_cseq(pushed.transactions@, c)
                &&& final(self).client_cseq(pushed.cuid@) == r
                &&& extends_with(old(self).history@, final(self).history@, accepted(pushed.transactions@, c))
                &&& final(self).history@.len() == old(self).history@.len() + accepted_count(
                    pushed.transactions@,
                    c,
                )
                &&& txs_delta(final(self).history@) == txs_delta(old(self).history@)
                    + accepted_delta(pushed.transactions@, c)
            },
    {
        let ghost old_self = *old(self);
        let ghost txs = pushed.transactions@;
        let ghost me = pushed.cuid@;
        let ghost c = old(self).client_cseq(me);
        let found = self.find_client(&pushed.cuid);
        let idx = match found {
            Some(i) => {
                proof {
                    let j = choose|j: int| 0 <= j < old_self.cseq_map@.len() && (#[trigger] old_self.cseq_map@[j]).0@ == me;
                    assert(old_self.cseq_map@[j].0@ == me);
                    if j != i {
                        if j < i {
                            assert(old_self.cseq_map@[j].0@ != old_self.cseq_map@[i as int].0@);
                        } else {
                            assert(old_self.cseq_map@[i as int].0@ != old_self.cseq_map@[j].0@);
                        }
                    }
                }
                i
            },
            None => {
                self.cseq_map.push((pushed.cuid.clone(), CheckPoint::new(0, 0)));
                proof {
                    assert forall|i: int, j: int| 0 <= i < j < self.cseq_map@.len() implies
                        (#[trigger] self.cseq_map@[i]).0@ != (#[trigger] self.cseq_map@[j]).0@ by {
                        if j < old_self.cseq_map@.len() as int {
                            assert(old_self.cseq_map@[i].0@ != old_self.cseq_map@[j].0@);
                        } else {
                            assert(self.cseq_map@[i] == old_self.cseq_map@[i]);
                        }
                    }
                }
                self.cseq_map.len() - 1
            },
        };
        let mut cp = self.cseq_map[idx].1;
        assert(cp.cseq == c);
        let ghost map_now = self.cseq_map@;
        let n = pushed.transactions.len();
        let ghost fits = old_self.sseq + n <= u64::MAX;
        let mut i: usize = 0;
        proof {
            assert(txs.take(0) =~= Seq::<Transaction>::empty());
            assert(self.history@.take(old_self.history@.len() as int) =~= old_self.history@);
        }
        while i < n
            invariant
                0 <= i <= n,
                n == txs.len(),
                txs == pushed.transactions@,
                self.cseq_map@ == map_now,
                idx < map_now.len(),
                map_now[idx as int].0@ == me,
                forall|a: int, b: int|
                    0 <= a < b < map_now.len() ==> (#[trigger] map_now[a]).0@ != (#[trigger] map_now[b]).0@,
                self.sseq == self.history@.len(),
                forall|k: int| 0 <= k < self.history@.len() ==> (#[trigger] self.history@[k]).sseq == k + 1,
                self.sseq <= old_self.sseq + i,
                self.history@.take(old_self.history@.len() as int) == old_self.history@,
                self.history@.len() >= old_self.history@.len(),
                self.created == old_self.created,
                self.duid == old_self.duid,
                self.kind == old_self.kind,
                self.creator == old_self.creator,
                fits == (old_self.sseq + n <= u64::MAX),
                fits ==> cp.cseq == running_cseq(txs.take(i as int), c),
                fits ==> extends_with(old_self.history@, self.history@, accepted(txs.take(i as int), c)),
                fits ==> self.history@.len() == old_self.history@.len() + accepted_count(txs.take(i as int), c),
                fits ==> txs_delta(self.history@) == txs_delta(old_self.history@) + accepted_delta(txs.take(i as int), c),
            decreases n - i,
        {
            let tx = &pushed.transactions[i];
            proof {
                assert(txs.take(i as int + 1).drop_last() =~= txs.take(i as int));
                assert(txs.take(i as int + 1).last() == txs[i as int]);
            }
            if tx.cseq() > cp.cseq && self.sseq < u64::MAX {
                let mut t = tx.duplicate();
                self.sseq = self.sseq + 1;
                t.sseq = self.sseq;
                let ghost before = self.history@;
                self.history.push(t);
                proof {
                    assert(self.history@.drop_last() =~= before);
                    assert(self.history@.take(old_self.history@.len() as int) =~= before.take(old_self.history@.len() as int));
                }
                cp.cseq = tx.cseq();
            }
            i += 1;
        }
        proof {
            assert(txs.take(n as int) =~= txs);
        }
        cp.sseq = self.sseq;
        let key = self.cseq_map[idx].0.clone();
        self.cseq_map.set(idx, (key, cp));
        proof {
            assert(self.cseq_map@[idx as int].0@ == me);
            assert forall|a: int, b: int| 0 <= a < b < self.cseq_map@.len() implies
                (#[trigger] self.cseq_map@[a]).0@ != (#[trigger] self.cseq_map@[b]).0@ by {
                assert(map_now[a].0@ != map_now[b].0@);
                if a != idx as int { assert(self.cseq_map@[a] == map_now[a]); }
                if b != idx as int { assert(self.cseq_map@[b] == map_now[b]); }
            }
            let j = choose|j: int| 0 <= j < self.cseq_map@.len() && (#[trigger] self.cseq_map@[j]).0@ == me;
            assert(self.cseq_map@[j].0@ == me);
            if j != idx as int {
                if j < idx as int {
                    assert(self.cseq_map@[j].0@ != self.cseq_map@[idx as int].0@);
                } else {
                    assert(self.cseq_map@[idx as int].0@ != self.cseq_map@[j].0@);
                }
            }
        }
        cp.cseq
    }

    /// Creates the datatype for `pushed`. A record already created under
    /// another duid answers `FailedToCreate("already exist")`; a read-only
    /// client answers `FailedToCreate`. Otherwise the record is created with
    /// the pushed duid and client as creator, the pushed transactions are
    /// committed, and the reply carries `DueToCreate` and the checkpoint
    /// `(sseq, client's cseq)`. A repeated creation under the same duid is a
    /// retransmission and succeeds again.
    pub fn process_due_to_create(&mut self, pushed: &PushPullPack) -> (r: Result<
        PushPullPack,
        ConnectivityError,
    >)
        requires
            old(self).wf(),
        ensures
            final(self).wf(),
            r matches Ok(p) && create_post(*old(self), *final(self), *pushed, p),
    {
        let mut pulled = pushed.get_pulled_stub();
        if self.created && !(self.duid == pushed.duid) {
            pulled.error = Some(
                ServerPushPullError::FailedToCreate(String::from_str("already exist")),
            );
            return Ok(pulled);
        }
        if pulled.is_readonly {
            pulled.error = Some(
                ServerPushPullError::FailedToCreate(
                    String::from_str("readonly client cannot create datatype"),
                ),
            );
            return Ok(pulled);
        }
        pulled.state = DatatypeState::DueToCreate;
        self.created = true;
        self.duid = pushed.duid.clone();
        self.creator = pushed.cuid.clone();
        assert(self.cseq_map@ == old(self).cseq_map@);
        assert(self.client_cseq(pushed.cuid@) == old(self).client_cseq(pushed.cuid@));
        let cseq = self.push_transactions(pushed);
        pulled.checkpoint.sseq = self.sseq;
        pulled.checkpoint.cseq = cseq;
        Ok(pulled)
    }

    /// The value of the datatype: its history applied from zero.
    pub fn current_value(&self) -> (r: i64)
        ensures
            r == history_value(self.history@),
    {
        let mut shadow = crate::crdt::Crdt::with_value(0);
        let n = self.history.len();
        let mut i: usize = 0;
        proof {
            assert(self.history@.take(0) =~= Seq::<Transaction>::empty());
        }
        while i < n
            invariant
                0 <= i <= n,
                n == self.history@.len(),
                shadow.value() == history_value(self.history@.take(i as int)),
            decreases n - i,
        {
            let tx = &self.history[i];
            let ghost ops = tx.operations@;
            let ghost start = shadow.value();
            let m = tx.operations.len();
            let mut j: usize = 0;
            proof {
                assert(ops.take(0) =~= Seq::<Operation>::empty());
                assert(self.history@.take(i as int + 1).drop_last() =~= self.history@.take(i as int));
            }
            while j < m
                invariant
                    0 <= j <= m,
                    m == ops.len(),
                    ops == tx.operations@,
                    shadow.value() == remote_ops_result(start, ops.take(j as int)),
                decreases m - j,
            {
                proof {
                    assert(ops.take(j as int + 1).drop_last() =~= ops.take(j as int));
                }
                let _ = shadow.execute_remote_operation(&tx.operations[j]);
                j += 1;
            }
            proof {
                assert(ops.take(m as int) =~= ops);
            }
            i += 1;
        }
        proof {
            assert(self.history@.take(n as int) =~= self.history@);
        }
        shadow.get_value()
    }

    /// A synthetic transaction of the creator that carries the current value
    /// as one snapshot operation, stamped with the current sseq.
    pub fn get_subscribe_snapshot(&self) -> (r: Transaction)
        ensures
            r.cuid@ == self.creator@,
            r.sseq == self.sseq,
            r.cseq == 0,
            r.tag is None,
            !r.event,
            r.operations@ == seq![Operation::snapshot_of(history_value(self.history@))],
    {
        let value = self.current_value();
        let mut ops: Vec<Operation> = Vec::new();
        ops.push(Operation::new_counter_snapshot(value));
        Transaction {
            cuid: self.creator.clone(),
            cseq: 0,
            sseq: self.sseq,
            tag: None,
            event: false,
            operations: ops,
        }
    }

    /// Subscribes the client of `pushed`. A record not yet created answers
    /// `FailedToSubscribe`, as does one of another kind; a pack that carries
    /// transactions answers `IllegalPushRequest`. Otherwise the reply carries
    /// `DueToSubscribe`, the record's duid, the snapshot transaction and the
    /// checkpoint `(sseq, 0)`.
    pub fn process_due_to_subscribe(&mut self, pushed: &PushPullPack) -> (r: Result<
        PushPullPack,
        ConnectivityError,
    >)
        requires
            old(self).wf(),
        ensures
            *final(self) == *old(self),
            r matches Ok(p) && subscribe_post(*old(self), *pushed, p),
    {
        let mut pulled = pushed.get_pulled_stub();
        if !self.created {
            let mut m = pushed.kind.to_string();
            m.append(" '");
            let rid = pushed.resource_id();
            m.append(rid.as_str());
            m.append("' not exists");
            pulled.error = Some(ServerPushPullError::FailedToSubscribe(m));
            return Ok(pulled);
        }
        if self.kind != pushed.kind {
            let mut m = String::from_str("mismatched types for '");
            let rid = pushed.resource_id();
            m.append(rid.as_str());
            m.append("': pushed type-");
            let a = pushed.kind.to_string();
            m.append(a.as_str());
            m.append(" but existed type ");
            let b = self.kind.to_string();
            m.append(b.as_str());
            pulled.error = Some(ServerPushPullError::FailedToSubscribe(m));
            return Ok(pulled);
        }
        if pushed.transactions.len() > 0 {
            pulled.error = Some(
                ServerPushPullError::IllegalPushRequest(
                    String::from_str("cannot push transactions when subscribing"),
                ),
            );
            return Ok(pulled);
        }
        pulled.state = DatatypeState::DueToSubscribe;
        pulled.duid = self.duid.clone();
        let snapshot = self.get_subscribe_snapshot();
        pulled.transactions.push(snapshot);
        pulled.has_snapshot = true;
        pulled.checkpoint = CheckPoint::new(self.sseq, 0);
        Ok(pulled)
    }

    /// Serves a subscribed client: commits its pushed transactions unless it
    /// is read-only, and hands back the committed transactions of other
    /// clients past its checkpoint, with the checkpoint
    /// `(sseq, client's cseq)`.
    pub fn process_subscribed(&mut self, pushed: &PushPullPack) -> (r: Result<
        PushPullPack,
        ConnectivityError,
    >)
        requires
            old(self).wf(),
        ensures
            final(self).wf(),
            r matches Ok(p) && subscribed_post(*old(self), *final(self), *pushed, p),
    {
        let mut pulled = pushed.get_pulled_stub();
        pulled.state = DatatypeState::Subscribed;
        let cseq = if pushed.is_readonly {
            match self.find_client(&pushed.cuid) {
                Some(i) => {
                    proof {
                        let j = choose|j: int| 0 <= j < self.cseq_map@.len() && (#[trigger] self.cseq_map@[j]).0@ == pushed.cuid@;
                        if j != i {
                            if j < i {
                                assert(self.cseq_map@[j].0@ != self.cseq_map@[i as int].0@);
                            } else {
                                assert(self.cseq_map@[i as int].0@ != self.cseq_map@[j].0@);
                            }
                        }
                    }
                    self.cseq_map[i].1.cseq
                },
                None => 0,
            }
        } else {
            self.push_transactions(pushed)
        };
        let ghost h = self.history@;
        let ghost me = pushed.cuid@;
        let ghost s0 = pushed.checkpoint.sseq;
        let n = self.history.len();
        let mut i: usize = 0;
        proof {
            assert(h.take(0) =~= Seq::<Transaction>::empty());
        }
        while i < n
            invariant
                0 <= i <= n,
                n == h.len(),
                h == self.history@,
                pulled.error is None,
                pulled.state == DatatypeState::Subscribed,
                pulled.cuid@ == me,
                pulled.duid@ == pushed.duid@,
                pulled.key@ == pushed.key@,
                me == pushed.cuid@,
                s0 == pushed.checkpoint.sseq,
                pulled.transactions@.len() == others_after(h.take(i as int), me, s0).len(),
                forall|k: int|
                    0 <= k < pulled.transactions@.len() ==> #[trigger] pulled.transactions@[k].view_eq(
                        &others_after(h.take(i as int), me, s0)[k],
                    ),
            decreases n - i,
        {
            let tx = &self.history[i];
            proof {
                assert(h.take(i as int + 1).drop_last() =~= h.take(i as int));
                assert(h.take(i as int + 1).last() == h[i as int]);
            }
            if tx.sseq > pushed.checkpoint.sseq && !(tx.cuid == pushed.cuid) {
                pulled.transactions.push(tx.duplicate());
            }
            i += 1;
        }
        proof {
            assert(h.take(n as int) =~= h);
        }
        pulled.checkpoint = CheckPoint::new(self.sseq, cseq);
        Ok(pulled)
    }
}

} // verus!
