use vstd::prelude::*;
use vstd::string::*;

use crate::crdt::{
    is_local_op, lemma_wrap64_add, lemma_wrap64_id, lemma_wrap64_shift, op_delta, ops_delta,
    txs_delta, wrap64, Crdt, ReturnType,
};
use crate::errors::{ClientPushPullError, DatatypeError, PushBufferError};
use crate::operations::{
    ops_size, tag_size, Operation, OperationId, Transaction, COUNTER_INCREASE_SIZE,
    TRANSACTION_CONSTANT_SIZE,
};
use crate::push_buffer::{
    fit_count, DatatypeOption, MemoryPushBuffer, DEFAULT_MAX_TRANSMISSION_SIZE,
};
use crate::push_pull_pack::{make_resource_id, resource_id_of, PushPullPack};
use crate::types::{is_uid_text, CheckPoint, Cuid, DataType, DatatypeState, Duid};

verus! {

/// The identity of a datatype: its key and kind, its duid, the client that
/// holds it, its options and whether it is read-only.
#[derive(Debug)]
pub struct Attribute {
    pub key: String,
    pub kind: DataType,
    pub duid: Duid,
    pub collection: String,
    pub alias: String,
    pub cuid: Cuid,
    pub option: DatatypeOption,
    pub is_readonly: bool,
}

impl Attribute {
    /// The identity of a new datatype of `kind` under `key`, with a fresh
    /// duid, for the client `cuid` of `collection` under `alias`.
    pub fn new(
        key: &str,
        kind: DataType,
        collection: &str,
        alias: &str,
        cuid: &Cuid,
        option: DatatypeOption,
        is_readonly: bool,
    ) -> (r: Attribute)
        ensures
            r.key@ == key@,
            r.kind == kind,
            is_uid_text(r.duid@),
            r.collection@ == collection@,
            r.alias@ == alias@,
            r.cuid@ == cuid@,
            r.option == option,
            r.is_readonly == is_readonly,
    {
        Attribute {
            key: String::from_str(key),
            kind,
            duid: Duid::new(),
            collection: String::from_str(collection),
            alias: String::from_str(alias),
            cuid: cuid.clone(),
            option,
            is_readonly,
        }
    }

    pub fn resource_id(&self) -> (r: String)
        ensures
            r@ == resource_id_of(self.collection@, self.key@),
    {
        make_resource_id(self.collection.as_str(), self.key.as_str())
    }
}

/// The state as of the last successful commit, from which an aborted
/// transaction is undone.
#[derive(Debug)]
pub struct Rollback {
    pub shadow_crdt: Crdt,
    pub op_id: OperationId,
    pub state: DatatypeState,
}

impl Rollback {
    pub fn new(crdt: Crdt, state: DatatypeState, op_id: OperationId) -> (r: Rollback)
        ensures
            r.shadow_crdt == crdt,
            r.state == state,
            r.op_id == op_id,
    {
        Rollback { shadow_crdt: crdt, op_id, state }
    }
}

/// Every operation of `ops` is stamped at or before `lamport`.
pub open spec fn stamped_by(ops: Seq<Operation>, lamport: u64) -> bool {
    forall|j: int| 0 <= j < ops.len() ==> (#[trigger] ops[j]).lamport <= lamport
}

pub open spec fn all_local(ops: Seq<Operation>) -> bool {
    forall|j: int| 0 <= j < ops.len() ==> is_local_op(#[trigger] ops[j])
}

/// The local state of a datatype: its CRDT, its ids, the open transaction,
/// the rollback shadow, the push buffer and the checkpoint.
#[derive(Debug)]
pub struct MutableDatatype {
    pub attr: Attribute,
    pub crdt: Crdt,
    pub state: DatatypeState,
    pub op_id: OperationId,
    pub transaction: Option<Transaction>,
    pub rollback: Rollback,
    pub push_buffer: MemoryPushBuffer,
    pub checkpoint: CheckPoint,
}

impl MutableDatatype {
    /// The cseq of the last committed transaction.
    pub open spec fn committed_cseq(&self) -> int {
        if self.transaction is Some {
            self.op_id.cseq - 1
        } else {
            self.op_id.cseq as int
        }
    }

    /// The value as of the last committed transaction: the shadow with every
    /// buffered transaction applied.
    pub open spec fn committed_value(&self) -> i64 {
        wrap64(self.rollback.shadow_crdt.value() + txs_delta(self.push_buffer.txs()))
    }

    pub open spec fn open_delta(&self) -> int {
        match self.transaction {
            Some(t) => ops_delta(t.operations@),
            None => 0,
        }
    }

    /// What holds of the committed part alone: the buffer is well formed,
    /// holds this client's local transactions, and follows the shadow's cseq.
    pub open spec fn buffer_ok(&self) -> bool {
        &&& self.push_buffer.wf()
        &&& self.op_id.cuid@ == self.attr.cuid@
        &&& self.rollback.op_id.cuid@ == self.attr.cuid@
        &&& self.rollback.state == self.state
        &&& forall|i: int|
            0 <= i < self.push_buffer.txs().len() ==> {
                &&& (#[trigger] self.push_buffer.txs()[i]).cuid@ == self.attr.cuid@
                &&& all_local(self.push_buffer.txs()[i].operations@)
                &&& self.push_buffer.txs()[i].operations@.len() > 0
                &&& stamped_by(self.push_buffer.txs()[i].operations@, self.op_id.lamport)
            }
        &&& self.push_buffer.txs().len() > 0 ==> self.push_buffer.first_cseq
            == self.rollback.op_id.cseq + 1
        &&& self.rollback.op_id.lamport <= self.op_id.lamport
    }

    pub open spec fn wf(&self) -> bool {
        &&& self.buffer_ok()
        &&& self.committed_cseq() == self.rollback.op_id.cseq + self.push_buffer.txs().len()
        &&& self.push_buffer.txs().len() > 0 ==> self.push_buffer.first_cseq
            == self.rollback.op_id.cseq + 1
        &&& match self.transaction {
            Some(t) => {
                &&& t.cuid@ == self.attr.cuid@
                &&& t.cseq == self.op_id.cseq
                &&& t.cseq >= 1
                &&& all_local(t.operations@)
                &&& t.operations@.len() > 0
                &&& stamped_by(t.operations@, self.op_id.lamport)
                &&& t.tag is None
            },
            None => true,
        }
        &&& self.crdt.value() == wrap64(self.committed_value() + self.open_delta())
    }

    /// The size of the open transaction, or of an empty one.
    pub open spec fn open_size(&self) -> nat {
        match self.transaction {
            Some(t) => t.spec_size(),
            None => TRANSACTION_CONSTANT_SIZE as nat,
        }
    }

    /// Room left in the counters and in the open transaction for one more
    /// operation.
    pub open spec fn has_room(&self) -> bool {
        &&& self.op_id.cseq < u64::MAX
        &&& self.op_id.lamport < u64::MAX - 1
        &&& match self.transaction {
            Some(t) => t.spec_size() + COUNTER_INCREASE_SIZE <= u64::MAX,
            None => true,
        }
    }

    /// A datatype in `state` with an empty history.
    pub fn new(attr: Attribute, state: DatatypeState) -> (r: MutableDatatype)
        requires
            attr.kind == DataType::Counter,
            attr.option.wf(),
        ensures
            r.wf(),
            r.attr == attr,
            r.state == state,
            r.crdt.value() == 0,
            r.transaction is None,
            r.op_id.cseq == 0,
            r.op_id.lamport == 0,
            r.push_buffer.txs().len() == 0,
            r.checkpoint == (CheckPoint { sseq: 0, cseq: 0 }),
    {
        let crdt = Crdt::new(attr.kind);
        let op_id = OperationId::new_with_cuid(&attr.cuid);
        let shadow_id = OperationId::new_with_cuid(&attr.cuid);
        let push_buffer = MemoryPushBuffer::new(attr.option);
        let r = MutableDatatype {
            push_buffer,
            rollback: Rollback::new(crdt, state, shadow_id),
            transaction: None,
            checkpoint: CheckPoint::default(),
            attr,
            crdt,
            state,
            op_id,
        };
        proof {
            lemma_wrap64_id(0);
        }
        r
    }

    /// Applies `op` within the open transaction, opening one first when none
    /// is open. The operation is stamped with the next lamport clock. When the
    /// CRDT rejects it, the id bumps are taken back, a transaction opened for
    /// it is dropped, and `FailedToExecuteOperation` is returned.
    pub fn execute_local_operation(&mut self, op: Operation) -> (r: Result<
        ReturnType,
        DatatypeError,
    >)
        requires
            old(self).wf(),
            old(self).has_room(),
        ensures
            final(self).wf(),
            final(self).push_buffer == old(self).push_buffer,
            final(self).rollback == old(self).rollback,
            final(self).checkpoint == old(self).checkpoint,
            final(self).state == old(self).state,
            final(self).attr == old(self).attr,
            final(self).committed_value() == old(self).committed_value(),
            is_local_op(op) ==> {
                &&& final(self).crdt.value() == wrap64(old(self).crdt.value() + op_delta(op))
                &&& r == Ok::<ReturnType, DatatypeError>(
                    ReturnType::Counter(final(self).crdt.value()),
                )
                &&& final(self).op_id.lamport == old(self).op_id.lamport + if old(self).transaction is None {
                    2int
                } else {
                    1int
                }
                &&& final(self).open_size() == old(self).open_size() + COUNTER_INCREASE_SIZE
                &&& final(self).transaction matches Some(t) && t.operations@.len() > 0
                    && t.operations@.last().body == op.body && t.operations@.last().lamport
                    == final(self).op_id.lamport
                &&& old(self).transaction matches Some(ot) ==> (final(self).transaction matches Some(
                    t,
                ) && t.operations@.drop_last() == ot.operations@ && t.cseq == ot.cseq
                    && final(self).op_id.cseq == old(self).op_id.cseq)
                &&& old(self).transaction is None ==> (final(self).transaction matches Some(t)
                    && t.operations@.len() == 1 && final(self).op_id.cseq == old(self).op_id.cseq
                    + 1)
            },
            !is_local_op(op) ==> {
                &&& r matches Err(DatatypeError::FailedToExecuteOperation(_))
                &&& final(self).crdt == old(self).crdt
                &&& final(self).transaction == old(self).transaction
                &&& final(self).op_id@ == old(self).op_id@
            },
    {
        let is_new_tx = self.transaction.is_none();
        if is_new_tx {
            self.transaction = Some(Transaction::new(&mut self.op_id));
        }
        let mut op = op;
        let lamport = self.op_id.next_lamport();
        op.set_lamport(lamport);
        let ghost before = self.crdt;
        let result = self.crdt.execute_local_operation(&op);
        if result.is_ok() {
            let ghost old_ops = self.transaction->0.operations@;
            match self.transaction.as_mut() {
                Some(tx) => {
                    tx.push_operation(op);
                },
                None => {},
            }
            proof {
                let t = self.transaction->0;
                assert(t.operations@ == old_ops.push(op));
                assert(t.operations@.drop_last() =~= old_ops);
                if is_new_tx {
                    assert(old_ops =~= Seq::<Operation>::empty());
                    assert(ops_delta(old_ops) == 0);
                }
                lemma_wrap64_add(self.committed_value() + ops_delta(old_ops), op_delta(op) as i64);
                assert(ops_size(t.operations@) == ops_size(old_ops) + op.spec_size());
                if is_new_tx {
                    assert(ops_size(old_ops) == 0);
                }
                lemma_wrap64_id(before.value());
                assert(all_local(t.operations@)) by {
                    assert forall|j: int| 0 <= j < t.operations@.len() implies is_local_op(
                        #[trigger] t.operations@[j],
                    ) by {
                        if j < old_ops.len() {
                            assert(t.operations@[j] == old_ops[j]);
                        }
                    }
                }
            }
        } else {
            if is_new_tx {
                self.op_id.prev_cseq();
                self.transaction = None;
            }
            self.op_id.prev_lamport();
        }
        result
    }

    /// Applies every buffered transaction, in order, to the CRDT; with
    /// `sync_ids`, the ids catch up with each replayed operation as well.
    fn replay_push_buffer(&mut self, sync_ids: bool, Ghost(bound): Ghost<u64>)
        requires
            old(self).push_buffer.wf(),
            forall|i: int|
                0 <= i < old(self).push_buffer.txs().len() ==> {
                    &&& all_local((#[trigger] old(self).push_buffer.txs()[i]).operations@)
                    &&& old(self).push_buffer.txs()[i].operations@.len() > 0
                },
            sync_ids ==> (old(self).push_buffer.txs().len() > 0 ==> old(self).push_buffer.first_cseq
                == old(self).op_id.cseq + 1),
            sync_ids ==> old(self).op_id.lamport <= bound,
            sync_ids ==> forall|i: int|
                0 <= i < old(self).push_buffer.txs().len() ==> stamped_by(
                    (#[trigger] old(self).push_buffer.txs()[i]).operations@,
                    bound,
                ),
        ensures
            final(self).crdt.value() == wrap64(
                old(self).crdt.value() + txs_delta(old(self).push_buffer.txs()),
            ),
            final(self).push_buffer == old(self).push_buffer,
            final(self).rollback == old(self).rollback,
            final(self).attr == old(self).attr,
            final(self).state == old(self).state,
            final(self).transaction == old(self).transaction,
            final(self).checkpoint == old(self).checkpoint,
            final(self).op_id.cuid@ == old(self).op_id.cuid@,
            sync_ids ==> final(self).op_id.cseq == old(self).op_id.cseq
                + old(self).push_buffer.txs().len(),
            !sync_ids ==> final(self).op_id == old(self).op_id,
            sync_ids ==> old(self).op_id.lamport <= final(self).op_id.lamport <= bound,
            sync_ids ==> forall|i: int|
                0 <= i < old(self).push_buffer.txs().len() ==> stamped_by(
                    (#[trigger] old(self).push_buffer.txs()[i]).operations@,
                    final(self).op_id.lamport,
                ),
    {
        let ghost txs = self.push_buffer.txs();
        let ghost l0 = self.op_id.lamport;
        let ghost base = self.crdt.value();
        let ghost cseq0 = self.op_id.cseq;
        let n = self.push_buffer.len();
        let mut i: usize = 0;
        proof {
            assert(txs.take(0) =~= Seq::<Transaction>::empty());
            lemma_wrap64_id(base);
        }
        while i < n
            invariant
                n == txs.len(),
                0 <= i <= n,
                self.push_buffer == old(self).push_buffer,
                txs == self.push_buffer.txs(),
                self.push_buffer.wf(),
                self.rollback == old(self).rollback,
                self.attr == old(self).attr,
                self.state == old(self).state,
                self.transaction == old(self).transaction,
                self.checkpoint == old(self).checkpoint,
                self.op_id.cuid@ == old(self).op_id.cuid@,
                forall|k: int|
                    0 <= k < txs.len() ==> {
                        &&& all_local((#[trigger] txs[k]).operations@)
                        &&& txs[k].operations@.len() > 0
                    },
                sync_ids ==> (txs.len() > 0 ==> self.push_buffer.first_cseq == cseq0 + 1),
                self.crdt.value() == wrap64(base + txs_delta(txs.take(i as int))),
                sync_ids ==> self.op_id.cseq == cseq0 + i,
                !sync_ids ==> self.op_id == old(self).op_id,
                sync_ids ==> l0 <= self.op_id.lamport <= bound,
                sync_ids ==> forall|k: int|
                    0 <= k < txs.len() ==> stamped_by((#[trigger] txs[k]).operations@, bound),
                sync_ids ==> forall|k: int|
                    0 <= k < i ==> stamped_by((#[trigger] txs[k]).operations@, self.op_id.lamport),
            decreases n - i,
        {
            let tx = &self.push_buffer.transaction[i];
            let ghost ops = tx.operations@;
            let mut op_id = tx.get_op_id();
            let m = tx.operations.len();
            let mut j: usize = 0;
            proof {
                assert(ops.take(0) =~= Seq::<Operation>::empty());
                lemma_wrap64_shift(base + txs_delta(txs.take(i as int)), 0);
                if sync_ids {
                    assert(tx.cseq == cseq0 + 1 + i);
                }
            }
            while j < m
                invariant
                    0 <= j <= m,
                    m == ops.len(),
                    m > 0,
                    ops == tx.operations@,
                    all_local(ops),
                    sync_ids ==> tx.cseq == cseq0 + 1 + i,
                    op_id.cseq == tx.cseq,
                    self.push_buffer == old(self).push_buffer,
                    tx == &self.push_buffer.transaction@[i as int],
                    self.rollback == old(self).rollback,
                    self.attr == old(self).attr,
                    self.state == old(self).state,
                    self.transaction == old(self).transaction,
                    self.checkpoint == old(self).checkpoint,
                    self.op_id.cuid@ == old(self).op_id.cuid@,
                    self.crdt.value() == wrap64(
                        base + txs_delta(txs.take(i as int)) + ops_delta(ops.take(j as int)),
                    ),
                    sync_ids ==> self.op_id.cseq == if j == 0 { cseq0 + i } else { cseq0 + 1 + i },
                    !sync_ids ==> self.op_id == old(self).op_id,
                    sync_ids ==> l0 <= self.op_id.lamport <= bound,
                    sync_ids ==> stamped_by(ops, bound),
                    sync_ids ==> forall|k: int|
                        0 <= k < txs.len() ==> stamped_by((#[trigger] txs[k]).operations@, bound),
                    sync_ids ==> forall|k: int|
                        0 <= k < i ==> stamped_by((#[trigger] txs[k]).operations@, self.op_id.lamport),
                    sync_ids ==> forall|k: int| 0 <= k < j ==> (#[trigger] ops[k]).lamport <= self.op_id.lamport,
                    ops == txs[i as int].operations@,
                decreases m - j,
            {
                let op = &tx.operations[j];
                op_id.lamport = op.lamport;
                if sync_ids {
                    self.op_id.sync(&op_id);
                }
                let ghost before = self.crdt.value();
                let _ = self.crdt.execute_local_operation(op);
                proof {
                    assert(is_local_op(ops[j as int]));
                    assert(ops.take(j as int + 1).drop_last() =~= ops.take(j as int));
                    lemma_wrap64_add(
                        base + txs_delta(txs.take(i as int)) + ops_delta(ops.take(j as int)),
                        op_delta(*op) as i64,
                    );
                }
                j += 1;
            }
            proof {
                assert(ops.take(m as int) =~= ops);
                assert(txs.take(i as int + 1).drop_last() =~= txs.take(i as int));
                if sync_ids {
                    assert(stamped_by(txs[i as int].operations@, self.op_id.lamport));
                }
            }
            i += 1;
        }
        proof {
            assert(txs.take(n as int) =~= txs);
        }
    }

    /// Restores the ids, the state and the CRDT from the rollback shadow,
    /// drops the open transaction, and replays the push buffer: the CRDT then
    /// holds exactly the committed history.
    pub fn do_rollback(&mut self)
        requires
            old(self).buffer_ok(),
        ensures
            final(self).wf(),
            final(self).transaction is None,
            final(self).crdt.value() == old(self).committed_value(),
            final(self).committed_value() == old(self).committed_value(),
            final(self).op_id.cseq == old(self).rollback.op_id.cseq + old(self).push_buffer.txs().len(),
            final(self).op_id.lamport <= old(self).op_id.lamport,
            final(self).push_buffer == old(self).push_buffer,
            final(self).rollback == old(self).rollback,
            final(self).state == old(self).state,
            final(self).checkpoint == old(self).checkpoint,
            final(self).attr == old(self).attr,
    {
        self.op_id = self.rollback.op_id.clone();
        self.state = self.rollback.state;
        self.crdt = self.rollback.shadow_crdt;
        self.transaction = None;
        self.replay_push_buffer(true, Ghost(old(self).op_id.lamport));
        proof {
            lemma_wrap64_shift(self.committed_value() as int, 0);
        }
    }

    /// Ends the open transaction. When `committed`, the transaction gets
    /// `tag` and joins the push buffer, and `Ok(true)` is returned; when it
    /// would exceed the buffer's bound on memory it is rolled back instead
    /// and `ExceedMaxMemSize` is returned. Otherwise the datatype is rolled
    /// back to its committed history and `Ok(false)` is returned.
    pub fn end_transaction(&mut self, tag: Option<String>, committed: bool) -> (r: Result<
        bool,
        PushBufferError,
    >)
        requires
            old(self).wf(),
            old(self).transaction matches Some(t) ==> t.spec_size() + tag_size(tag) <= u64::MAX,
        ensures
            final(self).wf(),
            final(self).transaction is None,
            final(self).crdt.value() == final(self).committed_value(),
            final(self).state == old(self).state,
            final(self).checkpoint == old(self).checkpoint,
            final(self).attr == old(self).attr,
            final(self).rollback == old(self).rollback,
            (committed && old(self).transaction is Some) ==> ({
                let t = old(self).transaction->0;
                let fits = old(self).push_buffer.mem_size + t.spec_size() + tag_size(tag)
                    <= old(self).push_buffer.option.max_mem_size_of_push_buffer;
                &&& fits ==> r == Ok::<bool, PushBufferError>(true)
                &&& fits ==> final(self).crdt == old(self).crdt
                &&& fits ==> final(self).push_buffer.txs().len() == old(self).push_buffer.txs().len() + 1
                &&& fits ==> final(self).push_buffer.txs().drop_last() == old(self).push_buffer.txs()
                &&& fits ==> final(self).push_buffer.txs().last().operations@ == t.operations@
                &&& fits ==> final(self).push_buffer.txs().last().cseq == t.cseq
                &&& fits ==> final(self).push_buffer.txs().last().tag == tag
                &&& fits ==> final(self).push_buffer.txs().last().cuid == t.cuid
                &&& fits ==> final(self).push_buffer.txs().last().sseq == t.sseq
                &&& fits ==> final(self).push_buffer.txs().last().event == t.event
                &&& fits ==> final(self).push_buffer.txs().last().spec_size() == t.spec_size()
                    + tag_size(tag)
                &&& fits ==> final(self).push_buffer.mem_size == old(self).push_buffer.mem_size
                    + t.spec_size() + tag_size(tag)
                &&& fits ==> final(self).op_id == old(self).op_id
                &&& !fits ==> r == Err::<bool, PushBufferError>(PushBufferError::ExceedMaxMemSize)
                &&& !fits ==> final(self).crdt.value() == old(self).committed_value()
                &&& !fits ==> final(self).push_buffer == old(self).push_buffer
            }),
            final(self).op_id.cseq <= old(self).op_id.cseq,
            final(self).op_id.lamport <= old(self).op_id.lamport,
            (committed && old(self).transaction is None) ==> {
                &&& r == Ok::<bool, PushBufferError>(false)
                &&& final(self).op_id == old(self).op_id
                &&& final(self).crdt == old(self).crdt
                &&& final(self).push_buffer == old(self).push_buffer
            },
            !committed ==> {
                &&& r == Ok::<bool, PushBufferError>(false)
                &&& final(self).crdt.value() == old(self).committed_value()
                &&& final(self).push_buffer == old(self).push_buffer
                &&& final(self).op_id.cseq == old(self).committed_cseq()
            },
    {
        if committed {
            if let Some(mut tx) = self.transaction.take() {
                let ghost old_self = *old(self);
                tx.set_tag(tag);
                if tx.cuid == self.op_id.cuid {
                    let ghost old_txs = self.push_buffer.txs();
                    let ghost t = tx;
                    assert(tx.spec_size() == old_self.transaction->0.spec_size() - tag_size(None) + tag_size(tag));
                    match self.push_buffer.enque(tx) {
                        Ok(()) => {
                            proof {
                                assert(self.push_buffer.txs().drop_last() =~= old_txs);
                                lemma_wrap64_shift(
                                    old_self.rollback.shadow_crdt.value() + txs_delta(old_txs),
                                    ops_delta(t.operations@),
                                );
                                assert forall|i: int| 0 <= i < self.push_buffer.txs().len() implies {
                                    &&& (#[trigger] self.push_buffer.txs()[i]).cuid@ == self.attr.cuid@
                                    &&& all_local(self.push_buffer.txs()[i].operations@)
                                    &&& self.push_buffer.txs()[i].operations@.len() > 0
                                } by {
                                    if i < old_txs.len() {
                                        assert(self.push_buffer.txs()[i] == old_txs[i]);
                                    }
                                }
                            }
                            return Ok(true);
                        },
                        Err(e) => {
                            self.do_rollback();
                            return Err(e);
                        },
                    }
                }
                return Ok(true);
            }
            Ok(false)
        } else {
            self.do_rollback();
            Ok(false)
        }
    }

    /// Whether a push is due: the datatype waits for creation or
    /// subscription, or the buffer holds transactions past the checkpoint.
    pub open spec fn spec_need_push(&self) -> bool {
        self.state == DatatypeState::DueToCreate || self.state == DatatypeState::DueToSubscribe
            || self.state == DatatypeState::DueToSubscribeOrCreate || self.push_buffer.last_cseq
            > self.checkpoint.cseq
    }

    pub fn need_push(&self) -> (r: bool)
        ensures
            r == self.spec_need_push(),
    {
        self.state == DatatypeState::DueToCreate || self.state == DatatypeState::DueToSubscribe
            || self.state == DatatypeState::DueToSubscribeOrCreate || self.push_buffer.last_cseq
            > self.checkpoint.cseq
    }

    /// The cseq from which buffered transactions are pushed.
    pub open spec fn push_from(&self) -> u64 {
        if self.checkpoint.cseq < u64::MAX {
            (self.checkpoint.cseq + 1) as u64
        } else {
            u64::MAX
        }
    }

    /// The pack to push: the datatype's identity and state, the buffered
    /// transactions after the checkpoint that fit into the transmission cap,
    /// and the checkpoint with the cseq of the last of them. Fails when the
    /// checkpoint lies before the buffer.
    pub fn create_push_pull_pack(&self) -> (r: Result<PushPullPack, ClientPushPullError>)
        requires
            self.wf(),
        ensures
            self.push_from() < self.push_buffer.first_cseq ==> r matches Err(
                ClientPushPullError::FailToGetAfter,
            ),
            self.push_from() >= self.push_buffer.first_cseq ==> (r matches Ok(p) && {
                let suffix = self.push_buffer.suffix_from(self.push_from());
                let want = suffix.take(
                    fit_count(suffix, DEFAULT_MAX_TRANSMISSION_SIZE as int) as int,
                );
                &&& p.collection@ == self.attr.collection@
                &&& p.cuid@ == self.attr.cuid@
                &&& p.duid@ == self.attr.duid@
                &&& p.key@ == self.attr.key@
                &&& p.kind == self.attr.kind
                &&& p.state == self.state
                &&& p.is_readonly == self.attr.is_readonly
                &&& !p.has_snapshot
                &&& p.error is None
                &&& p.safe_sseq == 0
                &&& p.transactions@.len() == want.len()
                &&& forall|i: int|
                    0 <= i < want.len() ==> #[trigger] p.transactions@[i].view_eq(&want[i])
                &&& p.checkpoint.sseq == self.checkpoint.sseq
                &&& p.checkpoint.cseq == if want.len() > 0 {
                    want.last().cseq
                } else {
                    self.checkpoint.cseq
                }
            }),
    {
        let mut ppp = PushPullPack::new(
            self.attr.collection.as_str(),
            &self.attr.cuid,
            &self.attr.duid,
            self.attr.key.as_str(),
            self.attr.kind,
            self.state,
            self.attr.is_readonly,
        );
        let from = if self.checkpoint.cseq < u64::MAX {
            self.checkpoint.cseq + 1
        } else {
            u64::MAX
        };
        match self.push_buffer.get_after(from, DEFAULT_MAX_TRANSMISSION_SIZE) {
            Ok((transactions, _size)) => {
                proof {
                    let n = transactions@.len() as int;
                    if n > 0 {
                        assert(transactions@[n - 1].view_eq(
                            &self.push_buffer.suffix_from(from).take(
                                fit_count(self.push_buffer.suffix_from(from), DEFAULT_MAX_TRANSMISSION_SIZE as int) as int,
                            )[n - 1],
                        ));
                    }
                }
                ppp.transactions = transactions;
                ppp.checkpointing(&self.checkpoint, 0);
                Ok(ppp)
            },
            Err(e) => Err(ClientPushPullError::from_push_buffer(e)),
        }
    }

    /// Recomputes the CRDT as the shadow with every buffered transaction
    /// applied; the ids stay as they are.
    pub fn rebuild_from_shadow(&mut self)
        requires
            old(self).buffer_ok(),
            old(self).transaction is None,
            old(self).committed_cseq() == old(self).rollback.op_id.cseq + old(self).push_buffer.txs().len(),
        ensures
            final(self).wf(),
            final(self).crdt.value() == final(self).committed_value(),
            final(self).transaction is None,
            final(self).push_buffer == old(self).push_buffer,
            final(self).rollback == old(self).rollback,
            final(self).state == old(self).state,
            final(self).checkpoint == old(self).checkpoint,
            final(self).attr == old(self).attr,
            final(self).op_id == old(self).op_id,
    {
        self.crdt = self.rollback.shadow_crdt;
        let ghost base = self.crdt.value();
        proof {
            assert(self.push_buffer.txs().len() > 0 ==> self.push_buffer.first_cseq
                == self.rollback.op_id.cseq + 1);
        }
        self.replay_push_buffer(false, Ghost(0));
        proof {
            lemma_wrap64_id(base);
            lemma_wrap64_shift(self.committed_value() as int, 0);
        }
    }
}

} // verus!
