use vstd::prelude::*;

use crate::crdt::{
    is_local_op, lemma_wrap64_id, lemma_wrap64_shift, op_delta, ops_delta, remote_result,
    txs_delta, wrap64,
};
use crate::mutable::{all_local, MutableDatatype};
use crate::operations::{Operation, Transaction};
use crate::pull_handler::{pulled_result, remote_ops_result};
use crate::push_buffer::{txs_size, MemoryPushBuffer};
use crate::server::{accepted, accepted_count, history_value, running_cseq};
use crate::types::CheckPoint;

verus! {

/// The committed transactions of a datatype that started from cseq zero
/// carry the cseqs 1, 2, 3, ... in order.
pub proof fn lemma_cseqs_count_from_one(m: MutableDatatype)
    requires
        m.wf(),
        m.rollback.op_id.cseq == 0,
    ensures
        forall|i: int|
            0 <= i < m.push_buffer.txs().len() ==> #[trigger] m.push_buffer.txs()[i].cseq == i + 1,
        m.committed_cseq() == m.push_buffer.txs().len(),
{
}

/// Whether some transaction of `b` carries `c`.
pub open spec fn holds_cseq(b: MemoryPushBuffer, c: u64) -> bool {
    exists|i: int| 0 <= i < b.txs().len() && #[trigger] b.txs()[i].cseq == c
}

/// A well-formed push buffer holds exactly the cseqs from `first_cseq` to
/// `last_cseq`, one each, and its memory size is the sum of their sizes.
pub proof fn lemma_push_buffer_contiguity(b: MemoryPushBuffer)
    requires
        b.wf(),
    ensures
        b.txs().len() > 0 ==> forall|c: u64|
            b.first_cseq <= c <= b.last_cseq <==> #[trigger] holds_cseq(b, c),
        b.txs().len() == 0 ==> b.first_cseq == 0 && b.last_cseq == 0 && b.mem_size == 0,
        b.mem_size == txs_size(b.txs()),
{
    if b.txs().len() > 0 {
        assert forall|c: u64| b.first_cseq <= c <= b.last_cseq <==> #[trigger] holds_cseq(b, c) by {
            if b.first_cseq <= c <= b.last_cseq {
                let i = c - b.first_cseq;
                assert(b.txs()[i].cseq == c);
            }
        }
    }
}

/// Outside a transaction the CRDT holds the committed value: the value right
/// after the last committed transaction, to which a rollback returns.
pub proof fn lemma_idle_value_is_committed(m: MutableDatatype)
    requires
        m.wf(),
        m.transaction is None,
    ensures
        m.crdt.value() == m.committed_value(),
{
    lemma_wrap64_id(m.committed_value());
}

/// Advancing a checkpoint by another never lowers either of its fields.
pub proof fn lemma_checkpoint_monotone(cp: CheckPoint, other: CheckPoint)
    ensures
        cp.max_with(other).sseq >= cp.sseq,
        cp.max_with(other).cseq >= cp.cseq,
        cp.max_with(other).max_with(other) == cp.max_with(other),
{
}

/// Pulled increases add their deltas, wrapping around.
pub proof fn lemma_local_ops_as_pulled(v: i64, ops: Seq<Operation>)
    requires
        all_local(ops),
    ensures
        remote_ops_result(v, ops) == wrap64(v + ops_delta(ops)),
    decreases ops.len(),
{
    if ops.len() == 0 {
        lemma_wrap64_id(v);
    } else {
        assert(all_local(ops.drop_last())) by {
            assert forall|j: int| 0 <= j < ops.drop_last().len() implies is_local_op(
                #[trigger] ops.drop_last()[j],
            ) by {
                assert(ops.drop_last()[j] == ops[j]);
            }
        }
        lemma_local_ops_as_pulled(v, ops.drop_last());
        assert(is_local_op(ops[ops.len() - 1]));
        lemma_wrap64_shift(v + ops_delta(ops.drop_last()), op_delta(ops.last()));
    }
}

/// A history of increases is worth the wrapped sum of their deltas.
pub proof fn lemma_history_value_of_increases(h: Seq<Transaction>)
    requires
        forall|i: int| 0 <= i < h.len() ==> all_local(#[trigger] h[i].operations@),
    ensures
        history_value(h) == wrap64(txs_delta(h)),
    decreases h.len(),
{
    if h.len() == 0 {
        lemma_wrap64_id(0);
    } else {
        assert forall|i: int| 0 <= i < h.drop_last().len() implies all_local(
            #[trigger] h.drop_last()[i].operations@,
        ) by {
            assert(h.drop_last()[i] == h[i]);
        }
        lemma_history_value_of_increases(h.drop_last());
        assert(all_local(h[h.len() - 1].operations@));
        lemma_local_ops_as_pulled(history_value(h.drop_last()), h.last().operations@);
        lemma_wrap64_shift(txs_delta(h.drop_last()), ops_delta(h.last().operations@));
    }
}

/// A subscriber that starts from zero and applies the snapshot transaction
/// that the server sends for a history of increases ends with the wrapped
/// sum of all their deltas: the value that the creator holds after
/// committing that history.
pub proof fn lemma_subscribe_consistency(
    history: Seq<Transaction>,
    snapshot: Transaction,
    subscriber: Seq<char>,
)
    requires
        forall|i: int| 0 <= i < history.len() ==> all_local(#[trigger] history[i].operations@),
        snapshot.operations@ == seq![Operation::snapshot_of(history_value(history))],
        snapshot.sseq == history.len(),
        snapshot.cuid@ != subscriber,
    ensures
        pulled_result(0, seq![snapshot], subscriber, 0) == wrap64(txs_delta(history)),
        wrap64(0 + txs_delta(history)) == wrap64(txs_delta(history)),
{
    lemma_history_value_of_increases(history);
    let s = seq![snapshot];
    assert(s.drop_last() =~= Seq::<Transaction>::empty());
    assert(s.last() == snapshot);
    let ops = snapshot.operations@;
    assert(ops.drop_last() =~= Seq::<Operation>::empty());
    assert(pulled_result(0, s.drop_last(), subscriber, 0) == 0);
    assert(remote_ops_result(0, ops.drop_last()) == 0);
    assert(ops.last() == Operation::snapshot_of(history_value(history)));
    assert(remote_ops_result(0, ops) == remote_result(0, ops.last()));
    if history.len() == 0 {
        lemma_wrap64_id(0);
        assert(txs_delta(history) == 0);
    } else {
        assert(crate::pull_handler::is_fresh_remote(snapshot, subscriber, 0));
    }
}

/// Once a client's acknowledged cseq covers every cseq of its pushed
/// transactions, which the first push of them brings about, pushing them
/// again adds nothing to the history.
pub proof fn lemma_push_is_idempotent(txs: Seq<Transaction>, c: u64)
    ensures
        accepted_count(txs, running_cseq(txs, c)) == 0,
        accepted(txs, running_cseq(txs, c)).len() == 0,
        running_cseq(txs, running_cseq(txs, c)) == running_cseq(txs, c),
{
    lemma_running_covers(txs, c);
    lemma_nothing_past(txs, running_cseq(txs, c));
}

proof fn lemma_running_covers(txs: Seq<Transaction>, c: u64)
    ensures
        running_cseq(txs, c) >= c,
        forall|i: int| 0 <= i < txs.len() ==> #[trigger] txs[i].cseq <= running_cseq(txs, c),
    decreases txs.len(),
{
    if txs.len() > 0 {
        lemma_running_covers(txs.drop_last(), c);
        assert forall|i: int| 0 <= i < txs.len() implies #[trigger] txs[i].cseq <= running_cseq(
            txs,
            c,
        ) by {
            if i < txs.len() - 1 {
                assert(txs.drop_last()[i] == txs[i]);
            }
        }
    }
}

proof fn lemma_nothing_past(txs: Seq<Transaction>, c: u64)
    requires
        forall|i: int| 0 <= i < txs.len() ==> #[trigger] txs[i].cseq <= c,
    ensures
        accepted_count(txs, c) == 0,
        accepted(txs, c).len() == 0,
        running_cseq(txs, c) == c,
    decreases txs.len(),
{
    if txs.len() > 0 {
        assert forall|i: int| 0 <= i < txs.drop_last().len() implies #[trigger] txs.drop_last()[i].cseq
            <= c by {
            assert(txs.drop_last()[i] == txs[i]);
        }
        lemma_nothing_past(txs.drop_last(), c);
        assert(txs[txs.len() - 1].cseq <= c);
    }
}

} // verus!
