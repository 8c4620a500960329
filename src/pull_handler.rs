use vstd::prelude::*;

use crate::crdt::{lemma_wrap64_shift, remote_result, Crdt};
use crate::errors::{ClientPushPullError, ServerPushPullError};
use crate::mutable::MutableDatatype;
use crate::operations::{Operation, Transaction};
use crate::push_pull_pack::PushPullPack;
use crate::types::DatatypeState;

verus! {

/// What follows a synchronization.
#[derive(Debug, Clone, Copy, PartialEq, Eq, Structural)]
pub enum CaseAfterSync {
    Normal,
    BackOff,
    Reset,
    Halt,
}

/// The state that a pull moves a datatype to, and whether it confirms the
/// datatype's creation. Pairs without a rule keep the state.
pub open spec fn transition(old: DatatypeState, pulled: DatatypeState) -> (DatatypeState, bool) {
    if old == DatatypeState::DueToCreate && pulled == DatatypeState::DueToCreate {
        (DatatypeState::Subscribed, true)
    } else if old == DatatypeState::DueToSubscribe && pulled == DatatypeState::DueToSubscribe {
        (DatatypeState::Subscribed, false)
    } else if old == DatatypeState::DueToSubscribeOrCreate && pulled == DatatypeState::DueToCreate {
        (DatatypeState::Subscribed, true)
    } else if old == DatatypeState::DueToSubscribeOrCreate && pulled
        == DatatypeState::DueToSubscribe {
        (DatatypeState::Subscribed, false)
    } else {
        (old, false)
    }
}

/// The value after applying `ops` as pulled operations.
pub open spec fn remote_ops_result(v: i64, ops: Seq<Operation>) -> i64
    decreases ops.len(),
{
    if ops.len() == 0 {
        v
    } else {
        remote_result(remote_ops_result(v, ops.drop_last()), ops.last())
    }
}

/// A pulled transaction that is neither this client's own nor already
/// covered by the checkpoint.
pub open spec fn is_fresh_remote(tx: Transaction, me: Seq<char>, cp_sseq: u64) -> bool {
    tx.cuid@ != me && tx.sseq > cp_sseq
}

/// The value after applying, in order, the fresh remote transactions of
/// `txs`.
pub open spec fn pulled_result(v: i64, txs: Seq<Transaction>, me: Seq<char>, cp_sseq: u64) -> i64
    decreases txs.len(),
{
    if txs.len() == 0 {
        v
    } else {
        let p = pulled_result(v, txs.drop_last(), me, cp_sseq);
        if is_fresh_remote(txs.last(), me, cp_sseq) {
            remote_ops_result(p, txs.last().operations@)
        } else {
            p
        }
    }
}

/// Applies a pulled pack to a datatype: decodes the server's error, moves
/// the lifecycle state, applies fresh remote transactions, and advances the
/// checkpoint.
#[derive(Debug, Clone, Copy, PartialEq, Eq, Structural)]
pub struct PullHandler {
    pub old_state: DatatypeState,
    pub new_state: DatatypeState,
    pub is_created: bool,
}

impl PullHandler {
    pub fn new(mutable: &MutableDatatype) -> (r: PullHandler)
        ensures
            r.old_state == mutable.state,
            r.new_state == mutable.state,
            !r.is_created,
    {
        PullHandler { old_state: mutable.state, new_state: mutable.state, is_created: false }
    }

    /// Applies `pulled` to `mutable`.
    ///
    /// - An `IllegalPushRequest` from the server disables the datatype and
    ///   yields `FailedAndAbort` with its reason; nothing else changes.
    /// - `FailedToCreate` and `FailedToSubscribe` leave the state, the CRDT
    ///   and the buffer as they were, to be pushed again; the checkpoint
    ///   still advances to the component-wise maximum with the pulled one.
    /// - Otherwise the state moves by `transition`; a datatype that becomes
    ///   subscribed takes the server's duid; the fresh remote transactions
    ///   are applied to the committed base, under the buffered local ones;
    ///   the checkpoint becomes the component-wise maximum with the pulled
    ///   one.
    pub fn apply(&mut self, pulled: &PushPullPack, mutable: &mut MutableDatatype) -> (r: Result<
        (),
        ClientPushPullError,
    >)
        requires
            old(mutable).wf(),
            old(mutable).transaction is None,
            old(self).old_state == old(mutable).state,
        ensures
            final(mutable).wf(),
            final(mutable).transaction is None,
            final(mutable).push_buffer == old(mutable).push_buffer,
            final(mutable).checkpoint.sseq >= old(mutable).checkpoint.sseq,
            final(mutable).checkpoint.cseq >= old(mutable).checkpoint.cseq,
            final(mutable).op_id@ == old(mutable).op_id@,
            final(mutable).attr.cuid@ == old(mutable).attr.cuid@,
            final(mutable).attr.key@ == old(mutable).attr.key@,
            final(mutable).attr.kind == old(mutable).attr.kind,
            final(mutable).attr.is_readonly == old(mutable).attr.is_readonly,
            final(mutable).attr.option == old(mutable).attr.option,
            final(mutable).attr.collection@ == old(mutable).attr.collection@,
            pulled.error matches Some(ServerPushPullError::IllegalPushRequest(reason)) ==> {
                &&& r == Err::<(), ClientPushPullError>(ClientPushPullError::FailedAndAbort(reason))
                &&& final(mutable).state == DatatypeState::Disabled
                &&& final(mutable).crdt == old(mutable).crdt
                &&& final(mutable).checkpoint == old(mutable).checkpoint
                &&& final(mutable).attr.duid@ == old(mutable).attr.duid@
            },
            (pulled.error matches Some(e) && !(e is IllegalPushRequest)) ==> {
                &&& r is Ok
                &&& final(mutable).state == old(mutable).state
                &&& final(mutable).crdt == old(mutable).crdt
                &&& final(mutable).rollback == old(mutable).rollback
                &&& final(mutable).checkpoint == old(mutable).checkpoint.max_with(pulled.checkpoint)
                &&& final(mutable).attr.duid@ == old(mutable).attr.duid@
            },
            pulled.error is None ==> {
                let (new_state, is_created) = transition(old(mutable).state, pulled.state);
                &&& r is Ok
                &&& final(mutable).state == new_state
                &&& final(self).new_state == new_state
                &&& final(self).is_created == is_created
                &&& final(mutable).checkpoint == old(mutable).checkpoint.max_with(pulled.checkpoint)
                &&& final(mutable).rollback.shadow_crdt.value() == pulled_result(
                    old(mutable).rollback.shadow_crdt.value(),
                    pulled.transactions@,
                    old(mutable).attr.cuid@,
                    old(mutable).checkpoint.sseq,
                )
                &&& final(mutable).crdt.value() == final(mutable).committed_value()
                &&& (new_state != old(mutable).state ==> final(mutable).attr.duid@ == pulled.duid@)
                &&& (new_state == old(mutable).state ==> final(mutable).attr.duid@ == old(
                    mutable,
                ).attr.duid@)
            },
    {
        match &pulled.error {
            Some(ServerPushPullError::IllegalPushRequest(reason)) => {
                mutable.state = DatatypeState::Disabled;
                mutable.rollback.state = DatatypeState::Disabled;
                return Err(ClientPushPullError::FailedAndAbort(reason.clone()));
            },
            Some(_) => {
                mutable.checkpoint.check_with(&pulled.checkpoint);
                return Ok(());
            },
            None => {},
        }
        self.handle_datatype_state(pulled.state);
        self.execute_transactions(pulled, mutable);
        mutable.checkpoint.check_with(&pulled.checkpoint);
        if self.new_state != self.old_state {
            mutable.state = self.new_state;
            mutable.rollback.state = self.new_state;
            mutable.attr.duid = pulled.duid.clone();
        }
        Ok(())
    }

    fn handle_datatype_state(&mut self, pulled_state: DatatypeState)
        ensures
            final(self).old_state == old(self).old_state,
            (final(self).new_state, final(self).is_created) == transition(
                old(self).old_state,
                pulled_state,
            ),
    {
        let old = self.old_state;
        if old == DatatypeState::DueToCreate && pulled_state == DatatypeState::DueToCreate {
            self.new_state = DatatypeState::Subscribed;
            self.is_created = true;
        } else if old == DatatypeState::DueToSubscribe && pulled_state
            == DatatypeState::DueToSubscribe {
            self.new_state = DatatypeState::Subscribed;
            self.is_created = false;
        } else if old == DatatypeState::DueToSubscribeOrCreate && pulled_state
            == DatatypeState::DueToCreate {
            self.new_state = DatatypeState::Subscribed;
            self.is_created = true;
        } else if old == DatatypeState::DueToSubscribeOrCreate && pulled_state
            == DatatypeState::DueToSubscribe {
            self.new_state = DatatypeState::Subscribed;
            self.is_created = false;
        } else {
            self.new_state = old;
            self.is_created = false;
        }
    }

    /// Applies the fresh remote transactions of `pulled` to the committed
    /// base, then rebuilds the CRDT from it and the push buffer.
    fn execute_transactions(&self, pulled: &PushPullPack, mutable: &mut MutableDatatype)
        requires
            old(mutable).wf(),
            old(mutable).transaction is None,
        ensures
            final(mutable).wf(),
            final(mutable).transaction is None,
            final(mutable).push_buffer == old(mutable).push_buffer,
            final(mutable).checkpoint == old(mutable).checkpoint,
            final(mutable).state == old(mutable).state,
            final(mutable).attr == old(mutable).attr,
            final(mutable).op_id == old(mutable).op_id,
            final(mutable).rollback.op_id == old(mutable).rollback.op_id,
            final(mutable).rollback.state == old(mutable).rollback.state,
            final(mutable).rollback.shadow_crdt.value() == pulled_result(
                old(mutable).rollback.shadow_crdt.value(),
                pulled.transactions@,
                old(mutable).attr.cuid@,
                old(mutable).checkpoint.sseq,
            ),
            final(mutable).crdt.value() == final(mutable).committed_value(),
    {
        let ghost me = mutable.attr.cuid@;
        let ghost v0 = mutable.rollback.shadow_crdt.value();
        let ghost txs = pulled.transactions@;
        let cp_sseq = mutable.checkpoint.sseq;
        let mut shadow: Crdt = mutable.rollback.shadow_crdt;
        let n = pulled.transactions.len();
        let mut i: usize = 0;
        proof {
            assert(txs.take(0) =~= Seq::<Transaction>::empty());
        }
        while i < n
            invariant
                0 <= i <= n,
                n == txs.len(),
                txs == pulled.transactions@,
                me == mutable.attr.cuid@,
                cp_sseq == mutable.checkpoint.sseq,
                shadow.value() == pulled_result(v0, txs.take(i as int), me, cp_sseq),
            decreases n - i,
        {
            let tx = &pulled.transactions[i];
            proof {
                assert(txs.take(i as int + 1).drop_last() =~= txs.take(i as int));
                assert(txs.take(i as int + 1).last() == txs[i as int]);
            }
            if !(tx.cuid == mutable.attr.cuid) && tx.sseq > cp_sseq {
                let ghost ops = tx.operations@;
                let ghost start = shadow.value();
                let m = tx.operations.len();
                let mut j: usize = 0;
                proof {
                    assert(ops.take(0) =~= Seq::<Operation>::empty());
                }
                while j < m
                    invariant
                        0 <= j <= m,
                        m == ops.len(),
                        ops == tx.operations@,
                        shadow.value() == remote_ops_result(start, ops.take(j as int)),
                    decreases m - j,
                {
                    proof {
                        assert(ops.take(j as int + 1).drop_last() =~= ops.take(j as int));
                    }
                    let _ = shadow.execute_remote_operation(&tx.operations[j]);
                    j += 1;
                }
                proof {
                    assert(ops.take(m as int) =~= ops);
                }
            }
            i += 1;
        }
        proof {
            assert(txs.take(n as int) =~= txs);
        }
        mutable.rollback.shadow_crdt = shadow;
        mutable.crdt = shadow;
        proof {
            lemma_wrap64_shift(shadow.value() as int, 0);
            crate::crdt::lemma_wrap64_id(shadow.value());
        }
        mutable.rebuild_from_shadow();
    }
}

} // verus!
