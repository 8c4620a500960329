use vstd::prelude::*;
use vstd::string::*;

use crate::connectivity::{is_pushable, Connectivity};
use crate::crdt::{is_local_op, wrap64, ReturnType};
use crate::errors::{ClientPushPullError, DatatypeError};
use crate::mutable::{Attribute, MutableDatatype};
use crate::operations::{tag_size, Operation, COUNTER_INCREASE_SIZE, TRANSACTION_CONSTANT_SIZE};
use crate::types::{DataType, DatatypeState};
use crate::wired::WiredDatatype;

verus! {

/// A conflict-free counter: increases commute, and each one is committed as
/// its own transaction unless a transaction is open.
#[derive(Debug)]
pub struct Counter {
    pub datatype: WiredDatatype,
    pub in_transaction: bool,
}

impl Counter {
    pub open spec fn wf(&self) -> bool {
        &&& self.datatype.mutable.wf()
        &&& self.datatype.mutable.attr.kind == DataType::Counter
        &&& !self.in_transaction ==> self.datatype.mutable.transaction is None
    }

    pub open spec fn mutable(&self) -> MutableDatatype {
        self.datatype.mutable
    }

    /// Writable: the state allows writes and the datatype is not read-only.
    pub open spec fn writable(&self) -> bool {
        self.mutable().state.writable() && !self.mutable().attr.is_readonly
    }

    pub open spec fn value(&self) -> i64 {
        self.mutable().crdt.value()
    }

    /// Room for one more increase within the machine's integers.
    pub open spec fn has_room(&self) -> bool {
        self.mutable().has_room()
    }

    pub fn new(attr: Attribute, state: DatatypeState) -> (r: Counter)
        requires
            attr.kind == DataType::Counter,
            attr.option.wf(),
        ensures
            r.wf(),
            r.value() == 0,
            r.mutable().state == state,
            r.mutable().attr == attr,
            !r.in_transaction,
            r.mutable().push_buffer.txs().len() == 0,
            r.mutable().transaction is None,
            r.mutable().op_id.cseq == 0,
            r.mutable().op_id.lamport == 0,
            r.mutable().checkpoint == (crate::types::CheckPoint { sseq: 0, cseq: 0 }),
    {
        Counter {
            datatype: WiredDatatype { mutable: MutableDatatype::new(attr, state) },
            in_transaction: false,
        }
    }

    pub fn is_writable(&self) -> (r: bool)
        ensures
            r == self.writable(),
    {
        self.datatype.mutable.state.is_read_writable() && !self.datatype.mutable.attr.is_readonly
    }

    /// The effect of adding `delta`: the value wraps the sum, a commit adds
    /// one transaction of fixed size, and the ids advance by at most one
    /// cseq and two lamports.
    pub open spec fn increase_post(
        old: Counter,
        new: Counter,
        delta: i64,
        r: Result<i64, DatatypeError>,
    ) -> bool {
        let fits = old.mutable().push_buffer.mem_size + TRANSACTION_CONSTANT_SIZE
            + COUNTER_INCREASE_SIZE <= old.mutable().push_buffer.option.max_mem_size_of_push_buffer;
        &&& new.wf()
        &&& new.in_transaction == old.in_transaction
        &&& new.mutable().state == old.mutable().state
        &&& new.mutable().checkpoint == old.mutable().checkpoint
        &&& new.mutable().attr == old.mutable().attr
        &&& new.mutable().op_id.cseq <= old.mutable().op_id.cseq + 1
        &&& new.mutable().op_id.lamport <= old.mutable().op_id.lamport + 2
        &&& new.mutable().open_size() <= old.mutable().open_size() + COUNTER_INCREASE_SIZE
        &&& !old.writable() ==> (r matches Err(DatatypeError::FailedToWrite(_)) && new.mutable()
            == old.mutable())
        &&& old.writable() && old.in_transaction ==> {
            &&& new.value() == wrap64(old.value() + delta)
            &&& r == Ok::<i64, DatatypeError>(new.value())
            &&& new.mutable().push_buffer == old.mutable().push_buffer
            &&& new.mutable().committed_value() == old.mutable().committed_value()
        }
        &&& old.writable() && !old.in_transaction && fits ==> {
            &&& new.value() == wrap64(old.value() + delta)
            &&& r == Ok::<i64, DatatypeError>(new.value())
            &&& new.mutable().push_buffer.txs().len() == old.mutable().push_buffer.txs().len() + 1
            &&& new.mutable().push_buffer.txs().drop_last() == old.mutable().push_buffer.txs()
            &&& new.mutable().push_buffer.txs().last().spec_size() == TRANSACTION_CONSTANT_SIZE
                + COUNTER_INCREASE_SIZE
            &&& new.mutable().push_buffer.mem_size == old.mutable().push_buffer.mem_size
                + TRANSACTION_CONSTANT_SIZE + COUNTER_INCREASE_SIZE
        }
        &&& old.writable() && !old.in_transaction && !fits ==> {
            &&& r matches Err(DatatypeError::FailedTransaction(_))
            &&& new.value() == old.value()
            &&& new.mutable().push_buffer == old.mutable().push_buffer
        }
    }

    /// Adds `delta` and returns the new value. Outside a transaction the
    /// increase is committed at once. A datatype that is not writable yields
    /// `FailedToWrite` and is left as it was; a push buffer that cannot take
    /// the commit yields `FailedTransaction` and the increase is undone.
    pub fn increase_by(&mut self, delta: i64) -> (r: Result<i64, DatatypeError>)
        requires
            old(self).wf(),
            old(self).has_room(),
        ensures
            Self::increase_post(*old(self), *final(self), delta, r),
    {
        if !self.is_writable() {
            return Err(DatatypeError::FailedToWrite(String::from_str("datatype is not writable")));
        }
        let op = Operation::new_counter_increase(delta);
        let ghost v0 = self.datatype.mutable.crdt.value();
        let ghost before = self.datatype.mutable;
        let result = self.datatype.mutable.execute_local_operation(op);
        assert(is_local_op(op));
        let value = match result {
            Ok(ReturnType::Counter(v)) => v,
            _ => {
                return Err(DatatypeError::FailedToExecuteOperation(String::from_str("unexpected return type")));
            },
        };
        if self.in_transaction {
            return Ok(value);
        }
        proof {
            let t = self.datatype.mutable.transaction->0;
            assert(t.operations@.len() == 1);
            assert(t.operations@.drop_last() =~= Seq::<Operation>::empty());
            assert(crate::operations::ops_size(Seq::<Operation>::empty()) == 0);
            assert(t.tag is None);
            assert(before.committed_value() == v0) by {
                crate::crdt::lemma_wrap64_id(v0);
                crate::crdt::lemma_wrap64_shift(before.committed_value() as int, 0);
            }
        }
        match self.datatype.mutable.end_transaction(None, true) {
            Ok(_) => Ok(value),
            Err(_) => Err(
                DatatypeError::FailedTransaction(
                    String::from_str("push buffer exceeded its memory bound"),
                ),
            ),
        }
    }

    /// Adds one.
    pub fn increase(&mut self) -> (r: Result<i64, DatatypeError>)
        requires
            old(self).wf(),
            old(self).has_room(),
        ensures
            Self::increase_post(*old(self), *final(self), 1, r),
    {
        self.increase_by(1)
    }

    /// The current value.
    pub fn get_value(&self) -> (r: i64)
        ensures
            r == self.value(),
    {
        self.datatype.mutable.crdt.get_value()
    }

    /// Opens a transaction: increases stay in it until it ends. A datatype
    /// that is not writable yields `FailedToWrite`.
    pub fn begin_transaction(&mut self) -> (r: Result<(), DatatypeError>)
        requires
            old(self).wf(),
            !old(self).in_transaction,
        ensures
            final(self).wf(),
            final(self).mutable() == old(self).mutable(),
            !old(self).writable() ==> (r matches Err(DatatypeError::FailedToWrite(_))
                && !final(self).in_transaction),
            old(self).writable() ==> (r is Ok && final(self).in_transaction),
    {
        if !self.is_writable() {
            return Err(DatatypeError::FailedToWrite(String::from_str("datatype is not writable")));
        }
        self.in_transaction = true;
        Ok(())
    }

    /// Ends the open transaction. With `Ok`, its increases are committed
    /// under `tag`; with `Err(cause)`, or when the push buffer cannot take
    /// them, they are rolled back and `FailedTransaction` is returned. Either
    /// way the value is then that of the committed history.
    pub fn end_transaction(&mut self, tag: String, outcome: Result<(), String>) -> (r: Result<
        (),
        DatatypeError,
    >)
        requires
            old(self).wf(),
            old(self).in_transaction,
            old(self).mutable().transaction matches Some(t) ==> t.spec_size() + tag_size(Some(tag))
                <= u64::MAX,
        ensures
            final(self).wf(),
            !final(self).in_transaction,
            final(self).mutable().transaction is None,
            final(self).value() == final(self).mutable().committed_value(),
            final(self).mutable().state == old(self).mutable().state,
            final(self).mutable().checkpoint == old(self).mutable().checkpoint,
            final(self).mutable().attr == old(self).mutable().attr,
            final(self).mutable().op_id.cseq <= old(self).mutable().op_id.cseq,
            final(self).mutable().op_id.lamport <= old(self).mutable().op_id.lamport,
            outcome is Err ==> {
                &&& r matches Err(DatatypeError::FailedTransaction(_))
                &&& final(self).value() == old(self).mutable().committed_value()
                &&& final(self).mutable().push_buffer == old(self).mutable().push_buffer
            },
            (outcome is Ok && old(self).mutable().transaction is None) ==> {
                &&& r is Ok
                &&& final(self).mutable().push_buffer == old(self).mutable().push_buffer
            },
            (outcome is Ok && old(self).mutable().transaction is Some) ==> ({
                let t = old(self).mutable().transaction->0;
                let fits = old(self).mutable().push_buffer.mem_size + t.spec_size() + tag_size(
                    Some(tag),
                ) <= old(self).mutable().push_buffer.option.max_mem_size_of_push_buffer;
                &&& fits ==> r is Ok
                &&& fits ==> final(self).value() == old(self).value()
                &&& fits ==> final(self).mutable().push_buffer.txs().drop_last()
                    == old(self).mutable().push_buffer.txs()
                &&& fits ==> final(self).mutable().push_buffer.txs().last().operations@
                    == t.operations@
                &&& !fits ==> (r matches Err(DatatypeError::FailedTransaction(_)))
                &&& !fits ==> final(self).value() == old(self).mutable().committed_value()
            }),
    {
        self.in_transaction = false;
        match outcome {
            Ok(()) => match self.datatype.mutable.end_transaction(Some(tag), true) {
                Ok(_) => Ok(()),
                Err(_) => Err(
                    DatatypeError::FailedTransaction(
                        String::from_str("push buffer exceeded its memory bound"),
                    ),
                ),
            },
            Err(cause) => {
                let _ = self.datatype.mutable.end_transaction(None, false);
                Err(DatatypeError::FailedTransaction(cause))
            },
        }
    }

    /// One round of push and pull with the server. A datatype in a state
    /// without a push, or whose checkpoint lies before its buffer, yields
    /// `FailureInEventLoop` unchanged; a failing connectivity yields
    /// `FailedToPushPull` unchanged.
    pub fn sync<C: Connectivity>(&mut self, conn: &mut C) -> (r: Result<(), DatatypeError>)
        requires
            old(self).wf(),
            !old(self).in_transaction,
            old(conn).inv(),
        ensures
            final(self).wf(),
            final(conn).inv(),
            !final(self).in_transaction,
            final(self).mutable().checkpoint.sseq >= old(self).mutable().checkpoint.sseq,
            final(self).mutable().checkpoint.cseq >= old(self).mutable().checkpoint.cseq,
            final(self).mutable().push_buffer == old(self).mutable().push_buffer,
            final(self).mutable().op_id@ == old(self).mutable().op_id@,
            final(self).mutable().attr.is_readonly == old(self).mutable().attr.is_readonly,
            final(self).mutable().attr.key@ == old(self).mutable().attr.key@,
            !is_pushable(old(self).mutable().state) ==> (r matches Err(
                DatatypeError::FailureInEventLoop(_),
            ) && final(self).mutable() == old(self).mutable()),
            old(self).mutable().push_from() < old(self).mutable().push_buffer.first_cseq ==> (
            r matches Err(DatatypeError::FailureInEventLoop(_)) && final(self).mutable() == old(
                self,
            ).mutable()),
            r matches Err(DatatypeError::FailedToPushPull(_)) ==> final(self).mutable() == old(
                self,
            ).mutable(),
    {
        match self.datatype.push_pull(conn) {
            Ok(()) => Ok(()),
            Err(ClientPushPullError::FailedInConnectivity(e)) => Err(DatatypeError::FailedToPushPull(e)),
            Err(_) => Err(DatatypeError::FailureInEventLoop(String::from_str("push and pull failed"))),
        }
    }

    pub fn get_key(&self) -> (r: &str)
        ensures
            r@ == self.mutable().attr.key@,
    {
        self.datatype.mutable.attr.key.as_str()
    }

    pub fn get_type(&self) -> (r: DataType)
        ensures
            r == self.mutable().attr.kind,
    {
        self.datatype.mutable.attr.kind
    }

    pub fn get_state(&self) -> (r: DatatypeState)
        ensures
            r == self.mutable().state,
    {
        self.datatype.mutable.state
    }

    /// The sseq that the datatype has acknowledged from the server.
    pub fn get_server_version(&self) -> (r: u64)
        ensures
            r == self.mutable().checkpoint.sseq,
    {
        self.datatype.mutable.checkpoint.sseq
    }

    /// The cseq of the datatype's latest local transaction.
    pub fn get_client_version(&self) -> (r: u64)
        ensures
            r == self.mutable().op_id.cseq,
    {
        self.datatype.mutable.op_id.cseq
    }

    /// The cseq that the server has acknowledged.
    pub fn get_synced_client_version(&self) -> (r: u64)
        ensures
            r == self.mutable().checkpoint.cseq,
    {
        self.datatype.mutable.checkpoint.cseq
    }

    pub fn get_duid(&self) -> (r: &crate::types::Duid)
        ensures
            r@ == self.mutable().attr.duid@,
    {
        &self.datatype.mutable.attr.duid
    }
}

} // verus!
