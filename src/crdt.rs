use vstd::prelude::*;
use vstd::string::*;
use vstd::arithmetic::div_mod::{lemma_fundamental_div_mod, lemma_mod_multiples_vanish};

use crate::errors::DatatypeError;
use crate::operations::{Operation, OperationBody, Transaction};
use crate::types::DataType;

verus! {

pub open spec fn i64_range() -> int {
    0x1_0000_0000_0000_0000
}

/// `x` brought into the range of `i64` modulo 2^64, as two's complement
/// arithmetic does.
pub open spec fn wrap64(x: int) -> i64 {
    ((x - i64::MIN) % i64_range() + i64::MIN) as i64
}

pub proof fn lemma_wrap64_id(v: i64)
    ensures
        wrap64(v as int) == v,
{
    assert((v - i64::MIN) % i64_range() == v - i64::MIN);
}

/// Adding to a wrapped value wraps the exact sum.
pub proof fn lemma_wrap64_shift(x: int, y: int)
    ensures
        wrap64(wrap64(x) + y) == wrap64(x + y),
{
    let m = i64_range();
    let a = x - i64::MIN;
    lemma_fundamental_div_mod(a, m);
    let q = a / m;
    let w = wrap64(x) as int;
    assert(0 <= a % m < m);
    assert(w == a % m + i64::MIN);
    assert(w - i64::MIN == a - m * q);
    lemma_mod_multiples_vanish(-q, a + y, m);
    assert(m * (-q) + (a + y) == w - i64::MIN + y);
}

pub proof fn lemma_wrap64_add(x: int, d: i64)
    ensures
        wrap64(x).wrapping_add(d) == wrap64(x + d),
        wrap64(wrap64(x) + d) == wrap64(x + d),
{
    lemma_wrap64_shift(x, d as int);
    lemma_wrap_matches(wrap64(x), d);
}

proof fn lemma_wrap_matches(v: i64, d: i64)
    ensures
        v.wrapping_add(d) == wrap64(v + d),
{
    let m = i64_range();
    let s = v + d;
    if s > i64::MAX {
        lemma_mod_multiples_vanish(1, s - m - i64::MIN, m);
        assert((s - i64::MIN) % m == (s - m - i64::MIN) % m);
        assert((s - m - i64::MIN) % m == s - m - i64::MIN);
    } else if s < i64::MIN {
        lemma_mod_multiples_vanish(-1, s + m - i64::MIN, m);
        assert((s - i64::MIN) % m == (s + m - i64::MIN) % m);
        assert((s + m - i64::MIN) % m == s + m - i64::MIN);
    } else {
        assert((s - i64::MIN) % m == s - i64::MIN);
    }
}

pub open spec fn op_delta(op: Operation) -> int {
    match op.body {
        OperationBody::CounterIncrease(b) => b.delta as int,
        OperationBody::CounterSnapshot(_) => 0,
    }
}

/// An operation that a client may author: an increase.
pub open spec fn is_local_op(op: Operation) -> bool {
    op.body is CounterIncrease
}

/// The exact sum of the deltas of `ops`.
pub open spec fn ops_delta(ops: Seq<Operation>) -> int
    decreases ops.len(),
{
    if ops.len() == 0 {
        0
    } else {
        ops_delta(ops.drop_last()) + op_delta(ops.last())
    }
}

/// The exact sum of the deltas of every operation of `txs`.
pub open spec fn txs_delta(txs: Seq<Transaction>) -> int
    decreases txs.len(),
{
    if txs.len() == 0 {
        0
    } else {
        txs_delta(txs.drop_last()) + ops_delta(txs.last().operations@)
    }
}

/// The value of a counter after a pulled operation.
pub open spec fn remote_result(v: i64, op: Operation) -> i64 {
    match op.body {
        OperationBody::CounterIncrease(b) => wrap64(v + b.delta),
        OperationBody::CounterSnapshot(b) => b.value,
    }
}

/// What a local operation returns.
#[derive(Debug, Clone, Copy, PartialEq, Eq, Structural)]
pub enum ReturnType {
    Nothing,
    Counter(i64),
}

/// The state of a counter.
#[derive(Debug, Clone, Copy, PartialEq, Eq, Structural)]
pub struct CounterCrdt {
    pub value: i64,
}

/// The replicated state of a datatype.
#[derive(Debug, Clone, Copy, PartialEq, Eq, Structural)]
pub enum Crdt {
    Counter(CounterCrdt),
}

impl Crdt {
    pub open spec fn value(self) -> i64 {
        match self {
            Crdt::Counter(c) => c.value,
        }
    }

    /// The initial state of a datatype of kind `t`; only counters exist yet.
    pub fn new(t: DataType) -> (r: Crdt)
        requires
            t == DataType::Counter,
        ensures
            r.value() == 0,
    {
        Crdt::Counter(CounterCrdt { value: 0 })
    }

    pub fn with_value(value: i64) -> (r: Crdt)
        ensures
            r.value() == value,
    {
        Crdt::Counter(CounterCrdt { value })
    }

    pub fn get_value(&self) -> (r: i64)
        ensures
            r == self.value(),
    {
        match self {
            Crdt::Counter(c) => c.value,
        }
    }

    /// Applies a local operation: an increase adds its delta, wrapping around
    /// on overflow, and returns the new value. A snapshot is no local
    /// operation and is rejected, leaving the state as it was.
    pub fn execute_local_operation(&mut self, op: &Operation) -> (r: Result<
        ReturnType,
        DatatypeError,
    >)
        ensures
            is_local_op(*op) ==> final(self).value() == wrap64(old(self).value() + op_delta(*op)),
            is_local_op(*op) ==> r == Ok::<ReturnType, DatatypeError>(
                ReturnType::Counter(final(self).value()),
            ),
            !is_local_op(*op) ==> *final(self) == *old(self),
            !is_local_op(*op) ==> r matches Err(DatatypeError::FailedToExecuteOperation(_)),
    {
        proof {
            lemma_wrap_matches(self.value(), op_delta(*op) as i64);
        }
        match (self, &op.body) {
            (Crdt::Counter(c), OperationBody::CounterIncrease(b)) => {
                c.value = c.value.wrapping_add(b.delta);
                Ok(ReturnType::Counter(c.value))
            },
            (Crdt::Counter(_), OperationBody::CounterSnapshot(_)) => {
                Err(DatatypeError::FailedToExecuteOperation(String::from_str("snapshot is no local operation")))
            },
        }
    }

    /// Applies an operation that the server handed over: an increase adds its
    /// delta, wrapping around; a snapshot replaces the value.
    pub fn execute_remote_operation(&mut self, op: &Operation) -> (r: ReturnType)
        ensures
            final(self).value() == remote_result(old(self).value(), *op),
            r == ReturnType::Counter(final(self).value()),
    {
        proof {
            lemma_wrap_matches(self.value(), op_delta(*op) as i64);
        }
        match (self, &op.body) {
            (Crdt::Counter(c), OperationBody::CounterIncrease(b)) => {
                c.value = c.value.wrapping_add(b.delta);
                ReturnType::Counter(c.value)
            },
            (Crdt::Counter(c), OperationBody::CounterSnapshot(b)) => {
                c.value = b.value;
                ReturnType::Counter(c.value)
            },
        }
    }
}

} // verus!
