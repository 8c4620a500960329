use std::sync::Arc;

use vstd::prelude::*;
use vstd::string::*;
use vstd::utf8::encode_utf8;

use crate::text::{decimal, decimal_text, signed_decimal, signed_decimal_text};
use crate::types::{Cuid, Uid};

verus! {

/// The body of an operation that adds `delta` to a counter.
#[derive(Debug, Clone, Copy, PartialEq, Eq, Structural)]
pub struct CounterIncreaseBody {
    pub delta: i64,
}

/// Bytes that a counter increase occupies: one `i64`.
pub const COUNTER_INCREASE_SIZE: u64 = 8;

impl CounterIncreaseBody {
    pub fn new(delta: i64) -> (r: CounterIncreaseBody)
        ensures
            r.delta == delta,
    {
        CounterIncreaseBody { delta }
    }

    pub fn size(&self) -> (r: u64)
        ensures
            r == COUNTER_INCREASE_SIZE,
    {
        COUNTER_INCREASE_SIZE
    }
}

/// The body of an operation that carries the whole value of a counter, as
/// the server hands it to a new subscriber.
#[derive(Debug, Clone, Copy, PartialEq, Eq, Structural)]
pub struct CounterSnapshotBody {
    pub value: i64,
}

/// The typed body of an operation.
#[derive(Debug, Clone, Copy, PartialEq, Eq, Structural)]
pub enum OperationBody {
    CounterIncrease(CounterIncreaseBody),
    CounterSnapshot(CounterSnapshotBody),
}

impl OperationBody {
    pub open spec fn spec_size(self) -> nat {
        match self {
            OperationBody::CounterIncrease(_) => COUNTER_INCREASE_SIZE as nat,
            OperationBody::CounterSnapshot(_) => COUNTER_INCREASE_SIZE as nat,
        }
    }

    /// Bytes that the body occupies, for buffer accounting.
    pub fn size(&self) -> (r: u64)
        ensures
            r == self.spec_size(),
    {
        match self {
            OperationBody::CounterIncrease(b) => b.size(),
            OperationBody::CounterSnapshot(_) => COUNTER_INCREASE_SIZE,
        }
    }

    pub open spec fn text(self) -> Seq<char> {
        match self {
            OperationBody::CounterIncrease(b) => "CounterIncrease(delta="@ + signed_decimal(
                b.delta as int,
            ) + ")"@,
            OperationBody::CounterSnapshot(b) => "CounterSnapshot(value="@ + signed_decimal(
                b.value as int,
            ) + ")"@,
        }
    }

    /// Renders the body, e.g. `CounterIncrease(delta=3)`.
    pub fn to_string(&self) -> (r: String)
        ensures
            r@ == self.text(),
    {
        match self {
            OperationBody::CounterIncrease(b) => {
                let mut s = String::from_str("CounterIncrease(delta=");
                let d = signed_decimal_text(b.delta);
                s.append(d.as_str());
                s.append(")");
                s
            },
            OperationBody::CounterSnapshot(b) => {
                let mut s = String::from_str("CounterSnapshot(value=");
                let d = signed_decimal_text(b.value);
                s.append(d.as_str());
                s.append(")");
                s
            },
        }
    }
}

/// An operation: a typed body stamped with a lamport clock.
#[derive(Debug, Clone, Copy, PartialEq, Eq, Structural)]
pub struct Operation {
    pub lamport: u64,
    pub body: OperationBody,
}

impl Operation {
    pub fn new_counter_increase(delta: i64) -> (r: Operation)
        ensures
            r.lamport == 0,
            r.body == OperationBody::CounterIncrease(CounterIncreaseBody { delta }),
    {
        Operation { lamport: 0, body: OperationBody::CounterIncrease(CounterIncreaseBody::new(delta)) }
    }

    pub open spec fn snapshot_of(value: i64) -> Operation {
        Operation { lamport: 0, body: OperationBody::CounterSnapshot(CounterSnapshotBody { value }) }
    }

    pub fn new_counter_snapshot(value: i64) -> (r: Operation)
        ensures
            r == Operation::snapshot_of(value),
    {
        Operation { lamport: 0, body: OperationBody::CounterSnapshot(CounterSnapshotBody { value }) }
    }

    pub fn set_lamport(&mut self, lamport: u64)
        ensures
            final(self).lamport == lamport,
            final(self).body == old(self).body,
    {
        self.lamport = lamport;
    }

    pub open spec fn spec_size(self) -> nat {
        self.body.spec_size()
    }

    pub fn size(&self) -> (r: u64)
        ensures
            r == self.spec_size(),
    {
        self.body.size()
    }
}

/// The position of a client's operations: its cuid, the sequence number of
/// its latest local transaction, and its lamport clock.
#[derive(Debug)]
pub struct OperationId {
    pub cuid: Cuid,
    pub cseq: u64,
    pub lamport: u64,
}

impl Clone for OperationId {
    fn clone(&self) -> (r: Self)
        ensures
            r@ == self@,
    {
        OperationId { cuid: self.cuid.clone(), cseq: self.cseq, lamport: self.lamport }
    }
}

impl View for OperationId {
    type V = (Seq<char>, u64, u64);

    open spec fn view(&self) -> (Seq<char>, u64, u64) {
        (self.cuid@, self.cseq, self.lamport)
    }
}

/// Two ids are equal when they name the same client and the same transaction.
impl PartialEq for OperationId {
    fn eq(&self, o: &OperationId) -> (r: bool) {
        self.cuid == o.cuid && self.cseq == o.cseq
    }
}

impl vstd::std_specs::cmp::PartialEqSpecImpl for OperationId {
    open spec fn obeys_eq_spec() -> bool {
        true
    }

    open spec fn eq_spec(&self, o: &OperationId) -> bool {
        self.cuid@ == o.cuid@ && self.cseq == o.cseq
    }
}

impl OperationId {
    /// A fresh id of a new random client.
    pub fn new() -> (r: OperationId)
        ensures
            r.cseq == 0,
            r.lamport == 0,
    {
        OperationId { cuid: Uid::new(), cseq: 0, lamport: 0 }
    }

    pub fn new_with_cuid(cuid: &Cuid) -> (r: OperationId)
        ensures
            r.cuid@ == cuid@,
            r.cseq == 0,
            r.lamport == 0,
    {
        OperationId { cuid: cuid.clone(), cseq: 0, lamport: 0 }
    }

    /// Advances the cseq and the lamport clock, and returns the new cseq.
    pub fn next_cseq(&mut self) -> (r: u64)
        requires
            old(self).cseq < u64::MAX,
            old(self).lamport < u64::MAX,
        ensures
            final(self).cuid@ == old(self).cuid@,
            final(self).cseq == old(self).cseq + 1,
            final(self).lamport == old(self).lamport + 1,
            r == final(self).cseq,
    {
        self.cseq = self.cseq + 1;
        self.lamport = self.lamport + 1;
        self.cseq
    }

    /// Takes back the last `next_cseq`.
    pub fn prev_cseq(&mut self)
        requires
            old(self).cseq > 0,
            old(self).lamport > 0,
        ensures
            final(self).cuid@ == old(self).cuid@,
            final(self).cseq == old(self).cseq - 1,
            final(self).lamport == old(self).lamport - 1,
    {
        self.cseq = self.cseq - 1;
        self.lamport = self.lamport - 1;
    }

    /// Advances the lamport clock and returns it.
    pub fn next_lamport(&mut self) -> (r: u64)
        requires
            old(self).lamport < u64::MAX,
        ensures
            final(self).cuid@ == old(self).cuid@,
            final(self).cseq == old(self).cseq,
            final(self).lamport == old(self).lamport + 1,
            r == final(self).lamport,
    {
        self.lamport = self.lamport + 1;
        self.lamport
    }

    /// Takes back the last `next_lamport`.
    pub fn prev_lamport(&mut self)
        requires
            old(self).lamport > 0,
        ensures
            final(self).cuid@ == old(self).cuid@,
            final(self).cseq == old(self).cseq,
            final(self).lamport == old(self).lamport - 1,
    {
        self.lamport = self.lamport - 1;
    }

    /// Catches up with `other`: each counter becomes the larger of the two.
    pub fn sync(&mut self, other: &OperationId)
        ensures
            final(self).cuid@ == old(self).cuid@,
            final(self).cseq == if old(self).cseq < other.cseq { other.cseq } else { old(self).cseq },
            final(self).lamport == if old(self).lamport < other.lamport {
                other.lamport
            } else {
                old(self).lamport
            },
    {
        if self.cseq < other.cseq {
            self.cseq = other.cseq;
        }
        if self.lamport < other.lamport {
            self.lamport = other.lamport;
        }
    }
}

/// Bytes that a transaction occupies besides its tag and its operations: the
/// operation vector (24), the cuid (16), the tag option (24), cseq (8), sseq
/// (8) and the event flag (1).
pub const TRANSACTION_CONSTANT_SIZE: u64 = 81;

pub open spec fn ops_size(ops: Seq<Operation>) -> nat
    decreases ops.len(),
{
    if ops.len() == 0 {
        0
    } else {
        ops_size(ops.drop_last()) + ops.last().spec_size()
    }
}

pub open spec fn tag_size(tag: Option<String>) -> nat {
    match tag {
        Some(t) => encode_utf8(t@).len(),
        None => 0,
    }
}

/// A unit of change: the operations of one local transaction of a client.
#[derive(Debug)]
pub struct Transaction {
    pub cuid: Cuid,
    pub cseq: u64,
    pub sseq: u64,
    pub tag: Option<String>,
    pub event: bool,
    pub operations: Vec<Operation>,
}

impl Transaction {
    /// The fixed overhead plus the tag's bytes plus the operations' sizes.
    pub open spec fn spec_size(&self) -> nat {
        (TRANSACTION_CONSTANT_SIZE + tag_size(self.tag) + ops_size(self.operations@)) as nat
    }

    /// Opens a transaction with the next cseq of `op_id`.
    pub fn new(op_id: &mut OperationId) -> (r: Transaction)
        requires
            old(op_id).cseq < u64::MAX,
            old(op_id).lamport < u64::MAX,
        ensures
            final(op_id).cuid@ == old(op_id).cuid@,
            final(op_id).cseq == old(op_id).cseq + 1,
            final(op_id).lamport == old(op_id).lamport + 1,
            r.cuid@ == old(op_id).cuid@,
            r.cseq == final(op_id).cseq,
            r.sseq == 0,
            r.tag is None,
            r.event == false,
            r.operations@.len() == 0,
    {
        let cuid = op_id.cuid.clone();
        let cseq = op_id.next_cseq();
        Transaction { cuid, cseq, sseq: 0, tag: None, event: false, operations: Vec::new() }
    }

    pub fn cseq(&self) -> (r: u64)
        ensures
            r == self.cseq,
    {
        self.cseq
    }

    pub fn cuid(&self) -> (r: &Cuid)
        ensures
            r@ == self.cuid@,
    {
        &self.cuid
    }

    /// The id of this transaction's client at this transaction's cseq.
    pub fn get_op_id(&self) -> (r: OperationId)
        ensures
            r.cuid@ == self.cuid@,
            r.cseq == self.cseq,
            r.lamport == 0,
    {
        let mut op_id = OperationId::new_with_cuid(&self.cuid);
        op_id.cseq = self.cseq;
        op_id
    }

    pub fn set_tag(&mut self, tag: Option<String>)
        ensures
            final(self).tag == tag,
            final(self).cuid == old(self).cuid,
            final(self).cseq == old(self).cseq,
            final(self).sseq == old(self).sseq,
            final(self).event == old(self).event,
            final(self).operations == old(self).operations,
    {
        self.tag = tag;
    }

    pub fn set_event(&mut self, event: bool)
        ensures
            final(self).event == event,
            final(self).cuid == old(self).cuid,
            final(self).cseq == old(self).cseq,
            final(self).sseq == old(self).sseq,
            final(self).tag == old(self).tag,
            final(self).operations == old(self).operations,
    {
        self.event = event;
    }

    pub fn push_operation(&mut self, op: Operation)
        ensures
            final(self).operations@ == old(self).operations@.push(op),
            final(self).cuid == old(self).cuid,
            final(self).cseq == old(self).cseq,
            final(self).sseq == old(self).sseq,
            final(self).tag == old(self).tag,
            final(self).event == old(self).event,
    {
        self.operations.push(op);
    }

    /// The operations, in insertion order.
    pub fn iter(&self) -> (r: &Vec<Operation>)
        ensures
            r@ == self.operations@,
    {
        &self.operations
    }

    /// An empty transaction of `cuid` at `cseq`.
    pub fn new_arc_for_test(cuid: &Cuid, cseq: u64) -> (r: Arc<Transaction>)
        ensures
            r.cuid@ == cuid@,
            r.cseq == cseq,
            r.sseq == 0,
            r.tag is None,
            r.event == false,
            r.operations@.len() == 0,
    {
        Arc::new(
            Transaction {
                cuid: cuid.clone(),
                cseq,
                sseq: 0,
                tag: None,
                event: false,
                operations: Vec::new(),
            },
        )
    }

    /// Bytes that the transaction occupies, for buffer accounting.
    pub fn size(&self) -> (r: u64)
        requires
            self.spec_size() <= u64::MAX,
        ensures
            r == self.spec_size(),
    {
        let mut total: u64 = match &self.tag {
            Some(t) => {
                let b = t.as_str().as_bytes();
                proof {
                    vstd::slice::axiom_spec_len(b);
                }
                b.len() as u64
            },
            None => 0,
        };
        assert(total == tag_size(self.tag));
        assert(self.operations@.subrange(0, 0) =~= Seq::<Operation>::empty());
        total = total + TRANSACTION_CONSTANT_SIZE;
        let mut i: usize = 0;
        while i < self.operations.len()
            invariant
                0 <= i <= self.operations@.len(),
                self.spec_size() <= u64::MAX,
                total == TRANSACTION_CONSTANT_SIZE + tag_size(self.tag) + ops_size(
                    self.operations@.subrange(0, i as int),
                ),
            decreases self.operations@.len() - i,
        {
            proof {
                lemma_ops_size_prefix(self.operations@, i as int + 1);
                assert(self.operations@.subrange(0, i as int + 1).drop_last()
                    =~= self.operations@.subrange(0, i as int));
            }
            total = total + self.operations[i].size();
            i += 1;
        }
        assert(self.operations@.subrange(0, i as int) =~= self.operations@);
        total
    }

    /// A copy of the transaction.
    pub fn duplicate(&self) -> (r: Transaction)
        ensures
            r.view_eq(self),
    {
        let tag = match &self.tag {
            Some(t) => Some(t.clone()),
            None => None,
        };
        let ops = self.operations.clone();
        assert(ops@ =~= self.operations@);
        Transaction {
            cuid: self.cuid.clone(),
            cseq: self.cseq,
            sseq: self.sseq,
            tag,
            event: self.event,
            operations: ops,
        }
    }

    pub open spec fn text(&self) -> Seq<char> {
        let tag_arg = match self.tag {
            Some(t) => "\u{1f516}:"@ + t@,
            None => Seq::empty(),
        };
        let event_arg = if self.event { " \u{2705} "@ } else { " "@ };
        let ops = self.operations@;
        let lamport_arg = if ops.len() == 0 {
            "[]"@
        } else if ops.len() == 1 {
            "["@ + decimal(ops[0].lamport as nat) + "]"@
        } else {
            "["@ + decimal(ops[0].lamport as nat) + "-"@ + decimal(ops.last().lamport as nat)
                + "]"@
        };
        "TX("@ + tag_arg + event_arg + self.cuid@ + ":"@ + decimal(self.cseq as nat) + ":"@
            + decimal(self.sseq as nat) + ":"@ + lamport_arg + ")"@
    }

    /// Renders the transaction as
    /// `TX(<tag><event><cuid>:<cseq>:<sseq>:<lamports>)`, where the lamports
    /// are those of the first and the last operation.
    pub fn to_string(&self) -> (r: String)
        ensures
            r@ == self.text(),
    {
        let mut s = String::from_str("TX(");
        match &self.tag {
            Some(t) => {
                s.append("\u{1f516}:");
                s.append(t.as_str());
            },
            None => {},
        }
        if self.event {
            s.append(" \u{2705} ");
        } else {
            s.append(" ");
        }
        s.append(self.cuid.as_str());
        s.append(":");
        let c = decimal_text(self.cseq);
        s.append(c.as_str());
        s.append(":");
        let d = decimal_text(self.sseq);
        s.append(d.as_str());
        s.append(":");
        let n = self.operations.len();
        if n == 0 {
            s.append("[]");
        } else if n == 1 {
            s.append("[");
            let a = decimal_text(self.operations[0].lamport);
            s.append(a.as_str());
            s.append("]");
        } else {
            s.append("[");
            let a = decimal_text(self.operations[0].lamport);
            s.append(a.as_str());
            s.append("-");
            let b = decimal_text(self.operations[n - 1].lamport);
            s.append(b.as_str());
            s.append("]");
        }
        s.append(")");
        assert(s@ =~= self.text());
        s
    }

    /// Equal in every field that the library reads.
    pub open spec fn view_eq(&self, o: &Transaction) -> bool {
        &&& self.cuid@ == o.cuid@
        &&& self.cseq == o.cseq
        &&& self.sseq == o.sseq
        &&& self.tag == o.tag
        &&& self.event == o.event
        &&& self.operations@ == o.operations@
    }
}

pub proof fn lemma_ops_size_prefix(ops: Seq<Operation>, n: int)
    requires
        0 <= n <= ops.len(),
    ensures
        ops_size(ops.subrange(0, n)) <= ops_size(ops),
    decreases ops.len(),
{
    if n < ops.len() {
        assert(ops.drop_last().subrange(0, n) =~= ops.subrange(0, n));
        lemma_ops_size_prefix(ops.drop_last(), n);
    } else {
        assert(ops.subrange(0, n) =~= ops);
    }
}

} // verus!
