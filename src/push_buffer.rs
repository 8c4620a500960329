use vstd::prelude::*;
use vstd::string::*;

use crate::errors::PushBufferError;
use crate::operations::Transaction;
use crate::text::{decimal, decimal_text};

verus! {

/// Bounds of the push buffer's memory, in bytes: 100 MB by default, and
/// within [1 MB, 1 GB].
pub const DEFAULT_MAX_MEM_SIZE_OF_PUSH_BUFFER: u64 = 100_000_000;

pub const LOWER_MAX_MEM_SIZE_OF_PUSH_BUFFER: u64 = 1_000_000;

pub const UPPER_MAX_MEM_SIZE_OF_PUSH_BUFFER: u64 = 1_000_000_000;

/// Cap on the bytes of transactions sent in one pack.
pub const DEFAULT_MAX_TRANSMISSION_SIZE: u64 = 4_000_000;

/// Options of a datatype.
#[derive(Debug, Clone, Copy, PartialEq, Eq, Structural)]
pub struct DatatypeOption {
    pub max_mem_size_of_push_buffer: u64,
}

pub open spec fn clamp_mem_size(n: u64) -> u64 {
    if n < LOWER_MAX_MEM_SIZE_OF_PUSH_BUFFER {
        LOWER_MAX_MEM_SIZE_OF_PUSH_BUFFER
    } else if n > UPPER_MAX_MEM_SIZE_OF_PUSH_BUFFER {
        UPPER_MAX_MEM_SIZE_OF_PUSH_BUFFER
    } else {
        n
    }
}

impl DatatypeOption {
    pub open spec fn wf(self) -> bool {
        LOWER_MAX_MEM_SIZE_OF_PUSH_BUFFER <= self.max_mem_size_of_push_buffer
            <= UPPER_MAX_MEM_SIZE_OF_PUSH_BUFFER
    }

    /// Options whose push buffer bound is `max_size_of_push_buffer` clamped
    /// to [1 MB, 1 GB].
    pub fn new(max_size_of_push_buffer: u64) -> (r: DatatypeOption)
        ensures
            r.max_mem_size_of_push_buffer == clamp_mem_size(max_size_of_push_buffer),
            r.wf(),
    {
        let m = if max_size_of_push_buffer < LOWER_MAX_MEM_SIZE_OF_PUSH_BUFFER {
            LOWER_MAX_MEM_SIZE_OF_PUSH_BUFFER
        } else if max_size_of_push_buffer > UPPER_MAX_MEM_SIZE_OF_PUSH_BUFFER {
            UPPER_MAX_MEM_SIZE_OF_PUSH_BUFFER
        } else {
            max_size_of_push_buffer
        };
        DatatypeOption { max_mem_size_of_push_buffer: m }
    }

    pub open spec fn default_spec() -> DatatypeOption {
        DatatypeOption { max_mem_size_of_push_buffer: DEFAULT_MAX_MEM_SIZE_OF_PUSH_BUFFER }
    }

    /// Options with a 100 MB push buffer bound.
    pub fn default() -> (r: DatatypeOption)
        ensures
            r == Self::default_spec(),
            r.wf(),
    {
        Self::new(DEFAULT_MAX_MEM_SIZE_OF_PUSH_BUFFER)
    }
}

/// The summed sizes of a sequence of transactions.
pub open spec fn txs_size(txs: Seq<Transaction>) -> nat
    decreases txs.len(),
{
    if txs.len() == 0 {
        0
    } else {
        txs_size(txs.drop_last()) + txs.last().spec_size()
    }
}

pub proof fn lemma_txs_size_concat(a: Seq<Transaction>, b: Seq<Transaction>)
    ensures
        txs_size(a + b) == txs_size(a) + txs_size(b),
    decreases b.len(),
{
    if b.len() == 0 {
        assert(a + b =~= a);
    } else {
        assert((a + b).drop_last() =~= a + b.drop_last());
        lemma_txs_size_concat(a, b.drop_last());
    }
}

/// How many transactions from the front of `txs` fit, in order, into `cap`
/// bytes.
pub open spec fn fit_count(txs: Seq<Transaction>, cap: int) -> nat
    decreases txs.len(),
{
    if txs.len() == 0 || txs[0].spec_size() > cap {
        0
    } else {
        1 + fit_count(txs.drop_first(), cap - txs[0].spec_size())
    }
}

pub proof fn lemma_fit_count_bound(txs: Seq<Transaction>, cap: int)
    ensures
        fit_count(txs, cap) <= txs.len(),
    decreases txs.len(),
{
    if txs.len() > 0 && txs[0].spec_size() <= cap {
        lemma_fit_count_bound(txs.drop_first(), cap - txs[0].spec_size());
    }
}

/// The committed local transactions that the server has not acknowledged,
/// in cseq order.
#[derive(Debug)]
pub struct MemoryPushBuffer {
    pub transaction: Vec<Transaction>,
    pub mem_size: u64,
    pub option: DatatypeOption,
    pub first_cseq: u64,
    pub last_cseq: u64,
}

impl MemoryPushBuffer {
    pub open spec fn txs(&self) -> Seq<Transaction> {
        self.transaction@
    }

    /// Either empty with every counter at zero, or holding the cseqs
    /// `first_cseq ..= last_cseq` in order; `mem_size` is the sum of the
    /// sizes and stays within the bound of the options.
    pub open spec fn wf(&self) -> bool {
        &&& self.option.wf()
        &&& self.txs().len() == 0 ==> self.first_cseq == 0 && self.last_cseq == 0
        &&& self.txs().len() > 0 ==> {
            &&& self.last_cseq == self.first_cseq + self.txs().len() - 1
        }
        &&& forall|i: int|
            0 <= i < self.txs().len() ==> #[trigger] self.txs()[i].cseq == self.first_cseq + i
        &&& self.mem_size == txs_size(self.txs())
        &&& self.mem_size <= self.option.max_mem_size_of_push_buffer
    }

    pub fn new(option: DatatypeOption) -> (r: MemoryPushBuffer)
        requires
            option.wf(),
        ensures
            r.wf(),
            r.txs().len() == 0,
            r.option == option,
            r.mem_size == 0,
            r.first_cseq == 0,
            r.last_cseq == 0,
    {
        MemoryPushBuffer {
            transaction: Vec::new(),
            mem_size: 0,
            option,
            first_cseq: 0,
            last_cseq: 0,
        }
    }

    pub open spec fn text(&self) -> Seq<char> {
        "PushBuffer(mem_size: "@ + decimal(self.mem_size as nat) + ", first_cseq: "@ + decimal(
            self.first_cseq as nat,
        ) + ", last_cseq: "@ + decimal(self.last_cseq as nat) + ", tx_count: "@ + decimal(
            self.txs().len(),
        ) + ")"@
    }

    /// Renders the counters of the buffer, e.g.
    /// `PushBuffer(mem_size: 81, first_cseq: 1, last_cseq: 1, tx_count: 1)`.
    pub fn to_string(&self) -> (r: String)
        ensures
            r@ == self.text(),
    {
        let mut s = String::from_str("PushBuffer(mem_size: ");
        let a = decimal_text(self.mem_size);
        s.append(a.as_str());
        s.append(", first_cseq: ");
        let b = decimal_text(self.first_cseq);
        s.append(b.as_str());
        s.append(", last_cseq: ");
        let c = decimal_text(self.last_cseq);
        s.append(c.as_str());
        s.append(", tx_count: ");
        let d = decimal_text(self.transaction.len() as u64);
        s.append(d.as_str());
        s.append(")");
        s
    }

    /// The transactions in cseq order.
    pub fn iter(&self) -> (r: &Vec<Transaction>)
        ensures
            r@ == self.txs(),
    {
        &self.transaction
    }

    pub fn len(&self) -> (r: usize)
        ensures
            r == self.txs().len(),
    {
        self.transaction.len()
    }

    /// Whether `tx` is present and at or before `cseq`.
    pub fn need_to_deque(tx: Option<&Transaction>, cseq: u64) -> (r: bool)
        ensures
            r == (tx matches Some(t) && t.cseq <= cseq),
    {
        match tx {
            Some(t) => t.cseq() <= cseq,
            None => false,
        }
    }

    pub open spec fn enque_error(&self, tx: &Transaction) -> Option<PushBufferError> {
        if self.txs().len() != 0 && tx.cseq != self.last_cseq + 1 {
            Some(PushBufferError::NonSequentialCseq)
        } else if self.mem_size + tx.spec_size() > self.option.max_mem_size_of_push_buffer {
            Some(PushBufferError::ExceedMaxMemSize)
        } else {
            None
        }
    }

    /// Appends `tx`, whose cseq must follow the last one (any cseq when the
    /// buffer is empty), while the bound on memory holds.
    pub fn enque(&mut self, tx: Transaction) -> (r: Result<(), PushBufferError>)
        requires
            old(self).wf(),
            tx.spec_size() <= u64::MAX,
        ensures
            final(self).wf(),
            final(self).option == old(self).option,
            match old(self).enque_error(&tx) {
                Some(e) => r == Err::<(), PushBufferError>(e) && *final(self) == *old(self),
                None => {
                    &&& r is Ok
                    &&& final(self).txs() == old(self).txs().push(tx)
                    &&& final(self).last_cseq == tx.cseq
                    &&& final(self).first_cseq == if old(self).txs().len() == 0 {
                        tx.cseq
                    } else {
                        old(self).first_cseq
                    }
                    &&& final(self).mem_size == old(self).mem_size + tx.spec_size()
                },
            },
    {
        if self.transaction.len() != 0 && (tx.cseq() == 0 || self.last_cseq != tx.cseq() - 1) {
            return Err(PushBufferError::NonSequentialCseq);
        }
        let size = tx.size();
        if size > self.option.max_mem_size_of_push_buffer - self.mem_size {
            return Err(PushBufferError::ExceedMaxMemSize);
        }
        if self.transaction.len() == 0 {
            self.first_cseq = tx.cseq();
        }
        self.last_cseq = tx.cseq();
        self.mem_size = self.mem_size + size;
        proof {
            assert(self.transaction@.push(tx).drop_last() =~= self.transaction@);
        }
        self.transaction.push(tx);
        Ok(())
    }

    /// The transactions from index `cseq - first_cseq` on, or none when that
    /// lies past the end.
    pub open spec fn suffix_from(&self, cseq: u64) -> Seq<Transaction> {
        let idx = cseq - self.first_cseq;
        if idx >= self.txs().len() {
            Seq::empty()
        } else {
            self.txs().subrange(idx, self.txs().len() as int)
        }
    }

    /// The longest run of transactions from cseq `cseq` on whose summed size
    /// stays within `max_mem_size`, with that sum. Fails when `cseq` is zero
    /// or before the first cseq.
    pub fn get_after(&self, cseq: u64, max_mem_size: u64) -> (r: Result<
        (Vec<Transaction>, u64),
        PushBufferError,
    >)
        requires
            self.wf(),
        ensures
            (cseq == 0 || cseq < self.first_cseq) ==> r == Err::<(Vec<Transaction>, u64), _>(
                PushBufferError::FailToGetAfter,
            ),
            !(cseq == 0 || cseq < self.first_cseq) ==> (r matches Ok((txs, total)) && {
                let want = self.suffix_from(cseq).take(
                    fit_count(self.suffix_from(cseq), max_mem_size as int) as int,
                );
                &&& txs@.len() == want.len()
                &&& forall|i: int| 0 <= i < want.len() ==> #[trigger] txs@[i].view_eq(&want[i])
                &&& total as nat == txs_size(want)
            }),
    {
        if cseq == 0 || cseq < self.first_cseq {
            return Err(PushBufferError::FailToGetAfter);
        }
        let mut popped: Vec<Transaction> = Vec::new();
        let mut total: u64 = 0;
        let diff = cseq - self.first_cseq;
        if diff >= self.transaction.len() as u64 {
            proof {
                assert(self.suffix_from(cseq).len() == 0);
            }
            return Ok((popped, total));
        }
        let index = diff as usize;
        let ghost suffix = self.suffix_from(cseq);
        let ghost goal = fit_count(suffix, max_mem_size as int);
        proof {
            lemma_fit_count_bound(suffix, max_mem_size as int);
            lemma_txs_size_concat(
                self.txs().subrange(0, index as int),
                self.txs().subrange(index as int, self.txs().len() as int),
            );
            assert(self.txs() =~= self.txs().subrange(0, index as int) + self.txs().subrange(
                index as int,
                self.txs().len() as int,
            ));
        }
        let mut i: usize = index;
        let mut stop = false;
        assert(suffix.subrange(0, suffix.len() as int) =~= suffix);
        assert(suffix.subrange(0, 0) =~= Seq::<Transaction>::empty());
        while i < self.transaction.len() && !stop
            invariant
                self.wf(),
                index <= i <= self.txs().len(),
                suffix == self.txs().subrange(index as int, self.txs().len() as int),
                goal == fit_count(suffix, max_mem_size as int),
                total <= max_mem_size,
                txs_size(suffix.subrange(0, i - index)) == total as nat,
                txs_size(suffix) <= self.mem_size,
                popped@.len() == i - index,
                forall|j: int| 0 <= j < popped@.len() ==> #[trigger] popped@[j].view_eq(&suffix[j]),
                stop ==> goal == i - index,
                !stop ==> fit_count(suffix, max_mem_size as int) == (i - index) + fit_count(
                    suffix.subrange(i - index, suffix.len() as int),
                    max_mem_size - total,
                ),
            decreases self.txs().len() - i, if stop { 0int } else { 1int },
        {
            let ghost k = (i - index) as int;
            let ghost rest = suffix.subrange(k, suffix.len() as int);
            proof {
                lemma_txs_size_concat(suffix.subrange(0, k), rest);
                assert(suffix =~= suffix.subrange(0, k) + rest);
                lemma_txs_size_concat(seq![rest[0]], rest.drop_first());
                assert(rest =~= seq![rest[0]] + rest.drop_first());
                assert(txs_size(seq![rest[0]]) == rest[0].spec_size()) by {
                    assert(seq![rest[0]].drop_last() =~= Seq::<Transaction>::empty());
                    assert(txs_size(Seq::<Transaction>::empty()) == 0);
                    assert(seq![rest[0]].last() == rest[0]);
                }
                assert(rest[0] == self.txs()[i as int]);
            }
            let size = self.transaction[i].size();
            if size > max_mem_size - total {
                stop = true;
            } else {
                let tx = self.transaction[i].duplicate();
                popped.push(tx);
                total = total + size;
                proof {
                    assert(rest.drop_first() =~= suffix.subrange(k + 1, suffix.len() as int));
                    assert(suffix.subrange(0, k + 1).drop_last() =~= suffix.subrange(0, k));
                }
                i = i + 1;
            }
        }
        proof {
            if !stop {
                assert(i == self.txs().len());
                let k = (i - index) as int;
                assert(suffix.subrange(k, suffix.len() as int).len() == 0);
            }
            let k = (i - index) as int;
            assert(suffix.take(goal as int) =~= suffix.subrange(0, k));
        }
        Ok((popped, total))
    }

    /// How many transactions from the front have a cseq at or before `upto`.
    pub open spec fn deque_count(&self, upto: u64) -> nat {
        if self.txs().len() == 0 || upto < self.first_cseq {
            0
        } else if upto >= self.last_cseq {
            self.txs().len()
        } else {
            (upto - self.first_cseq + 1) as nat
        }
    }

    /// Removes and returns, in order, every transaction whose cseq is at or
    /// before `upto`; an emptied buffer reports zeros.
    pub fn deque(&mut self, upto: u64) -> (r: Vec<Transaction>)
        requires
            old(self).wf(),
        ensures
            final(self).wf(),
            final(self).option == old(self).option,
            r@ == old(self).txs().take(old(self).deque_count(upto) as int),
            final(self).txs() == old(self).txs().skip(old(self).deque_count(upto) as int),
            forall|i: int| 0 <= i < final(self).txs().len() ==> #[trigger] final(self).txs()[i].cseq > upto,
            final(self).txs().len() > 0 ==> final(self).last_cseq == old(self).last_cseq,
    {
        let len = self.transaction.len();
        let n: usize = if len == 0 || upto < self.first_cseq {
            0
        } else if upto >= self.last_cseq {
            len
        } else {
            (upto - self.first_cseq + 1) as usize
        };
        let ghost old_txs = self.txs();
        let mut rest = self.transaction.split_off(n);
        std::mem::swap(&mut self.transaction, &mut rest);
        let removed = rest;
        proof {
            lemma_txs_size_concat(old_txs.take(n as int), old_txs.skip(n as int));
            assert(old_txs =~= old_txs.take(n as int) + old_txs.skip(n as int));
            assert(removed@ =~= old_txs.take(n as int));
            assert(self.transaction@ =~= old_txs.skip(n as int));
        }
        let mut freed: u64 = 0;
        let mut i: usize = 0;
        while i < removed.len()
            invariant
                0 <= i <= removed@.len(),
                freed as nat == txs_size(removed@.take(i as int)),
                txs_size(removed@) <= old(self).mem_size,
            decreases removed@.len() - i,
        {
            proof {
                lemma_txs_size_concat(removed@.take(i as int), removed@.skip(i as int));
                assert(removed@ =~= removed@.take(i as int) + removed@.skip(i as int));
                lemma_txs_size_concat(removed@.take(i as int), seq![removed@[i as int]]);
                assert(removed@.take(i as int + 1) =~= removed@.take(i as int) + seq![removed@[i as int]]);
                lemma_txs_size_concat(seq![removed@[i as int]], removed@.skip(i as int + 1));
                assert(removed@.skip(i as int) =~= seq![removed@[i as int]] + removed@.skip(i as int + 1));
                assert(seq![removed@[i as int]].drop_last() =~= Seq::<Transaction>::empty());
                assert(txs_size(Seq::<Transaction>::empty()) == 0);
            }
            freed = freed + removed[i].size();
            i += 1;
        }
        assert(removed@.take(i as int) =~= removed@);
        self.mem_size = self.mem_size - freed;
        if self.transaction.len() == 0 {
            self.first_cseq = 0;
            self.last_cseq = 0;
        } else {
            self.first_cseq = self.first_cseq + n as u64;
        }
        removed
    }
}

} // verus!
