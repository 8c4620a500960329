use vstd::prelude::*;
use vstd::string::*;

use crate::text::{decimal, decimal_text};

verus! {

/// The kinds of datatypes.
#[derive(Debug, Clone, Copy, PartialEq, Eq, Structural)]
pub enum DataType {
    Counter,
    Variable,
    Mapping,
}

impl DataType {
    pub open spec fn name(self) -> Seq<char> {
        match self {
            DataType::Counter => "Counter"@,
            DataType::Variable => "Variable"@,
            DataType::Mapping => "Map"@,
        }
    }

    /// The name of the kind, e.g. `Counter`.
    pub fn to_string(&self) -> (r: String)
        ensures
            r@ == self.name(),
    {
        match self {
            DataType::Counter => String::from_str("Counter"),
            DataType::Variable => String::from_str("Variable"),
            DataType::Mapping => String::from_str("Map"),
        }
    }
}

/// The lifecycle state of a datatype.
#[derive(Debug, Clone, Copy, PartialEq, Eq, Structural)]
pub enum DatatypeState {
    /// Scheduled to be created on the server.
    DueToCreate,
    /// Scheduled to be subscribed on the server.
    DueToSubscribe,
    /// Scheduled to be subscribed, or created if it does not exist.
    DueToSubscribeOrCreate,
    /// Subscribed on the server.
    Subscribed,
    /// Scheduled to be unsubscribed.
    DueToUnsubscribe,
    /// Scheduled to be deleted.
    DueToDelete,
    /// Neither enabled nor synchronized.
    Disabled,
}

impl DatatypeState {
    pub open spec fn writable(self) -> bool {
        self == DatatypeState::DueToCreate || self == DatatypeState::DueToSubscribeOrCreate
            || self == DatatypeState::Subscribed
    }

    /// Whether this state allows write operations.
    pub fn is_read_writable(&self) -> (r: bool)
        ensures
            r == self.writable(),
    {
        match self {
            DatatypeState::DueToCreate => true,
            DatatypeState::DueToSubscribeOrCreate => true,
            DatatypeState::Subscribed => true,
            _ => false,
        }
    }

    pub fn is_readonly(&self) -> (r: bool)
        ensures
            r == !self.writable(),
    {
        !self.is_read_writable()
    }

    pub fn default() -> (r: DatatypeState)
        ensures
            r == DatatypeState::DueToCreate,
    {
        DatatypeState::DueToCreate
    }

    pub open spec fn name(self) -> Seq<char> {
        match self {
            DatatypeState::DueToCreate => "DueToCreate"@,
            DatatypeState::DueToSubscribe => "DueToSubscribe"@,
            DatatypeState::DueToSubscribeOrCreate => "DueToSubscribeOrCreate"@,
            DatatypeState::Subscribed => "Subscribed"@,
            DatatypeState::DueToUnsubscribe => "DueToUnsubscribe"@,
            DatatypeState::DueToDelete => "DueToDelete"@,
            DatatypeState::Disabled => "Disabled"@,
        }
    }

    /// The name of the state, e.g. `Subscribed`.
    pub fn to_string(&self) -> (r: String)
        ensures
            r@ == self.name(),
    {
        match self {
            DatatypeState::DueToCreate => String::from_str("DueToCreate"),
            DatatypeState::DueToSubscribe => String::from_str("DueToSubscribe"),
            DatatypeState::DueToSubscribeOrCreate => String::from_str("DueToSubscribeOrCreate"),
            DatatypeState::Subscribed => String::from_str("Subscribed"),
            DatatypeState::DueToUnsubscribe => String::from_str("DueToUnsubscribe"),
            DatatypeState::DueToDelete => String::from_str("DueToDelete"),
            DatatypeState::Disabled => String::from_str("Disabled"),
        }
    }
}

} // verus!

verus! {

/// The pair of sequence numbers that a datatype has acknowledged to and from
/// the server.
#[derive(Debug, Clone, Copy, PartialEq, Eq, Structural)]
pub struct CheckPoint {
    pub sseq: u64,
    pub cseq: u64,
}

impl CheckPoint {
    pub fn new(sseq: u64, cseq: u64) -> (r: CheckPoint)
        ensures
            r.sseq == sseq,
            r.cseq == cseq,
    {
        CheckPoint { sseq, cseq }
    }

    pub fn default() -> (r: CheckPoint)
        ensures
            r.sseq == 0,
            r.cseq == 0,
    {
        CheckPoint { sseq: 0, cseq: 0 }
    }

    pub open spec fn max_with(self, other: CheckPoint) -> CheckPoint {
        CheckPoint {
            sseq: if self.sseq < other.sseq { other.sseq } else { self.sseq },
            cseq: if self.cseq < other.cseq { other.cseq } else { self.cseq },
        }
    }

    /// Advances both fields to the component-wise maximum with `other`.
    pub fn check_with(&mut self, other: &CheckPoint)
        ensures
            *final(self) == old(self).max_with(*other),
            final(self).sseq >= old(self).sseq,
            final(self).cseq >= old(self).cseq,
    {
        if self.sseq < other.sseq {
            self.sseq = other.sseq;
        }
        if self.cseq < other.cseq {
            self.cseq = other.cseq;
        }
    }

    pub open spec fn text(self) -> Seq<char> {
        "(s:"@ + decimal(self.sseq as nat) + ", c:"@ + decimal(self.cseq as nat) + ")"@
    }

    /// Renders the checkpoint as `(s:<sseq>, c:<cseq>)`.
    pub fn to_string(&self) -> (r: String)
        ensures
            r@ == self.text(),
    {
        let mut s = String::from_str("(s:");
        let a = decimal_text(self.sseq);
        s.append(a.as_str());
        s.append(", c:");
        let b = decimal_text(self.cseq);
        s.append(b.as_str());
        s.append(")");
        s
    }
}

pub const UID_LEN: usize = 16;

pub open spec fn is_uid_char(c: char) -> bool {
    c == '-' || c == '_' || ('0' <= c && c <= '9') || ('a' <= c && c <= 'z') || ('A' <= c
        && c <= 'Z')
}

/// A well-formed identifier: sixteen characters out of `[A-Za-z0-9_-]`.
pub open spec fn is_uid_text(s: Seq<char>) -> bool {
    s.len() == UID_LEN && forall|i: int| 0 <= i < s.len() ==> is_uid_char(#[trigger] s[i])
}

/// Relies on nanoid::format with nanoid's default random source and its SAFE
/// alphabet (`A-Za-z0-9_-`): the id it returns holds exactly `size` characters
/// of that alphabet.
#[verifier::external_body]
fn random_uid_text() -> (r: String)
    ensures
        is_uid_text(r@),
{
    nanoid::format(nanoid::rngs::default, &nanoid::alphabet::SAFE, UID_LEN)
}

/// An opaque identifier of a client (`Cuid`) or of a datatype (`Duid`).
#[derive(Debug, Eq, Hash)]
pub struct Uid {
    id: String,
}

pub type Cuid = Uid;

pub type Duid = Uid;

impl View for Uid {
    type V = Seq<char>;

    closed spec fn view(&self) -> Seq<char> {
        self.id@
    }
}

impl Clone for Uid {
    fn clone(&self) -> (r: Self)
        ensures
            r@ == self@,
    {
        Uid { id: self.id.clone() }
    }
}

impl PartialEq for Uid {
    fn eq(&self, o: &Uid) -> (r: bool) {
        self.id == o.id
    }
}

impl vstd::std_specs::cmp::PartialEqSpecImpl for Uid {
    open spec fn obeys_eq_spec() -> bool {
        true
    }

    open spec fn eq_spec(&self, o: &Uid) -> bool {
        self@ == o@
    }
}

impl Uid {
    pub open spec fn nil_text() -> Seq<char> {
        seq!['0', '0', '0', '0', '0', '0', '0', '0', '0', '0', '0', '0', '0', '0', '0', '0']
    }

    /// A fresh random identifier.
    pub fn new() -> (r: Uid)
        ensures
            is_uid_text(r@),
    {
        Uid { id: random_uid_text() }
    }

    /// The nil identifier, sixteen zeros.
    pub fn new_nil() -> (r: Uid)
        ensures
            r@ == Self::nil_text(),
            is_uid_text(r@),
    {
        proof {
            reveal_strlit("0000000000000000");
        }
        let r = Uid { id: String::from_str("0000000000000000") };
        assert(r@ =~= Self::nil_text());
        r
    }

    pub fn default() -> (r: Uid)
        ensures
            r@ == Self::nil_text(),
    {
        Self::new_nil()
    }

    /// Whether `s` is a well-formed identifier.
    pub fn validate(s: &str) -> (r: bool)
        ensures
            r == is_uid_text(s@),
    {
        let n = s.unicode_len();
        if n != UID_LEN {
            return false;
        }
        let mut i: usize = 0;
        while i < n
            invariant
                n == s@.len(),
                0 <= i <= n,
                forall|j: int| 0 <= j < i ==> is_uid_char(#[trigger] s@[j]),
            decreases n - i,
        {
            let c = s.get_char(i);
            let ok = c == '-' || c == '_' || ('0' <= c && c <= '9') || ('a' <= c && c <= 'z')
                || ('A' <= c && c <= 'Z');
            if !ok {
                return false;
            }
            i += 1;
        }
        true
    }

    /// Parses a well-formed identifier.
    pub fn try_from_str(s: &str) -> (r: Option<Uid>)
        ensures
            r is Some <==> is_uid_text(s@),
            r matches Some(u) ==> u@ == s@,
    {
        if Self::validate(s) {
            Some(Uid { id: String::from_str(s) })
        } else {
            None
        }
    }

    pub fn as_str(&self) -> (r: &str)
        ensures
            r@ == self@,
    {
        self.id.as_str()
    }

    pub fn to_string(&self) -> (r: String)
        ensures
            r@ == self@,
    {
        self.id.clone()
    }
}

} // verus!
