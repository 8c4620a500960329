use vstd::prelude::*;
use vstd::string::*;

use crate::errors::ServerPushPullError;
use crate::text::{decimal, decimal_text};
use crate::operations::Transaction;
use crate::types::{CheckPoint, DataType, DatatypeState, Duid, Uid};

verus! {

/// The message that a client pushes to the server and that the server pulls
/// back: the datatype's identity, its state and checkpoint, and transactions.
#[derive(Debug)]
pub struct PushPullPack {
    pub collection: String,
    pub cuid: Uid,
    pub duid: Duid,
    pub key: String,
    pub kind: DataType,
    pub state: DatatypeState,
    pub checkpoint: CheckPoint,
    pub safe_sseq: u64,
    pub transactions: Vec<Transaction>,
    pub is_readonly: bool,
    pub has_snapshot: bool,
    pub error: Option<ServerPushPullError>,
}

/// The address of a datatype at the server: `<collection>/<key>`.
pub open spec fn resource_id_of(collection: Seq<char>, key: Seq<char>) -> Seq<char> {
    collection + "/"@ + key
}

pub fn make_resource_id(collection: &str, key: &str) -> (r: String)
    ensures
        r@ == resource_id_of(collection@, key@),
{
    let mut s = String::from_str(collection);
    s.append("/");
    s.append(key);
    s
}

impl PushPullPack {
    /// A pack with no checkpoint, transactions, snapshot or error.
    pub fn new(
        collection: &str,
        cuid: &Uid,
        duid: &Duid,
        key: &str,
        kind: DataType,
        state: DatatypeState,
        is_readonly: bool,
    ) -> (r: PushPullPack)
        ensures
            r.collection@ == collection@,
            r.cuid@ == cuid@,
            r.duid@ == duid@,
            r.key@ == key@,
            r.kind == kind,
            r.state == state,
            r.checkpoint == (CheckPoint { sseq: 0, cseq: 0 }),
            r.safe_sseq == 0,
            r.transactions@.len() == 0,
            r.is_readonly == is_readonly,
            !r.has_snapshot,
            r.error is None,
    {
        PushPullPack {
            collection: String::from_str(collection),
            cuid: cuid.clone(),
            duid: duid.clone(),
            key: String::from_str(key),
            kind,
            state,
            checkpoint: CheckPoint::default(),
            safe_sseq: 0,
            transactions: Vec::new(),
            is_readonly,
            has_snapshot: false,
            error: None,
        }
    }

    pub fn resource_id(&self) -> (r: String)
        ensures
            r@ == resource_id_of(self.collection@, self.key@),
    {
        make_resource_id(self.collection.as_str(), self.key.as_str())
    }

    /// Sets the checkpoint to the cseq of the last transaction (or of `cp`
    /// when there is none) and the sseq of `cp`.
    pub fn checkpointing(&mut self, cp: &CheckPoint, safe_sseq: u64)
        ensures
            final(self).checkpoint.sseq == cp.sseq,
            final(self).checkpoint.cseq == if old(self).transactions@.len() > 0 {
                old(self).transactions@.last().cseq
            } else {
                cp.cseq
            },
            final(self).safe_sseq == safe_sseq,
            final(self).transactions == old(self).transactions,
            final(self).state == old(self).state,
            final(self).duid == old(self).duid,
            final(self).cuid == old(self).cuid,
            final(self).is_readonly == old(self).is_readonly,
            final(self).collection == old(self).collection,
            final(self).key == old(self).key,
            final(self).kind == old(self).kind,
            final(self).error == old(self).error,
            final(self).has_snapshot == old(self).has_snapshot,
    {
        let n = self.transactions.len();
        self.checkpoint.cseq = if n > 0 {
            self.transactions[n - 1].cseq()
        } else {
            cp.cseq
        };
        self.checkpoint.sseq = cp.sseq;
        self.safe_sseq = safe_sseq;
    }

    /// The identity that a reply to this pack starts from: the same
    /// datatype, client, state and flags, with nothing else.
    pub open spec fn is_stub_of(&self, pushed: &PushPullPack) -> bool {
        &&& self.collection@ == pushed.collection@
        &&& self.cuid@ == pushed.cuid@
        &&& self.duid@ == pushed.duid@
        &&& self.key@ == pushed.key@
        &&& self.kind == pushed.kind
        &&& self.state == pushed.state
        &&& self.checkpoint == (CheckPoint { sseq: 0, cseq: 0 })
        &&& self.safe_sseq == pushed.safe_sseq
        &&& self.transactions@.len() == 0
        &&& self.is_readonly == pushed.is_readonly
        &&& !self.has_snapshot
        &&& self.error is None
    }

    pub fn get_pulled_stub(&self) -> (r: PushPullPack)
        ensures
            r.is_stub_of(self),
    {
        PushPullPack {
            collection: self.collection.clone(),
            cuid: self.cuid.clone(),
            duid: self.duid.clone(),
            key: self.key.clone(),
            kind: self.kind,
            state: self.state,
            checkpoint: CheckPoint::default(),
            safe_sseq: self.safe_sseq,
            transactions: Vec::new(),
            is_readonly: self.is_readonly,
            has_snapshot: false,
            error: None,
        }
    }

    pub open spec fn flags_text(&self) -> Seq<char> {
        (if self.is_readonly { "ro"@ } else { "rw"@ }) + (if self.has_snapshot {
            "|sn"@
        } else {
            Seq::empty()
        }) + match self.error {
            Some(e) => "|"@ + e.text(),
            None => Seq::empty(),
        }
    }

    pub open spec fn text(&self) -> Seq<char> {
        "["@ + self.kind.name() + "/"@ + self.key@ + "/"@ + self.duid@ + " "@ + decimal(
            self.checkpoint.sseq as nat,
        ) + ":"@ + decimal(self.checkpoint.cseq as nat) + ":"@ + decimal(self.safe_sseq as nat)
            + " "@ + decimal(self.transactions@.len()) + " "@ + self.flags_text() + " tx "@
            + self.state.name() + "]"@
    }

    /// Renders the pack as
    /// `[<kind>/<key>/<duid> <sseq>:<cseq>:<safe sseq> <count> <flags> tx <state>]`,
    /// where the flags are `ro` or `rw`, then `|sn` with a snapshot, then
    /// `|<error>` with an error.
    pub fn to_string(&self) -> (r: String)
        ensures
            r@ == self.text(),
    {
        let mut flags = if self.is_readonly {
            String::from_str("ro")
        } else {
            String::from_str("rw")
        };
        if self.has_snapshot {
            flags.append("|sn");
        }
        match &self.error {
            Some(e) => {
                flags.append("|");
                let t = e.to_string();
                flags.append(t.as_str());
            },
            None => {},
        }
        assert(flags@ =~= self.flags_text());
        let mut s = String::from_str("[");
        let k = self.kind.to_string();
        s.append(k.as_str());
        s.append("/");
        s.append(self.key.as_str());
        s.append("/");
        s.append(self.duid.as_str());
        s.append(" ");
        let a = decimal_text(self.checkpoint.sseq);
        s.append(a.as_str());
        s.append(":");
        let b = decimal_text(self.checkpoint.cseq);
        s.append(b.as_str());
        s.append(":");
        let c = decimal_text(self.safe_sseq);
        s.append(c.as_str());
        s.append(" ");
        let n = decimal_text(self.transactions.len() as u64);
        s.append(n.as_str());
        s.append(" ");
        s.append(flags.as_str());
        s.append(" tx ");
        let st = self.state.to_string();
        s.append(st.as_str());
        s.append("]");
        s
    }
}

} // verus!
