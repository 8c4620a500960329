use vstd::prelude::*;
use vstd::string::*;

use crate::errors::{ConnectivityError, ServerPushPullError};
use crate::mutable::Attribute;
use crate::push_pull_pack::{resource_id_of, PushPullPack};
use crate::server::{create_post, subscribe_post, subscribed_post, LocalDatatypeServer};
use crate::types::{CheckPoint, DatatypeState};

verus! {

/// The states in which a datatype pushes to the server.
pub open spec fn is_pushable(s: DatatypeState) -> bool {
    s == DatatypeState::DueToCreate || s == DatatypeState::DueToSubscribe || s
        == DatatypeState::DueToSubscribeOrCreate || s == DatatypeState::Subscribed
}

/// The capability through which datatypes reach the server.
pub trait Connectivity {
    /// What the connectivity keeps true between calls.
    spec fn inv(&self) -> bool;

    /// Exchanges a pushed pack for a pulled one.
    fn push_and_pull(&mut self, ppp: &PushPullPack) -> (r: Result<PushPullPack, ConnectivityError>)
        requires
            old(self).inv(),
            is_pushable(ppp.state),
        ensures
            final(self).inv(),
    ;

    /// Whether writes push at once.
    spec fn realtime(&self) -> bool;

    /// Whether writes should push at once.
    fn is_realtime(&self) -> (r: bool)
        ensures
            r == self.realtime(),
    ;
}

/// The reply of a connectivity without a server to `pushed`: a read-only
/// creation and a subscription with transactions are illegal; a creation or
/// a subscribed push is acknowledged as is; a subscription without
/// transactions is accepted.
pub open spec fn null_reply(pushed: PushPullPack, p: PushPullPack) -> bool {
    &&& p.collection@ == pushed.collection@
    &&& p.cuid@ == pushed.cuid@
    &&& p.duid@ == pushed.duid@
    &&& p.key@ == pushed.key@
    &&& p.kind == pushed.kind
    &&& p.is_readonly == pushed.is_readonly
    &&& p.transactions@.len() == 0
    &&& (pushed.state == DatatypeState::DueToCreate || pushed.state
        == DatatypeState::DueToSubscribeOrCreate) ==> if pushed.is_readonly {
        &&& p.error matches Some(ServerPushPullError::IllegalPushRequest(_))
        &&& p.state == DatatypeState::Disabled
        &&& p.checkpoint == (CheckPoint { sseq: 0, cseq: 0 })
    } else {
        &&& p.error is None
        &&& p.state == DatatypeState::DueToCreate
        &&& p.checkpoint == (CheckPoint { sseq: pushed.checkpoint.cseq, cseq: pushed.checkpoint.cseq })
    }
    &&& pushed.state == DatatypeState::DueToSubscribe ==> if pushed.transactions@.len() > 0 {
        &&& p.error matches Some(ServerPushPullError::IllegalPushRequest(_))
        &&& p.state == DatatypeState::Disabled
        &&& p.checkpoint == (CheckPoint { sseq: 0, cseq: 0 })
    } else {
        &&& p.error is None
        &&& p.state == DatatypeState::DueToSubscribe
        &&& p.checkpoint == (CheckPoint { sseq: 0, cseq: 0 })
    }
    &&& pushed.state == DatatypeState::Subscribed ==> {
        &&& p.error is None
        &&& p.state == DatatypeState::Subscribed
        &&& p.checkpoint == (CheckPoint { sseq: pushed.checkpoint.cseq, cseq: pushed.checkpoint.cseq })
    }
}

/// A connectivity without a server: it acknowledges every push as is.
#[derive(Debug)]
pub struct NullConnectivity {}

impl NullConnectivity {
    pub fn new() -> (r: NullConnectivity) {
        NullConnectivity {  }
    }

    /// Acknowledges the pushed cseq as both sequence numbers.
    pub fn push_transaction(&self, pushed: &PushPullPack, pulled: &mut PushPullPack)
        ensures
            final(pulled).checkpoint == (CheckPoint {
                sseq: pushed.checkpoint.cseq,
                cseq: pushed.checkpoint.cseq,
            }),
            final(pulled).state == old(pulled).state,
            final(pulled).error == old(pulled).error,
            final(pulled).transactions == old(pulled).transactions,
            final(pulled).cuid == old(pulled).cuid,
            final(pulled).duid == old(pulled).duid,
            final(pulled).key == old(pulled).key,
            final(pulled).collection == old(pulled).collection,
            final(pulled).kind == old(pulled).kind,
            final(pulled).is_readonly == old(pulled).is_readonly,
    {
        pulled.checkpoint.cseq = pushed.checkpoint.cseq;
        pulled.checkpoint.sseq = pushed.checkpoint.cseq;
    }

    /// Marks `pulled` as an illegal request and disables it.
    pub fn set_illegal_push_request(&self, pulled: &mut PushPullPack, reason: &str)
        ensures
            final(pulled).error matches Some(ServerPushPullError::IllegalPushRequest(m)) && m@
                == reason@,
            final(pulled).state == DatatypeState::Disabled,
            final(pulled).checkpoint == old(pulled).checkpoint,
            final(pulled).transactions == old(pulled).transactions,
            final(pulled).cuid == old(pulled).cuid,
            final(pulled).duid == old(pulled).duid,
            final(pulled).key == old(pulled).key,
            final(pulled).collection == old(pulled).collection,
            final(pulled).kind == old(pulled).kind,
            final(pulled).is_readonly == old(pulled).is_readonly,
    {
        pulled.error = Some(ServerPushPullError::IllegalPushRequest(String::from_str(reason)));
        pulled.state = DatatypeState::Disabled;
    }

    /// A read-only creation and a subscription with transactions are
    /// illegal; a creation or a subscribed push is acknowledged as is; a
    /// subscription without transactions is accepted.
    pub fn serve(&self, pushed: &PushPullPack) -> (r: PushPullPack)
        requires
            is_pushable(pushed.state),
        ensures
            null_reply(*pushed, r),
    {
        let mut pulled = pushed.get_pulled_stub();
        match pushed.state {
            DatatypeState::DueToCreate | DatatypeState::DueToSubscribeOrCreate => {
                if pushed.is_readonly {
                    self.set_illegal_push_request(
                        &mut pulled,
                        "readonly client cannot create datatype",
                    );
                    return pulled;
                }
                pulled.state = DatatypeState::DueToCreate;
                self.push_transaction(pushed, &mut pulled);
            },
            DatatypeState::DueToSubscribe => {
                pulled.state = DatatypeState::DueToSubscribe;
                if pushed.transactions.len() > 0 {
                    self.set_illegal_push_request(&mut pulled, "cannot subscribe with transactions");
                    return pulled;
                }
            },
            _ => {
                pulled.state = DatatypeState::Subscribed;
                self.push_transaction(pushed, &mut pulled);
            },
        }
        pulled
    }
}

impl Connectivity for NullConnectivity {
    open spec fn inv(&self) -> bool {
        true
    }

    fn push_and_pull(&mut self, ppp: &PushPullPack) -> (r: Result<PushPullPack, ConnectivityError>)
        ensures
            r matches Ok(p) && null_reply(*ppp, p),
    {
        Ok(self.serve(ppp))
    }

    open spec fn realtime(&self) -> bool {
        true
    }

    fn is_realtime(&self) -> (r: bool) {
        true
    }
}

/// An in-process server: one record per resource id.
#[derive(Debug)]
pub struct LocalConnectivity {
    pub servers: Vec<(String, LocalDatatypeServer)>,
    pub realtime: bool,
}

impl LocalConnectivity {
    /// Each record is well formed and has a resource id of its own.
    pub open spec fn wf(&self) -> bool {
        &&& forall|i: int| 0 <= i < self.servers@.len() ==> (#[trigger] self.servers@[i]).1.wf()
        &&& forall|i: int, j: int|
            0 <= i < j < self.servers@.len() ==> (#[trigger] self.servers@[i]).0@ != (
            #[trigger] self.servers@[j]).0@
    }

    pub fn new(realtime: bool) -> (r: LocalConnectivity)
        ensures
            r.wf(),
            r.servers@.len() == 0,
            r.realtime == realtime,
    {
        LocalConnectivity { servers: Vec::new(), realtime }
    }

    pub fn find(&self, resource_id: &String) -> (r: Option<usize>)
        ensures
            r matches Some(i) ==> i < self.servers@.len() && self.servers@[i as int].0@
                == resource_id@,
            r is None ==> forall|i: int|
                0 <= i < self.servers@.len() ==> (#[trigger] self.servers@[i]).0@ != resource_id@,
    {
        let mut i: usize = 0;
        while i < self.servers.len()
            invariant
                0 <= i <= self.servers@.len(),
                forall|k: int| 0 <= k < i ==> (#[trigger] self.servers@[k]).0@ != resource_id@,
            decreases self.servers@.len() - i,
        {
            if self.servers[i].0 == *resource_id {
                return Some(i);
            }
            i += 1;
        }
        None
    }

    /// Makes sure that a record exists for the datatype of `attr`.
    pub fn register(&mut self, attr: &Attribute)
        requires
            old(self).wf(),
        ensures
            final(self).wf(),
            exists|i: int|
                0 <= i < final(self).servers@.len() && (#[trigger] final(self).servers@[i]).0@
                    == resource_id_of(attr.collection@, attr.key@),
    {
        let rid = attr.resource_id();
        match self.find(&rid) {
            Some(_) => {},
            None => {
                let server = LocalDatatypeServer::new(attr);
                let ghost before = self.servers@;
                self.servers.push((rid, server));
                proof {
                    let n = self.servers@.len() - 1;
                    assert(self.servers@[n].0@ == resource_id_of(attr.collection@, attr.key@));
                    assert forall|i: int, j: int| 0 <= i < j < self.servers@.len() implies
                        (#[trigger] self.servers@[i]).0@ != (#[trigger] self.servers@[j]).0@ by {
                        assert(self.servers@[i] == before[i]);
                        if j < n {
                            assert(self.servers@[j] == before[j]);
                        }
                    }
                    assert forall|i: int| 0 <= i < self.servers@.len() implies (#[trigger] self.servers@[i]).1.wf() by {
                        if i < n {
                            assert(self.servers@[i] == before[i]);
                        }
                    }
                }
            },
        }
    }

    /// Routes `pushed` to the record of its resource id by its state: a
    /// creation, a subscription, either one as the record was or was not
    /// created, or a push of a subscribed client. Other records stay as they
    /// are. A read-only client never adds to any record's history.
    pub fn serve(&mut self, pushed: &PushPullPack) -> (r: Result<PushPullPack, ConnectivityError>)
        requires
            old(self).wf(),
            is_pushable(pushed.state),
        ensures
            final(self).wf(),
            final(self).servers@.len() == old(self).servers@.len(),
            forall|i: int|
                0 <= i < old(self).servers@.len() ==> (#[trigger] final(self).servers@[i]).0
                    == old(self).servers@[i].0,
            pushed.is_readonly ==> forall|i: int|
                0 <= i < old(self).servers@.len() ==> (#[trigger] final(self).servers@[i]).1.history
                    == old(self).servers@[i].1.history,
            (forall|i: int|
                0 <= i < old(self).servers@.len() ==> (#[trigger] old(self).servers@[i]).0@
                    != resource_id_of(pushed.collection@, pushed.key@)) ==> r == Err::<
                PushPullPack,
                ConnectivityError,
            >(ConnectivityError::ResourceNotFound),
            forall|i: int|
                0 <= i < old(self).servers@.len() && (#[trigger] old(self).servers@[i]).0@
                    == resource_id_of(pushed.collection@, pushed.key@) ==> {
                    let before = old(self).servers@[i].1;
                    let after = final(self).servers@[i].1;
                    &&& pushed.state == DatatypeState::DueToCreate ==> (r matches Ok(p)
                        && create_post(before, after, *pushed, p))
                    &&& pushed.state == DatatypeState::DueToSubscribe ==> (r matches Ok(p)
                        && subscribe_post(before, *pushed, p) && after == before)
                    &&& (pushed.state == DatatypeState::DueToSubscribeOrCreate && before.created)
                        ==> (r matches Ok(p) && subscribe_post(before, *pushed, p) && after
                        == before)
                    &&& (pushed.state == DatatypeState::DueToSubscribeOrCreate && !before.created)
                        ==> (r matches Ok(p) && create_post(before, after, *pushed, p))
                    &&& pushed.state == DatatypeState::Subscribed ==> (r matches Ok(p)
                        && subscribed_post(before, after, *pushed, p))
                    &&& forall|j: int|
                        0 <= j < old(self).servers@.len() && j != i ==> #[trigger] final(self).servers@[j]
                            == old(self).servers@[j]
                },
    {
        let rid = pushed.resource_id();
        let idx = match self.find(&rid) {
            Some(i) => i,
            None => {
                return Err(ConnectivityError::ResourceNotFound);
            },
        };
        let ghost before = self.servers@;
        let (key, mut server) = self.servers.remove(idx);
        assert(before[idx as int].1.wf());
        let r = if pushed.state == DatatypeState::DueToCreate {
            server.process_due_to_create(pushed)
        } else if pushed.state == DatatypeState::DueToSubscribe {
            server.process_due_to_subscribe(pushed)
        } else if pushed.state == DatatypeState::DueToSubscribeOrCreate {
            if server.created {
                server.process_due_to_subscribe(pushed)
            } else {
                server.process_due_to_create(pushed)
            }
        } else {
            server.process_subscribed(pushed)
        };
        self.servers.insert(idx, (key, server));
        proof {
            assert forall|i: int, j: int| 0 <= i < j < self.servers@.len() implies
                (#[trigger] self.servers@[i]).0@ != (#[trigger] self.servers@[j]).0@ by {
                assert(before[i].0@ != before[j].0@);
                if i != idx as int { assert(self.servers@[i] == before[i]); }
                if j != idx as int { assert(self.servers@[j] == before[j]); }
            }
            assert forall|i: int| 0 <= i < before.len() && (#[trigger] before[i]).0@
                == resource_id_of(pushed.collection@, pushed.key@) implies i == idx as int by {
                if i < idx as int {
                    assert(before[i].0@ != before[idx as int].0@);
                } else if i > idx as int {
                    assert(before[idx as int].0@ != before[i].0@);
                }
            }
            assert forall|i: int| 0 <= i < self.servers@.len() implies (#[trigger] self.servers@[i]).1.wf() by {
                if i != idx as int {
                    if i < idx as int {
                        assert(self.servers@[i] == before[i]);
                    } else {
                        assert(self.servers@[i] == before[i]);
                    }
                }
            }
            assert forall|i: int| 0 <= i < before.len() implies (#[trigger] self.servers@[i]).0 == before[i].0 by {
                if i != idx as int {
                    assert(self.servers@[i] == before[i]);
                }
            }
            if pushed.is_readonly {
                assert forall|i: int| 0 <= i < before.len() implies (#[trigger] self.servers@[i]).1.history == before[i].1.history by {
                    if i != idx as int {
                        assert(self.servers@[i] == before[i]);
                    }
                }
            }
        }
        r
    }
}

impl Connectivity for LocalConnectivity {
    open spec fn inv(&self) -> bool {
        self.wf()
    }

    fn push_and_pull(&mut self, ppp: &PushPullPack) -> (r: Result<PushPullPack, ConnectivityError>) {
        self.serve(ppp)
    }

    open spec fn realtime(&self) -> bool {
        self.realtime
    }

    fn is_realtime(&self) -> (r: bool) {
        self.realtime
    }
}

} // verus!
