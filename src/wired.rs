use vstd::prelude::*;
use vstd::string::*;

use crate::connectivity::{is_pushable, Connectivity};
use crate::errors::ClientPushPullError;
use crate::mutable::MutableDatatype;
use crate::pull_handler::PullHandler;

verus! {

/// A datatype attached to the server through a connectivity.
#[derive(Debug)]
pub struct WiredDatatype {
    pub mutable: MutableDatatype,
}

impl WiredDatatype {
    pub open spec fn wf(&self) -> bool {
        self.mutable.wf() && self.mutable.transaction is None
    }

    /// Pushes the pending state and applies what is pulled back. A datatype
    /// that is disabled, or in a state without a push, is refused with
    /// `FailedAndAbort`; a failing connectivity yields
    /// `FailedInConnectivity`.
    pub fn push_pull<C: Connectivity>(&mut self, conn: &mut C) -> (r: Result<(), ClientPushPullError>)
        requires
            old(self).wf(),
            old(conn).inv(),
        ensures
            final(self).wf(),
            final(conn).inv(),
            final(self).mutable.push_buffer == old(self).mutable.push_buffer,
            final(self).mutable.checkpoint.sseq >= old(self).mutable.checkpoint.sseq,
            final(self).mutable.checkpoint.cseq >= old(self).mutable.checkpoint.cseq,
            final(self).mutable.op_id@ == old(self).mutable.op_id@,
            final(self).mutable.attr.cuid@ == old(self).mutable.attr.cuid@,
            final(self).mutable.attr.key@ == old(self).mutable.attr.key@,
            final(self).mutable.attr.kind == old(self).mutable.attr.kind,
            final(self).mutable.attr.is_readonly == old(self).mutable.attr.is_readonly,
            !is_pushable(old(self).mutable.state) ==> (r matches Err(
                ClientPushPullError::FailedAndAbort(_),
            ) && final(self).mutable == old(self).mutable),
            is_pushable(old(self).mutable.state) && old(self).mutable.push_from() < old(
                self,
            ).mutable.push_buffer.first_cseq ==> (r matches Err(ClientPushPullError::FailToGetAfter)
                && final(self).mutable == old(self).mutable),
            r matches Err(ClientPushPullError::FailedInConnectivity(_)) ==> final(self).mutable
                == old(self).mutable,
    {
        if !(self.mutable.state == crate::types::DatatypeState::DueToCreate || self.mutable.state
            == crate::types::DatatypeState::DueToSubscribe || self.mutable.state
            == crate::types::DatatypeState::DueToSubscribeOrCreate || self.mutable.state
            == crate::types::DatatypeState::Subscribed) {
            return Err(ClientPushPullError::FailedAndAbort(String::from_str("datatype is not pushable")));
        }
        let pushing = match self.mutable.create_push_pull_pack() {
            Ok(p) => p,
            Err(e) => {
                return Err(e);
            },
        };
        let pulled = match conn.push_and_pull(&pushing) {
            Ok(p) => p,
            Err(e) => {
                return Err(ClientPushPullError::FailedInConnectivity(e));
            },
        };
        let mut handler = PullHandler::new(&self.mutable);
        handler.apply(&pulled, &mut self.mutable)
    }

    /// Pushes when the connectivity is realtime and a push is due. A failed
    /// round is not passed on: the next round retries it.
    pub fn push_if_needed<C: Connectivity>(&mut self, conn: &mut C)
        requires
            old(self).wf(),
            old(conn).inv(),
        ensures
            final(self).wf(),
            final(conn).inv(),
            final(self).mutable.push_buffer == old(self).mutable.push_buffer,
            final(self).mutable.checkpoint.sseq >= old(self).mutable.checkpoint.sseq,
            final(self).mutable.checkpoint.cseq >= old(self).mutable.checkpoint.cseq,
            final(self).mutable.op_id@ == old(self).mutable.op_id@,
            final(self).mutable.attr.kind == old(self).mutable.attr.kind,
            final(self).mutable.attr.is_readonly == old(self).mutable.attr.is_readonly,
            !(old(conn).realtime() && old(self).mutable.spec_need_push()) ==> final(self).mutable
                == old(self).mutable,
            !is_pushable(old(self).mutable.state) ==> final(self).mutable == old(self).mutable,
            old(self).mutable.push_from() < old(self).mutable.push_buffer.first_cseq
                ==> final(self).mutable == old(self).mutable,
    {
        if !conn.is_realtime() || !self.mutable.need_push() {
            return;
        }
        let _ = self.push_pull(conn);
    }
}

} // verus!
