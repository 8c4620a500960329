use vstd::prelude::*;
use vstd::string::*;

use crate::counter::Counter;
use crate::errors::ClientError;
use crate::mutable::Attribute;
use crate::name_validator::{is_valid_collection_name, valid_collection_name};
use crate::push_buffer::{clamp_mem_size, DatatypeOption};
use crate::types::{is_uid_text, CheckPoint, Cuid, DataType, DatatypeState, Uid};

verus! {

/// What the datatypes of a client share: its collection, its alias and its
/// cuid.
#[derive(Debug)]
pub struct ClientCommon {
    pub collection: String,
    pub alias: String,
    pub cuid: Cuid,
}

impl ClientCommon {
    /// A client of `collection` under `alias`, with a fresh cuid. A
    /// collection name that breaks the naming policy yields
    /// `InvalidCollectionName`.
    pub fn new(collection: &str, alias: &str) -> (r: Result<ClientCommon, ClientError>)
        ensures
            valid_collection_name(collection@) <==> r is Ok,
            r matches Ok(info) ==> info.collection@ == collection@ && info.alias@ == alias@
                && is_uid_text(info.cuid@),
            r matches Err(e) ==> e is InvalidCollectionName,
    {
        if !is_valid_collection_name(collection) {
            let mut m = String::from_str("invalid collection name: ");
            m.append(collection);
            return Err(ClientError::InvalidCollectionName(m));
        }
        Ok(
            ClientCommon {
                collection: String::from_str(collection),
                alias: String::from_str(alias),
                cuid: Uid::new(),
            },
        )
    }
}

/// The keys of the live datatypes of a client.
#[derive(Debug)]
pub struct DatatypeManager {
    pub keys: Vec<String>,
}

impl DatatypeManager {
    pub fn new() -> (r: DatatypeManager)
        ensures
            r.keys@.len() == 0,
    {
        DatatypeManager { keys: Vec::new() }
    }

    pub open spec fn holds(&self, key: Seq<char>) -> bool {
        exists|i: int| 0 <= i < self.keys@.len() && (#[trigger] self.keys@[i])@ == key
    }

    /// The index of `key`, if it is live.
    pub fn get_datatype(&self, key: &str) -> (r: Option<usize>)
        ensures
            r matches Some(i) ==> i < self.keys@.len() && self.keys@[i as int]@ == key@,
            r is None <==> !self.holds(key@),
    {
        let wanted = String::from_str(key);
        let mut i: usize = 0;
        while i < self.keys.len()
            invariant
                0 <= i <= self.keys@.len(),
                wanted@ == key@,
                forall|k: int| 0 <= k < i ==> (#[trigger] self.keys@[k])@ != key@,
            decreases self.keys@.len() - i,
        {
            if self.keys[i] == wanted {
                return Some(i);
            }
            i += 1;
        }
        None
    }

    /// Takes `key` for a new datatype of `kind` in `state` and builds it. A
    /// key that is already live yields `FailedToSubscribeOrCreateDatatype`
    /// and changes nothing.
    pub fn subscribe_or_create_datatype(
        &mut self,
        key: &str,
        kind: DataType,
        state: DatatypeState,
        option: DatatypeOption,
        is_readonly: bool,
        common: &ClientCommon,
    ) -> (r: Result<DatatypeSet, ClientError>)
        requires
            kind == DataType::Counter,
            option.wf(),
        ensures
            old(self).holds(key@) ==> (r matches Err(e) && e is FailedToSubscribeOrCreateDatatype
                && final(self).keys@ == old(self).keys@),
            !old(self).holds(key@) ==> (final(self).keys@.len() == old(self).keys@.len() + 1
                && final(self).keys@.drop_last() == old(self).keys@ && final(self).keys@.last()@
                == key@),
            !old(self).holds(key@) ==> (r matches Ok(DatatypeSet::Counter(c)) && {
                &&& c.wf()
                &&& c.value() == 0
                &&& c.mutable().state == state
                &&& c.mutable().attr.kind == kind
                &&& c.mutable().attr.key@ == key@
                &&& c.mutable().attr.cuid@ == common.cuid@
                &&& c.mutable().attr.collection@ == common.collection@
                &&& c.mutable().attr.option == option
                &&& c.mutable().attr.is_readonly == is_readonly
                &&& c.mutable().transaction is None
                &&& c.mutable().op_id.cseq == 0
                &&& c.mutable().op_id.lamport == 0
                &&& c.mutable().push_buffer.txs().len() == 0
                &&& !c.in_transaction
            }),
    {
        if self.get_datatype(key).is_some() {
            let mut m = String::from_str("already subscribed or created: ");
            m.append(key);
            return Err(ClientError::FailedToSubscribeOrCreateDatatype(m));
        }
        let ghost before = self.keys@;
        self.keys.push(String::from_str(key));
        proof {
            assert(self.keys@.drop_last() =~= before);
        }
        let builder = DatatypeBuilder { key: String::from_str(key), state, option, is_readonly };
        Ok(DatatypeSet::Counter(builder.build_counter(common)))
    }
}

/// How a datatype is to be built: its key and initial state, the bound of its
/// push buffer, and whether it is read-only.
#[derive(Debug)]
pub struct DatatypeBuilder {
    pub key: String,
    pub state: DatatypeState,
    pub option: DatatypeOption,
    pub is_readonly: bool,
}

impl DatatypeBuilder {
    pub fn new(key: &str, state: DatatypeState) -> (r: DatatypeBuilder)
        ensures
            r.key@ == key@,
            r.state == state,
            r.option == DatatypeOption::default_spec(),
            !r.is_readonly,
    {
        DatatypeBuilder {
            key: String::from_str(key),
            state,
            option: DatatypeOption::default(),
            is_readonly: false,
        }
    }

    /// Sets the bound of the push buffer, clamped to [1 MB, 1 GB].
    pub fn with_max_memory_size_of_push_buffer(self, size: u64) -> (r: DatatypeBuilder)
        ensures
            r.option.max_mem_size_of_push_buffer == clamp_mem_size(size),
            r.key == self.key,
            r.state == self.state,
            r.is_readonly == self.is_readonly,
    {
        DatatypeBuilder { option: DatatypeOption::new(size), ..self }
    }

    /// Makes the datatype read-only.
    pub fn with_readonly(self) -> (r: DatatypeBuilder)
        ensures
            r.is_readonly,
            r.key == self.key,
            r.state == self.state,
            r.option == self.option,
    {
        DatatypeBuilder { is_readonly: true, ..self }
    }

    /// A counter of `info` as this builder describes it, with a fresh duid.
    pub fn build_counter(&self, info: &ClientCommon) -> (r: Counter)
        requires
            self.option.wf(),
        ensures
            r.wf(),
            r.value() == 0,
            r.mutable().state == self.state,
            r.mutable().attr.key@ == self.key@,
            r.mutable().attr.kind == DataType::Counter,
            r.mutable().attr.cuid@ == info.cuid@,
            r.mutable().attr.collection@ == info.collection@,
            r.mutable().attr.is_readonly == self.is_readonly,
            r.mutable().attr.option == self.option,
            !r.in_transaction,
            r.mutable().transaction is None,
            r.mutable().op_id.cseq == 0,
            r.mutable().op_id.lamport == 0,
            r.mutable().push_buffer.txs().len() == 0,
            r.mutable().push_buffer.mem_size == 0,
            r.mutable().checkpoint == (CheckPoint { sseq: 0, cseq: 0 }),
    {
        let attr = Attribute::new(
            self.key.as_str(),
            DataType::Counter,
            info.collection.as_str(),
            info.alias.as_str(),
            &info.cuid,
            self.option,
            self.is_readonly,
        );
        Counter::new(attr, self.state)
    }
}

/// A typed handle to a datatype of a client.
#[derive(Debug)]
pub enum DatatypeSet {
    Counter(Counter),
}

impl DatatypeSet {
    pub fn get_type(&self) -> (r: DataType)
        ensures
            self matches DatatypeSet::Counter(_) ==> r == DataType::Counter,
            self matches DatatypeSet::Counter(c) ==> (c.wf() ==> r == c.mutable().attr.kind),
    {
        match self {
            DatatypeSet::Counter(_) => DataType::Counter,
        }
    }

    pub fn get_state(&self) -> (r: DatatypeState)
        ensures
            self matches DatatypeSet::Counter(c) ==> r == c.mutable().state,
    {
        match self {
            DatatypeSet::Counter(c) => c.get_state(),
        }
    }
}

} // verus!
