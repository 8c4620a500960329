use vstd::prelude::*;
use vstd::string::*;

verus! {

/// Errors of the push buffer.
#[derive(Debug, Clone, Copy, PartialEq, Eq, Structural)]
pub enum PushBufferError {
    /// The buffer would exceed its bound on memory.
    ExceedMaxMemSize,
    /// A transaction's cseq does not follow the last one.
    NonSequentialCseq,
    /// The requested cseq lies before the buffer.
    FailToGetAfter,
}

/// Errors of a connectivity.
#[derive(Debug, Clone, Copy, PartialEq, Eq, Structural)]
pub enum ConnectivityError {
    ResourceNotFound,
}

/// Errors of the client and of its management of datatypes. Two values are
/// equal when they are of the same variant, whatever their messages.
#[derive(Debug)]
pub enum ClientError {
    InvalidCollectionName(String),
    FailedToSubscribeOrCreateDatatype(String),
}

impl ClientError {
    pub open spec fn kind(&self) -> nat {
        match self {
            ClientError::InvalidCollectionName(_) => 0,
            ClientError::FailedToSubscribeOrCreateDatatype(_) => 1,
        }
    }
}

impl PartialEq for ClientError {
    fn eq(&self, o: &ClientError) -> (r: bool) {
        match (self, o) {
            (ClientError::InvalidCollectionName(_), ClientError::InvalidCollectionName(_)) => true,
            (
                ClientError::FailedToSubscribeOrCreateDatatype(_),
                ClientError::FailedToSubscribeOrCreateDatatype(_),
            ) => true,
            _ => false,
        }
    }
}

impl vstd::std_specs::cmp::PartialEqSpecImpl for ClientError {
    open spec fn obeys_eq_spec() -> bool {
        true
    }

    open spec fn eq_spec(&self, o: &ClientError) -> bool {
        self.kind() == o.kind()
    }
}

/// Errors of datatype operations. Two values are equal when they are of the
/// same variant, whatever their payloads.
#[derive(Debug)]
pub enum DatatypeError {
    FailedBuildDatatype(String),
    FailedTransaction(String),
    FailedToDeserialize(String),
    FailedToExecuteOperation(String),
    FailureInEventLoop(String),
    FailedToWrite(String),
    FailedToPushPull(ConnectivityError),
}

impl DatatypeError {
    pub open spec fn kind(&self) -> nat {
        match self {
            DatatypeError::FailedBuildDatatype(_) => 0,
            DatatypeError::FailedTransaction(_) => 1,
            DatatypeError::FailedToDeserialize(_) => 2,
            DatatypeError::FailedToExecuteOperation(_) => 3,
            DatatypeError::FailureInEventLoop(_) => 4,
            DatatypeError::FailedToWrite(_) => 5,
            DatatypeError::FailedToPushPull(_) => 6,
        }
    }

    pub fn kind_code(&self) -> (r: u8)
        ensures
            r as nat == self.kind(),
    {
        match self {
            DatatypeError::FailedBuildDatatype(_) => 0,
            DatatypeError::FailedTransaction(_) => 1,
            DatatypeError::FailedToDeserialize(_) => 2,
            DatatypeError::FailedToExecuteOperation(_) => 3,
            DatatypeError::FailureInEventLoop(_) => 4,
            DatatypeError::FailedToWrite(_) => 5,
            DatatypeError::FailedToPushPull(_) => 6,
        }
    }
}

impl PartialEq for DatatypeError {
    fn eq(&self, o: &DatatypeError) -> (r: bool) {
        self.kind_code() == o.kind_code()
    }
}

impl vstd::std_specs::cmp::PartialEqSpecImpl for DatatypeError {
    open spec fn obeys_eq_spec() -> bool {
        true
    }

    open spec fn eq_spec(&self, o: &DatatypeError) -> bool {
        self.kind() == o.kind()
    }
}

/// Errors that the server reports in a pulled pack. Two values are equal when
/// they are of the same variant, whatever their messages.
#[derive(Debug)]
pub enum ServerPushPullError {
    IllegalPushRequest(String),
    FailedToCreate(String),
    FailedToSubscribe(String),
}

impl ServerPushPullError {
    pub open spec fn kind(&self) -> nat {
        match self {
            ServerPushPullError::IllegalPushRequest(_) => 0,
            ServerPushPullError::FailedToCreate(_) => 1,
            ServerPushPullError::FailedToSubscribe(_) => 2,
        }
    }

    pub fn kind_code(&self) -> (r: u8)
        ensures
            r as nat == self.kind(),
    {
        match self {
            ServerPushPullError::IllegalPushRequest(_) => 0,
            ServerPushPullError::FailedToCreate(_) => 1,
            ServerPushPullError::FailedToSubscribe(_) => 2,
        }
    }
}

impl ServerPushPullError {
    pub open spec fn text(&self) -> Seq<char> {
        match self {
            ServerPushPullError::IllegalPushRequest(m) => "[ServerPushPullError] illegal push request - "@
                + m@,
            ServerPushPullError::FailedToCreate(m) => "[ServerPushPull] fail to create - "@ + m@,
            ServerPushPullError::FailedToSubscribe(m) => "[ServerPushPull] fail to subscribe - "@
                + m@,
        }
    }

    /// The message of the error, with its reason.
    pub fn to_string(&self) -> (r: String)
        ensures
            r@ == self.text(),
    {
        let (mut s, m) = match self {
            ServerPushPullError::IllegalPushRequest(m) => (
                String::from_str("[ServerPushPullError] illegal push request - "),
                m,
            ),
            ServerPushPullError::FailedToCreate(m) => (
                String::from_str("[ServerPushPull] fail to create - "),
                m,
            ),
            ServerPushPullError::FailedToSubscribe(m) => (
                String::from_str("[ServerPushPull] fail to subscribe - "),
                m,
            ),
        };
        s.append(m.as_str());
        s
    }
}

impl Clone for ServerPushPullError {
    fn clone(&self) -> (r: Self)
        ensures
            r == *self,
    {
        match self {
            ServerPushPullError::IllegalPushRequest(s) => ServerPushPullError::IllegalPushRequest(
                s.clone(),
            ),
            ServerPushPullError::FailedToCreate(s) => ServerPushPullError::FailedToCreate(
                s.clone(),
            ),
            ServerPushPullError::FailedToSubscribe(s) => ServerPushPullError::FailedToSubscribe(
                s.clone(),
            ),
        }
    }
}

impl PartialEq for ServerPushPullError {
    fn eq(&self, o: &ServerPushPullError) -> (r: bool) {
        self.kind_code() == o.kind_code()
    }
}

impl vstd::std_specs::cmp::PartialEqSpecImpl for ServerPushPullError {
    open spec fn obeys_eq_spec() -> bool {
        true
    }

    open spec fn eq_spec(&self, o: &ServerPushPullError) -> bool {
        self.kind() == o.kind()
    }
}

/// What to do after a failed push/pull.
#[derive(Debug, Clone, Copy, PartialEq, Eq, Structural)]
pub enum CaseAfterPushPullError {
    /// Retry later.
    BackOff,
    /// Reset the datatype.
    Reset,
    /// Give the datatype up.
    Abort,
}

/// Errors of a push/pull on the client's side.
#[derive(Debug)]
pub enum ClientPushPullError {
    ExceedMaxMemSize,
    NonSequentialCseq,
    FailToGetAfter,
    FailedInConnectivity(ConnectivityError),
    FailedAndAbort(String),
}

impl ClientPushPullError {
    pub open spec fn handling(&self) -> CaseAfterPushPullError {
        match self {
            ClientPushPullError::ExceedMaxMemSize => CaseAfterPushPullError::BackOff,
            ClientPushPullError::NonSequentialCseq => CaseAfterPushPullError::Abort,
            ClientPushPullError::FailToGetAfter => CaseAfterPushPullError::Abort,
            ClientPushPullError::FailedInConnectivity(_) => CaseAfterPushPullError::BackOff,
            ClientPushPullError::FailedAndAbort(_) => CaseAfterPushPullError::Abort,
        }
    }

    /// The policy for each error: a full buffer or a failing connectivity is
    /// retried later; a broken sequence or an abort from the server gives the
    /// datatype up.
    pub fn how_to_deal_with_error(&self) -> (r: CaseAfterPushPullError)
        ensures
            r == self.handling(),
    {
        match self {
            ClientPushPullError::ExceedMaxMemSize => CaseAfterPushPullError::BackOff,
            ClientPushPullError::NonSequentialCseq => CaseAfterPushPullError::Abort,
            ClientPushPullError::FailToGetAfter => CaseAfterPushPullError::Abort,
            ClientPushPullError::FailedInConnectivity(_) => CaseAfterPushPullError::BackOff,
            ClientPushPullError::FailedAndAbort(_) => CaseAfterPushPullError::Abort,
        }
    }

    /// The error of the push buffer as an error of the push/pull.
    pub fn from_push_buffer(e: PushBufferError) -> (r: ClientPushPullError)
        ensures
            e == PushBufferError::ExceedMaxMemSize ==> r is ExceedMaxMemSize,
            e == PushBufferError::NonSequentialCseq ==> r is NonSequentialCseq,
            e == PushBufferError::FailToGetAfter ==> r is FailToGetAfter,
    {
        match e {
            PushBufferError::ExceedMaxMemSize => ClientPushPullError::ExceedMaxMemSize,
            PushBufferError::NonSequentialCseq => ClientPushPullError::NonSequentialCseq,
            PushBufferError::FailToGetAfter => ClientPushPullError::FailToGetAfter,
        }
    }
}

} // verus!
