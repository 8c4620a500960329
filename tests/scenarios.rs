use syncyam::connectivity::{Connectivity, LocalConnectivity, NullConnectivity};
use syncyam::counter::Counter;
use syncyam::errors::{DatatypeError, ServerPushPullError};
use syncyam::mutable::Attribute;
use syncyam::operations::{OperationId, Transaction};
use syncyam::push_buffer::DatatypeOption;
use syncyam::push_pull_pack::PushPullPack;
use syncyam::server::LocalDatatypeServer;
use syncyam::types::{CheckPoint, Cuid, DataType, DatatypeState, Duid};

fn attr_of(key: &str, cuid: &Cuid, readonly: bool) -> Attribute {
    Attribute::new(
        key,
        DataType::Counter,
        "collection",
        "alias",
        cuid,
        DatatypeOption::default(),
        readonly,
    )
}

fn pack_of(attr: &Attribute, state: DatatypeState) -> PushPullPack {
    PushPullPack::new(
        attr.collection.as_str(),
        &attr.cuid,
        &attr.duid,
        attr.key.as_str(),
        attr.kind,
        state,
        attr.is_readonly,
    )
}

fn counter_on(conn: &mut LocalConnectivity, key: &str, state: DatatypeState) -> Counter {
    let attr = attr_of(key, &Cuid::new(), false);
    conn.register(&attr);
    Counter::new(attr, state)
}

#[test]
fn can_deal_with_edge_cases_in_null_connectivity() {
    let mut null_connectivity = NullConnectivity {};
    let attr = attr_of("k", &Cuid::new(), false);

    let mut pushed1 = pack_of(&attr, DatatypeState::DueToCreate);
    pushed1.is_readonly = true;
    let res1 = null_connectivity.push_and_pull(&pushed1);
    assert!(res1.is_ok());
    let pulled1 = res1.unwrap();
    assert_eq!(
        pulled1.error.unwrap(),
        ServerPushPullError::IllegalPushRequest(String::new())
    );

    let mut pushed2 = pack_of(&attr, DatatypeState::DueToSubscribe);
    let mut op_id = OperationId::new();
    pushed2.transactions.push(Transaction::new(&mut op_id));
    let res2 = null_connectivity.push_and_pull(&pushed2);
    assert!(res2.is_ok());
    let pulled2 = res2.unwrap();
    assert_eq!(
        pulled2.error.unwrap(),
        ServerPushPullError::IllegalPushRequest(String::new())
    );
}

#[test]
fn can_display_push_pull_pack() {
    let attr = attr_of("k", &Cuid::new(), false);
    let mut ppp = pack_of(&attr, DatatypeState::DueToCreate);
    println!("{}", ppp.to_string());
    let duid = attr.duid.to_string();
    assert_eq!(ppp.to_string(), format!("[Counter/k/{duid} 0:0:0 0 rw tx DueToCreate]"));
    ppp.error = Some(ServerPushPullError::IllegalPushRequest("some error".to_owned()));
    println!("{}", ppp.to_string());
    ppp.has_snapshot = true;
    println!("{}", ppp.to_string());
    assert_eq!(
        ppp.to_string(),
        format!(
            "[Counter/k/{duid} 0:0:0 0 rw|sn|[ServerPushPullError] illegal push request - some error tx DueToCreate]"
        )
    );
    assert_eq!(ppp.resource_id(), "collection/k");
}

fn add_test_transactions(pushed: &mut PushPullPack, cuid: &Cuid, from: u64, to: u64) {
    for cseq in from..=to {
        let mut op_id = OperationId::new_with_cuid(cuid);
        op_id.cseq = cseq - 1;
        let mut tx = Transaction::new(&mut op_id);
        tx.push_operation(syncyam::operations::Operation::new_counter_increase(1));
        pushed.transactions.push(tx);
    }
}

#[test]
fn can_process_due_to_create() {
    let attr = attr_of("k", &Cuid::new(), false);
    let mut server = LocalDatatypeServer::new(&attr);
    let cuid = attr.cuid.clone();

    // readonly client should fail
    let mut pushed = pack_of(&attr, DatatypeState::DueToCreate);
    pushed.is_readonly = true;
    let pulled = server.process_due_to_create(&pushed).unwrap();
    assert!(pulled.is_readonly);
    assert_eq!(pulled.checkpoint, CheckPoint::new(0, 0));
    assert_eq!(pulled.state, DatatypeState::DueToCreate);
    assert_eq!(pulled.error, Some(ServerPushPullError::FailedToCreate("".to_string())));
    assert!(!server.created);

    // normal DUE_TO_CREATE case
    pushed.is_readonly = false;
    add_test_transactions(&mut pushed, &cuid, 1, 10);
    let pulled = server.process_due_to_create(&pushed).unwrap();
    assert!(!pulled.is_readonly);
    assert_eq!(pulled.checkpoint, CheckPoint::new(10, 10));
    assert_eq!(pulled.state, DatatypeState::DueToCreate);
    assert!(pulled.error.is_none());
    assert_eq!(server.history.len(), 10);

    // duplicated push
    let pulled = server.process_due_to_create(&pushed).unwrap();
    assert_eq!(pulled.checkpoint, CheckPoint::new(10, 10));
    assert_eq!(pulled.state, DatatypeState::DueToCreate);
    assert!(pulled.error.is_none());
    assert_eq!(server.history.len(), 10);

    // already-created case
    pushed.duid = Duid::new();
    let pulled = server.process_due_to_create(&pushed).unwrap();
    assert_eq!(pulled.checkpoint, CheckPoint::new(0, 0));
    assert_eq!(pulled.state, DatatypeState::DueToCreate);
    assert_eq!(
        pulled.error,
        Some(ServerPushPullError::FailedToCreate("already exist".to_string()))
    );
    match pulled.error {
        Some(ServerPushPullError::FailedToCreate(m)) => assert_eq!(m, "already exist"),
        _ => panic!("expected FailedToCreate"),
    }
}

#[test]
fn solo_counter() {
    let mut conn = LocalConnectivity::new(false);
    let mut a = counter_on(&mut conn, "c", DatatypeState::DueToCreate);
    a.increase().unwrap();
    a.increase().unwrap();
    a.increase().unwrap();
    a.increase_by(-1).unwrap();
    assert!(a.sync(&mut conn).is_ok());
    let history = &conn.servers[0].1.history;
    assert_eq!(history.len(), 4);
    let cseqs: Vec<u64> = history.iter().map(|t| t.cseq()).collect();
    assert_eq!(cseqs, vec![1, 2, 3, 4]);
    let sseqs: Vec<u64> = history.iter().map(|t| t.sseq).collect();
    assert_eq!(sseqs, vec![1, 2, 3, 4]);
    assert_eq!(a.get_value(), 2);
    assert_eq!(a.get_state(), DatatypeState::Subscribed);
    assert_eq!(a.get_server_version(), 4);
    assert_eq!(a.get_client_version(), 4);
    assert_eq!(a.get_synced_client_version(), 4);
}

#[test]
fn creator_subscriber_convergence() {
    let mut conn = LocalConnectivity::new(false);
    let mut a = counter_on(&mut conn, "c", DatatypeState::DueToCreate);
    a.increase_by(42).unwrap();
    assert!(a.sync(&mut conn).is_ok());

    let b_attr = attr_of("c", &Cuid::new(), false);
    conn.register(&b_attr);
    let mut b = Counter::new(b_attr, DatatypeState::DueToSubscribe);
    assert!(b.sync(&mut conn).is_ok());
    assert_eq!(b.get_value(), 42);
    assert_eq!(b.get_state(), DatatypeState::Subscribed);
    assert_eq!(a.get_duid(), b.get_duid());
    assert_ne!(a.datatype.mutable.attr.cuid, b.datatype.mutable.attr.cuid);
    assert_eq!(conn.servers.len(), 1);
}

#[test]
fn subscriber_pulls_later_increases() {
    let mut conn = LocalConnectivity::new(false);
    let mut a = counter_on(&mut conn, "c", DatatypeState::DueToCreate);
    a.increase_by(42).unwrap();
    a.sync(&mut conn).unwrap();
    let b_attr = attr_of("c", &Cuid::new(), false);
    conn.register(&b_attr);
    let mut b = Counter::new(b_attr, DatatypeState::DueToSubscribe);
    b.sync(&mut conn).unwrap();
    a.increase_by(8).unwrap();
    a.sync(&mut conn).unwrap();
    b.increase_by(1).unwrap();
    b.sync(&mut conn).unwrap();
    assert_eq!(b.get_value(), 51);
    a.sync(&mut conn).unwrap();
    assert_eq!(a.get_value(), 51);
}

#[test]
fn transaction_rollback() {
    let mut conn = LocalConnectivity::new(false);
    let mut c = counter_on(&mut conn, "c", DatatypeState::DueToCreate);
    c.begin_transaction().unwrap();
    c.increase_by(1).unwrap();
    c.increase_by(2).unwrap();
    assert!(c.end_transaction("tx1".to_string(), Ok(())).is_ok());
    assert_eq!(c.get_value(), 3);

    c.begin_transaction().unwrap();
    c.increase_by(100).unwrap();
    let r = c.end_transaction("tx2".to_string(), Err("failed".to_string()));
    assert_eq!(r, Err(DatatypeError::FailedTransaction(String::new())));
    assert_eq!(c.get_value(), 3);
    let buffered = c.datatype.mutable.push_buffer.iter();
    assert_eq!(buffered.len(), 1);
    assert_eq!(buffered[0].iter().len(), 2);
    assert_eq!(buffered[0].tag, Some("tx1".to_string()));
}

#[test]
fn can_use_transaction() {
    let mut conn = LocalConnectivity::new(false);
    let mut counter = counter_on(&mut conn, "c", DatatypeState::DueToCreate);
    counter.begin_transaction().unwrap();
    counter.increase_by(1).unwrap();
    counter.increase_by(2).unwrap();
    let result1 = counter.end_transaction("success".to_string(), Ok(()));
    assert!(result1.is_ok());
    assert_eq!(3, counter.get_value());

    counter.begin_transaction().unwrap();
    counter.increase_by(11).unwrap();
    counter.increase_by(22).unwrap();
    let result2 = counter.end_transaction("failure".to_string(), Err("failed".to_string()));
    assert!(result2.is_err());
    assert_eq!(3, counter.get_value());
}

#[test]
fn can_use_counter_operations() {
    let mut conn = LocalConnectivity::new(false);
    let mut counter = counter_on(&mut conn, "c", DatatypeState::DueToCreate);
    assert_eq!(1, counter.increase().unwrap());
    assert_eq!(11, counter.increase_by(10).unwrap());
    assert_eq!(11, counter.get_value());
}

#[test]
fn can_call_public_blanket_trait_methods() {
    let mut conn = LocalConnectivity::new(false);
    let counter = counter_on(&mut conn, "key-1", DatatypeState::DueToCreate);
    assert_eq!(counter.get_type(), DataType::Counter);
    assert_eq!(counter.get_key(), "key-1");
    assert_eq!(counter.get_state(), DatatypeState::default());
}

#[test]
fn readonly_rejection() {
    let mut conn = LocalConnectivity::new(false);
    let attr = attr_of("c", &Cuid::new(), true);
    conn.register(&attr);
    let mut c = Counter::new(attr, DatatypeState::DueToCreate);
    assert_eq!(c.increase(), Err(DatatypeError::FailedToWrite(String::new())));
    assert_eq!(c.begin_transaction(), Err(DatatypeError::FailedToWrite(String::new())));
    assert_eq!(c.datatype.mutable.push_buffer.len(), 0);
    assert_eq!(c.get_value(), 0);
}

#[test]
fn readonly_client_adds_nothing_to_the_history() {
    let mut conn = LocalConnectivity::new(false);
    let mut a = counter_on(&mut conn, "c", DatatypeState::DueToCreate);
    a.increase().unwrap();
    a.sync(&mut conn).unwrap();
    let attr = attr_of("c", &Cuid::new(), true);
    let mut pushed = pack_of(&attr, DatatypeState::Subscribed);
    let mut op_id = OperationId::new_with_cuid(&attr.cuid);
    let mut tx = Transaction::new(&mut op_id);
    tx.push_operation(syncyam::operations::Operation::new_counter_increase(5));
    pushed.transactions.push(tx);
    conn.push_and_pull(&pushed).unwrap();
    let mut creating = pack_of(&attr, DatatypeState::DueToCreate);
    creating.duid = a.get_duid().clone();
    let pulled = conn.push_and_pull(&creating).unwrap();
    assert!(pulled.error.is_some());
    assert_eq!(conn.servers[0].1.history.len(), 1);
}

#[test]
fn duplicate_create() {
    let mut conn = LocalConnectivity::new(false);
    let attr = attr_of("c", &Cuid::new(), false);
    conn.register(&attr);
    let mut m = syncyam::mutable::MutableDatatype::new(attr, DatatypeState::DueToCreate);
    m.execute_local_operation(syncyam::operations::Operation::new_counter_increase(1)).unwrap();
    m.end_transaction(None, true).unwrap();
    let pushed = m.create_push_pull_pack().unwrap();
    let first = conn.push_and_pull(&pushed).unwrap();
    assert!(first.error.is_none());
    assert!(conn.servers[0].1.created);
    let len = conn.servers[0].1.history.len();
    let second = conn.push_and_pull(&pushed).unwrap();
    assert!(second.error.is_none());
    assert!(conn.servers[0].1.created);
    assert_eq!(conn.servers[0].1.history.len(), len);
    assert_eq!(len, 1);
}

#[test]
fn invalid_create() {
    let mut conn = LocalConnectivity::new(false);
    let mut a = counter_on(&mut conn, "c", DatatypeState::DueToCreate);
    a.increase().unwrap();
    a.sync(&mut conn).unwrap();
    let mut c = counter_on(&mut conn, "c", DatatypeState::DueToCreate);
    let pushed = c.datatype.mutable.create_push_pull_pack().unwrap();
    let pulled = conn.push_and_pull(&pushed).unwrap();
    assert_eq!(
        pulled.error,
        Some(ServerPushPullError::FailedToCreate("already exist".to_string()))
    );
    assert!(c.sync(&mut conn).is_ok());
    assert_eq!(c.get_state(), DatatypeState::DueToCreate);
}

#[test]
fn checkpoints_never_decrease() {
    let mut conn = LocalConnectivity::new(false);
    let mut a = counter_on(&mut conn, "c", DatatypeState::DueToCreate);
    let mut last = (0, 0);
    for i in 0..5 {
        a.increase_by(i).unwrap();
        a.sync(&mut conn).unwrap();
        let now = (a.get_server_version(), a.get_synced_client_version());
        assert!(now.0 >= last.0 && now.1 >= last.1);
        last = now;
    }
    assert_eq!(last, (5, 5));
}

#[test]
fn unknown_resource_is_not_found() {
    let mut conn = LocalConnectivity::new(false);
    let attr = attr_of("nowhere", &Cuid::new(), false);
    let pushed = pack_of(&attr, DatatypeState::DueToCreate);
    assert_eq!(
        conn.push_and_pull(&pushed).unwrap_err(),
        syncyam::errors::ConnectivityError::ResourceNotFound
    );
}

#[test]
fn subscribing_to_a_missing_datatype_fails() {
    let mut conn = LocalConnectivity::new(false);
    let mut b = counter_on(&mut conn, "c", DatatypeState::DueToSubscribe);
    let pushed = b.datatype.mutable.create_push_pull_pack().unwrap();
    let pulled = conn.push_and_pull(&pushed).unwrap();
    match pulled.error {
        Some(ServerPushPullError::FailedToSubscribe(m)) => {
            assert_eq!(m, "Counter 'collection/c' not exists")
        }
        _ => panic!("expected FailedToSubscribe"),
    }
    assert!(b.sync(&mut conn).is_ok());
    assert_eq!(b.get_state(), DatatypeState::DueToSubscribe);
}

#[test]
fn illegal_push_request_disables_the_datatype() {
    let mut null_connectivity = NullConnectivity::new();
    let attr = attr_of("c", &Cuid::new(), true);
    let mut c = Counter::new(attr, DatatypeState::DueToCreate);
    let r = c.sync(&mut null_connectivity);
    assert!(r.is_err());
    assert_eq!(c.get_state(), DatatypeState::Disabled);
    let again = c.datatype.push_pull(&mut null_connectivity);
    assert!(matches!(
        again,
        Err(syncyam::errors::ClientPushPullError::FailedAndAbort(_))
    ));
}
