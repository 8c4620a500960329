use syncyam::clients::{ClientCommon, DatatypeBuilder, DatatypeManager, DatatypeSet};
use syncyam::connectivity::LocalConnectivity;
use syncyam::errors::{ClientError, DatatypeError};
use syncyam::push_buffer::DatatypeOption;
use syncyam::types::{DataType, DatatypeState};

#[test]
fn can_build_client() {
    let client = ClientCommon::new("collection1", "alias1").unwrap();
    assert_eq!(client.collection, "collection1");
    assert_eq!(client.alias, "alias1");
}

#[test]
fn an_invalid_collection_name_is_refused() {
    let r = ClientCommon::new("system.collection", "alias1");
    assert_eq!(
        r.unwrap_err(),
        ClientError::InvalidCollectionName(String::new())
    );
}

#[test]
fn a_live_key_is_refused() {
    let common = ClientCommon::new("collection", "manager").unwrap();
    let mut dm = DatatypeManager::new();
    assert!(dm.get_datatype("k1").is_none());
    let opt = DatatypeOption::default();
    let dt1 = dm
        .subscribe_or_create_datatype("k1", DataType::Counter, DatatypeState::DueToCreate, opt, false, &common)
        .unwrap();
    assert_eq!(dt1.get_type(), DataType::Counter);
    assert_eq!(dt1.get_state(), DatatypeState::DueToCreate);
    assert_eq!(dm.get_datatype("k1"), Some(0));
    let again = dm.subscribe_or_create_datatype(
        "k1",
        DataType::Counter,
        DatatypeState::DueToSubscribeOrCreate,
        opt,
        false,
        &common,
    );
    assert_eq!(
        again.err().unwrap(),
        ClientError::FailedToSubscribeOrCreateDatatype(String::new())
    );
    assert!(dm
        .subscribe_or_create_datatype("k2", DataType::Counter, DatatypeState::DueToSubscribe, opt, true, &common)
        .is_ok());
    assert_eq!(dm.keys.len(), 2);
}

#[test]
fn can_show_how_to_use_datatype_builder() {
    let client = ClientCommon::new("collection", "builder").unwrap();
    let builder = DatatypeBuilder::new("counter", DatatypeState::DueToSubscribe)
        .with_max_memory_size_of_push_buffer(20_000_000);
    assert_eq!(builder.option.max_mem_size_of_push_buffer, 20_000_000);
    let _counter = builder.build_counter(&client);
}

#[test]
fn can_create_readonly_counter() {
    let client = ClientCommon::new("collection", "readonly").unwrap();
    let mut counter = DatatypeBuilder::new("counter", DatatypeState::DueToSubscribe)
        .with_readonly()
        .build_counter(&client);

    // Read operations should work
    assert_eq!(counter.get_value(), 0);

    // Write operations should fail
    assert_eq!(
        counter.increase().unwrap_err(),
        DatatypeError::FailedToWrite("".into())
    );

    // Transaction should fail
    let tx_result = counter.begin_transaction();
    assert_eq!(
        tx_result.unwrap_err(),
        DatatypeError::FailedToWrite("".into())
    );
    assert_eq!(counter.get_value(), 0);
}

#[test]
fn can_check_read_only_state() {
    let client = ClientCommon::new("collection", "states").unwrap();

    let mut counter = DatatypeBuilder::new("create_dt", DatatypeState::DueToCreate).build_counter(&client);
    assert_eq!(counter.get_state(), DatatypeState::DueToCreate);
    assert!(counter.increase().is_ok());

    let mut counter =
        DatatypeBuilder::new("subscribe_dt", DatatypeState::DueToSubscribe).build_counter(&client);
    assert_eq!(counter.get_state(), DatatypeState::DueToSubscribe);
    assert_eq!(
        counter.increase().unwrap_err(),
        DatatypeError::FailedToWrite("".into())
    );

    let mut counter = DatatypeBuilder::new("subscribe_or_create_dt", DatatypeState::DueToSubscribeOrCreate)
        .build_counter(&client);
    assert_eq!(counter.get_state(), DatatypeState::DueToSubscribeOrCreate);
    assert!(counter.increase().is_ok());
}

#[test]
fn can_build_counter() {
    let client = ClientCommon::new("tests", "can_build_counter").unwrap();
    let mut counter = DatatypeBuilder::new("counter-1", DatatypeState::DueToCreate)
        .with_max_memory_size_of_push_buffer(10_000_000)
        .build_counter(&client);
    counter.increase_by(42).unwrap();
    assert_eq!("counter-1", counter.get_key());
    assert_eq!(DataType::Counter, counter.get_type());
    assert!(matches!(
        counter.get_state(),
        DatatypeState::DueToCreate | DatatypeState::Subscribed
    ));
    assert_eq!(counter.get_value(), 42);
}

#[test]
fn can_check_versions() {
    let client = ClientCommon::new("tests", "can_check_versions").unwrap();
    let mut conn = LocalConnectivity::new(true);
    let mut counter = DatatypeBuilder::new("versions", DatatypeState::DueToCreate).build_counter(&client);
    conn.register(&counter.datatype.mutable.attr);
    assert_eq!(counter.get_client_version(), 0);
    assert_eq!(counter.get_server_version(), 0);
    counter.increase_by(1).unwrap();
    counter.increase().unwrap();
    counter.datatype.push_if_needed(&mut conn);
    assert_eq!(counter.get_state(), DatatypeState::Subscribed);
    assert_eq!(counter.get_server_version(), 2);
    assert_eq!(counter.get_server_version(), counter.get_client_version());
    assert_eq!(
        counter.get_client_version(),
        counter.get_synced_client_version()
    );

    counter.increase_by(2).unwrap();
    counter.increase_by(3).unwrap();
    counter.datatype.push_if_needed(&mut conn);
    assert_eq!(counter.get_server_version(), 4);
    counter.datatype.push_if_needed(&mut conn);
    assert_eq!(counter.get_server_version(), 4);
}

#[test]
fn datatype_set_reports_type_and_state() {
    let client = ClientCommon::new("collection", "set").unwrap();
    let counter = DatatypeBuilder::new("k1", DatatypeState::DueToCreate).build_counter(&client);
    let ds = DatatypeSet::Counter(counter);
    assert_eq!(ds.get_type(), DataType::Counter);
    assert_eq!(ds.get_state(), DatatypeState::DueToCreate);
}
