use syncyam::crdt::{Crdt, ReturnType};
use syncyam::errors::DatatypeError;
use syncyam::mutable::{Attribute, MutableDatatype, Rollback};
use syncyam::operations::{
    CounterIncreaseBody, Operation, OperationBody, OperationId, Transaction,
    TRANSACTION_CONSTANT_SIZE,
};
use syncyam::push_buffer::DatatypeOption;
use syncyam::types::{Cuid, DataType, DatatypeState};

fn counter_attr(key: &str) -> Attribute {
    Attribute::new(
        key,
        DataType::Counter,
        "collection",
        "alias",
        &Cuid::new(),
        DatatypeOption::default(),
        false,
    )
}

#[test]
fn can_display_and_debug() {
    let body = OperationBody::CounterIncrease(CounterIncreaseBody::new(123));
    println!("{} vs. {body:?}", body.to_string());
    let s = body.to_string();
    assert!(s.starts_with("CounterIncrease(") && s.ends_with(')'));
    assert_eq!(s, "CounterIncrease(delta=123)");
}

#[test]
fn can_measure_body_size() {
    let body = OperationBody::CounterIncrease(CounterIncreaseBody::new(123));
    assert_eq!(body.size(), size_of::<i64>() as u64);
}

#[test]
fn can_debug_and_display_transaction() {
    let mut op_id = OperationId::new();
    let mut tx = Transaction::new(&mut op_id);
    println!("{}", tx.to_string());
    tx.set_tag(Some("tag1".to_string()));
    tx.set_event(true);
    println!("{}", tx.to_string());
    let mut op1 = Operation::new_counter_increase(1);
    op1.lamport = 1;
    let mut op2 = Operation::new_counter_increase(2);
    op2.lamport = 2;
    tx.operations.push(op1);
    println!("{tx:?}");
    tx.set_event(false);
    tx.operations.push(op2);
    println!("{}", tx.to_string());

    let op_id_tx = tx.get_op_id();
    println!("{op_id_tx:?}");
    assert_eq!(op_id, op_id_tx);
}

#[test]
fn can_measure_transaction_size() {
    let mut op_id = OperationId::new();
    let mut tx = Transaction::new(&mut op_id);
    assert_eq!(tx.size(), TRANSACTION_CONSTANT_SIZE);
    tx.set_tag(Some("1234567890".to_string()));
    assert_eq!(tx.size(), TRANSACTION_CONSTANT_SIZE + 10);
    let op = Operation::new_counter_increase(1);
    tx.push_operation(op);
    assert_eq!(tx.size(), TRANSACTION_CONSTANT_SIZE + 10 + op.size());
    tx.push_operation(op);
    assert_eq!(tx.size(), TRANSACTION_CONSTANT_SIZE + 10 + op.size() * 2);
}

#[test]
fn next_cseq_advances_cseq_and_lamport() {
    let mut op_id = OperationId::new();
    assert_eq!(op_id.next_cseq(), 1);
    assert_eq!(op_id.lamport, 1);
    assert_eq!(op_id.next_lamport(), 2);
    op_id.prev_lamport();
    op_id.prev_cseq();
    assert_eq!((op_id.cseq, op_id.lamport), (0, 0));
}

#[test]
fn can_debug_rollback() {
    let rollback = Rollback::new(
        Crdt::new(DataType::Counter),
        DatatypeState::default(),
        OperationId::new(),
    );
    println!("{:?}", rollback);
}

#[test]
fn counter_crdt_wraps_and_rejects_snapshots_as_local_operations() {
    let mut crdt = Crdt::with_value(i64::MAX);
    let r = crdt.execute_local_operation(&Operation::new_counter_increase(1));
    assert_eq!(r.unwrap(), ReturnType::Counter(i64::MIN));
    let r = crdt.execute_local_operation(&Operation::new_counter_snapshot(5));
    assert_eq!(r.unwrap_err(), DatatypeError::FailedToExecuteOperation(String::new()));
    assert_eq!(crdt.get_value(), i64::MIN);
    crdt.execute_remote_operation(&Operation::new_counter_snapshot(5));
    assert_eq!(crdt.get_value(), 5);
}

#[test]
fn local_operations_open_one_transaction() {
    let mut m = MutableDatatype::new(counter_attr("k"), DatatypeState::DueToCreate);
    assert!(m.execute_local_operation(Operation::new_counter_increase(3)).is_ok());
    assert!(m.execute_local_operation(Operation::new_counter_increase(4)).is_ok());
    let tx = m.transaction.as_ref().unwrap();
    assert_eq!(tx.cseq(), 1);
    assert_eq!(tx.iter().len(), 2);
    assert_eq!(tx.iter()[0].lamport, 2);
    assert_eq!(tx.iter()[1].lamport, 3);
    assert_eq!(m.crdt.get_value(), 7);
    assert_eq!(m.end_transaction(Some("t".to_string()), true), Ok(true));
    assert_eq!(m.push_buffer.len(), 1);
    assert_eq!(m.push_buffer.iter()[0].tag, Some("t".to_string()));
}

#[test]
fn a_rejected_operation_takes_its_ids_back() {
    let mut m = MutableDatatype::new(counter_attr("k"), DatatypeState::DueToCreate);
    let r = m.execute_local_operation(Operation::new_counter_snapshot(9));
    assert_eq!(r.unwrap_err(), DatatypeError::FailedToExecuteOperation(String::new()));
    assert!(m.transaction.is_none());
    assert_eq!((m.op_id.cseq, m.op_id.lamport), (0, 0));
    assert_eq!(m.crdt.get_value(), 0);
}

#[test]
fn rollback_restores_the_committed_value_and_cseq() {
    let mut m = MutableDatatype::new(counter_attr("k"), DatatypeState::DueToCreate);
    m.execute_local_operation(Operation::new_counter_increase(1)).unwrap();
    m.execute_local_operation(Operation::new_counter_increase(2)).unwrap();
    assert_eq!(m.end_transaction(None, true), Ok(true));
    m.execute_local_operation(Operation::new_counter_increase(100)).unwrap();
    assert_eq!(m.crdt.get_value(), 103);
    assert_eq!(m.end_transaction(None, false), Ok(false));
    assert_eq!(m.crdt.get_value(), 3);
    assert_eq!(m.op_id.cseq, 1);
    assert!(m.transaction.is_none());
    assert_eq!(m.push_buffer.len(), 1);
    m.execute_local_operation(Operation::new_counter_increase(5)).unwrap();
    assert_eq!(m.transaction.as_ref().unwrap().cseq(), 2);
}

#[test]
fn cseqs_of_commits_count_up_from_one() {
    let mut m = MutableDatatype::new(counter_attr("k"), DatatypeState::DueToCreate);
    for i in 0..5 {
        m.execute_local_operation(Operation::new_counter_increase(i)).unwrap();
        m.end_transaction(None, true).unwrap();
    }
    let cseqs: Vec<u64> = m.push_buffer.iter().iter().map(|t| t.cseq()).collect();
    assert_eq!(cseqs, vec![1, 2, 3, 4, 5]);
}

#[test]
fn a_full_push_buffer_rolls_the_commit_back() {
    let mut attr = counter_attr("k");
    attr.option = DatatypeOption::new(0);
    let mut m = MutableDatatype::new(attr, DatatypeState::DueToCreate);
    let big = "x".repeat(1_000_000);
    m.execute_local_operation(Operation::new_counter_increase(1)).unwrap();
    assert_eq!(
        m.end_transaction(Some(big), true),
        Err(syncyam::errors::PushBufferError::ExceedMaxMemSize)
    );
    assert_eq!(m.crdt.get_value(), 0);
    assert_eq!(m.push_buffer.len(), 0);
    assert_eq!(m.op_id.cseq, 0);
}

#[test]
fn renders_a_transaction() {
    let mut op_id = OperationId::new();
    let mut tx = Transaction::new(&mut op_id);
    let cuid = op_id.cuid.to_string();
    assert_eq!(tx.to_string(), format!("TX( {cuid}:1:0:[])"));
    let mut op = Operation::new_counter_increase(1);
    op.lamport = 4;
    tx.push_operation(op);
    op.lamport = 9;
    tx.push_operation(op);
    tx.set_tag(Some("t".to_string()));
    tx.set_event(true);
    assert_eq!(tx.to_string(), format!("TX(\u{1f516}:t \u{2705} {cuid}:1:0:[4-9])"));
}
