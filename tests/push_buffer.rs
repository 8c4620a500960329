use syncyam::errors::PushBufferError;
use syncyam::operations::{OperationId, Transaction};
use syncyam::push_buffer::{
    DatatypeOption, MemoryPushBuffer, DEFAULT_MAX_MEM_SIZE_OF_PUSH_BUFFER,
    LOWER_MAX_MEM_SIZE_OF_PUSH_BUFFER, UPPER_MAX_MEM_SIZE_OF_PUSH_BUFFER,
};

#[test]
fn can_use_datatype_option() {
    let option = DatatypeOption::new(LOWER_MAX_MEM_SIZE_OF_PUSH_BUFFER - 100);
    println!("{option:?}");
    assert_eq!(
        option.max_mem_size_of_push_buffer,
        LOWER_MAX_MEM_SIZE_OF_PUSH_BUFFER
    );
}

#[test]
fn datatype_option_clamps_to_both_bounds() {
    assert_eq!(
        DatatypeOption::new(UPPER_MAX_MEM_SIZE_OF_PUSH_BUFFER + 1).max_mem_size_of_push_buffer,
        UPPER_MAX_MEM_SIZE_OF_PUSH_BUFFER
    );
    assert_eq!(
        DatatypeOption::new(20_000_000).max_mem_size_of_push_buffer,
        20_000_000
    );
    assert_eq!(
        DatatypeOption::default().max_mem_size_of_push_buffer,
        DEFAULT_MAX_MEM_SIZE_OF_PUSH_BUFFER
    );
    assert_eq!(DEFAULT_MAX_MEM_SIZE_OF_PUSH_BUFFER, 100_000_000);
}

#[test]
fn can_enque_from_push_buffer() {
    const MAX_SIZE: u64 = 1_000_000;
    let option = DatatypeOption::new(MAX_SIZE);
    let mut push_buffer = MemoryPushBuffer::new(option);
    assert_eq!(push_buffer.mem_size, 0);
    assert_eq!(push_buffer.first_cseq, 0);
    assert_eq!(push_buffer.last_cseq, 0);

    let mut op_id = OperationId::new();
    let tx = Transaction::new(&mut op_id);
    let tx_size = tx.size();
    assert!(push_buffer.enque(tx).is_ok());
    assert_eq!(push_buffer.mem_size, tx_size);
    assert_eq!(push_buffer.first_cseq, 1);
    assert_eq!(push_buffer.last_cseq, 1);

    for _ in 0..9 {
        let tx = Transaction::new(&mut op_id);
        assert!(push_buffer.enque(tx).is_ok());
    }
    assert_eq!(push_buffer.mem_size, tx_size * 10);
    assert_eq!(push_buffer.first_cseq, 1);
    assert_eq!(push_buffer.last_cseq, 10);

    let mut op_id2 = OperationId::new();
    let tx_not_sequential = Transaction::new(&mut op_id2);
    let result = push_buffer.enque(tx_not_sequential);
    assert_eq!(result.unwrap_err(), PushBufferError::NonSequentialCseq);

    loop {
        let tx = Transaction::new(&mut op_id);
        if push_buffer.mem_size + tx.size() > MAX_SIZE {
            assert_eq!(
                push_buffer.enque(tx).unwrap_err(),
                PushBufferError::ExceedMaxMemSize
            );
            break;
        }
        assert!(push_buffer.enque(tx).is_ok());
    }
}

#[test]
fn can_get_after_and_deque_from_push_buffer() {
    const MAX_PUSH_SIZE: u64 = 1_000_000;

    let option = DatatypeOption::default();
    let mut push_buffer = MemoryPushBuffer::new(option);
    let mut op_id = OperationId::new();
    let tx = Transaction::new(&mut op_id);
    let tx_size = tx.size();
    assert!(push_buffer.enque(tx).is_ok());
    for _ in 1..100 {
        let tx = Transaction::new(&mut op_id);
        assert!(push_buffer.enque(tx).is_ok());
    }
    let (push_transactions, total) = push_buffer.get_after(50, MAX_PUSH_SIZE).unwrap();
    println!("push_buffer: {}", push_buffer.to_string());
    assert_eq!(push_buffer.mem_size, tx_size * 100);
    assert_eq!(push_buffer.first_cseq, 1);
    assert_eq!(push_buffer.last_cseq, 100);
    assert_eq!(push_transactions.len(), 51);
    assert_eq!(push_transactions.first().unwrap().cseq(), 50);
    assert_eq!(total, tx_size * 51);

    let (push_transactions, _) = push_buffer.get_after(50, tx_size * 10).unwrap();
    assert_eq!(push_transactions.len(), 10);
    assert_eq!(push_transactions.first().unwrap().cseq(), 50);

    // a cseq past the last one yields nothing
    let (beyond, beyond_size) = push_buffer.get_after(101, MAX_PUSH_SIZE).unwrap();
    assert!(beyond.is_empty());
    assert_eq!(beyond_size, 0);
    let result = push_buffer.get_after(0, MAX_PUSH_SIZE);
    assert_eq!(result.unwrap_err(), PushBufferError::FailToGetAfter);

    assert_eq!(50, push_buffer.deque(50).len());
    println!("push_buffer: {}", push_buffer.to_string());
    assert_eq!(0, push_buffer.deque(0).len());
    assert_eq!(50, push_buffer.deque(101).len());
    println!("push_buffer: {}", push_buffer.to_string());
    assert_eq!(
        push_buffer.to_string(),
        "PushBuffer(mem_size: 0, first_cseq: 0, last_cseq: 0, tx_count: 0)"
    );

    assert_eq!(push_buffer.mem_size, 0);
    assert_eq!(push_buffer.first_cseq, 0);
    assert_eq!(push_buffer.last_cseq, 0);
}

#[test]
fn get_after_before_first_cseq_fails() {
    let mut push_buffer = MemoryPushBuffer::new(DatatypeOption::default());
    let mut op_id = OperationId::new();
    for _ in 0..5 {
        assert!(push_buffer.enque(Transaction::new(&mut op_id)).is_ok());
    }
    assert_eq!(push_buffer.deque(2).len(), 2);
    assert_eq!(push_buffer.first_cseq, 3);
    assert_eq!(push_buffer.last_cseq, 5);
    assert_eq!(
        push_buffer.get_after(2, 1_000_000).unwrap_err(),
        PushBufferError::FailToGetAfter
    );
    let (txs, _) = push_buffer.get_after(3, 1_000_000).unwrap();
    let cseqs: Vec<u64> = txs.iter().map(|t| t.cseq()).collect();
    assert_eq!(cseqs, vec![3, 4, 5]);
}

#[test]
fn contiguity_holds_after_enque_and_deque() {
    let mut push_buffer = MemoryPushBuffer::new(DatatypeOption::default());
    let mut op_id = OperationId::new();
    for _ in 0..8 {
        assert!(push_buffer.enque(Transaction::new(&mut op_id)).is_ok());
    }
    push_buffer.deque(3);
    let cseqs: Vec<u64> = push_buffer.iter().iter().map(|t| t.cseq()).collect();
    assert_eq!(cseqs, vec![4, 5, 6, 7, 8]);
    assert_eq!(push_buffer.first_cseq, 4);
    assert_eq!(push_buffer.last_cseq, 8);
    let sum: u64 = push_buffer.iter().iter().map(|t| t.size()).sum();
    assert_eq!(push_buffer.mem_size, sum);
}

#[test]
fn an_empty_buffer_takes_any_cseq() {
    let mut push_buffer = MemoryPushBuffer::new(DatatypeOption::default());
    let op_id = OperationId::new();
    let tx = Transaction {
        cuid: op_id.cuid.clone(),
        cseq: 0,
        sseq: 0,
        tag: None,
        event: false,
        operations: vec![],
    };
    assert!(push_buffer.enque(tx).is_ok());
    assert_eq!((push_buffer.first_cseq, push_buffer.last_cseq), (0, 0));
    assert_eq!(push_buffer.len(), 1);
    let next = Transaction {
        cuid: op_id.cuid.clone(),
        cseq: 2,
        sseq: 0,
        tag: None,
        event: false,
        operations: vec![],
    };
    assert_eq!(push_buffer.enque(next).unwrap_err(), PushBufferError::NonSequentialCseq);
}
