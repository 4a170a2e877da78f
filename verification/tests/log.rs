use expr::datum::Datum;
use expr::log_file::{encode_record, last_seqno, read_metadata, read_records, LogError, SeqNoRange};
use expr::row::Row;
use expr::session::{
    check_portal_name, new_portal_name, DuplicateCursor, GlobalId, OpsError, Transaction, TransactionOps,
    TransactionStatus, WriteOp,
};

fn written(records: Vec<(&[u8], u64)>) -> Vec<u8> {
    let mut out = Vec::new();
    for (data, seqno) in records {
        out.extend(encode_record(&data.to_vec(), seqno));
    }
    out
}

#[test]
fn a_record_is_framed_by_its_length_and_its_number() {
    assert_eq!(
        encode_record(&b"foo".to_vec(), 258),
        vec![3, 0, 0, 0, 0, 0, 0, 0, b'f', b'o', b'o', 2, 1, 0, 0, 0, 0, 0, 0]
    );
    assert_eq!(encode_record(&vec![], 0), vec![0u8; 16]);
}

#[test]
fn records_are_read_as_they_were_written() {
    let file = written(vec![(b"a", 0), (b"", 1), (b"ccc", 2)]);
    assert_eq!(
        read_records(&file, 0, 3),
        Ok(vec![(0, b"a".to_vec()), (1, vec![]), (2, b"ccc".to_vec())])
    );
    assert_eq!(read_records(&file, 2, 3), Ok(vec![(2, b"ccc".to_vec())]));
    assert_eq!(read_records(&file, 3, 3), Ok(vec![]));
    assert_eq!(read_records(&file, 0, 2), Err(LogError::InvalidSeqNo { seqno: 2, start: 0, end: 2 }));
    assert_eq!(read_records(&vec![], 0, 0), Ok(vec![]));
    assert_eq!(read_records(&file[..file.len() - 1].to_vec(), 0, 3), Err(LogError::UnexpectedEof));
    assert_eq!(read_records(&file[..5].to_vec(), 0, 3), Err(LogError::UnexpectedEof));
    assert_eq!(read_records(&vec![255u8; 24], 0, 3), Err(LogError::UnexpectedEof));
}

#[test]
fn the_range_of_a_log() {
    assert_eq!(read_metadata(&vec![]), Ok(None));
    assert_eq!(read_metadata(&7u64.to_le_bytes().to_vec()), Ok(Some(7)));
    assert_eq!(read_metadata(&vec![1, 2, 3]), Err(LogError::BadMetadata(3)));
    let file = written(vec![(b"a", 0), (b"b", 1)]);
    assert_eq!(last_seqno(&file), Ok(Some(1)));
    assert_eq!(last_seqno(&vec![]), Ok(None));
    assert_eq!(last_seqno(&vec![1]), Err(LogError::UnexpectedEof));
    let range = SeqNoRange::open(0, Some(1)).unwrap();
    assert_eq!(range, SeqNoRange { start: 0, end: 2 });
    assert_eq!(SeqNoRange::open(0, None), Ok(SeqNoRange { start: 0, end: 0 }));
    assert_eq!(SeqNoRange::open(3, Some(1)), Err(LogError::InvalidRange { start: 3, end: 2 }));
    let (seqno, after) = range.write();
    assert_eq!(seqno, 2);
    assert_eq!(after, SeqNoRange { start: 0, end: 3 });
    assert_eq!(after.truncate(2), Ok(SeqNoRange { start: 2, end: 3 }));
    assert_eq!(after.truncate(3), Ok(SeqNoRange { start: 3, end: 3 }));
    assert_eq!(after.truncate(0), Err(LogError::InvalidTruncation { upper: 0, start: 0, end: 3 }));
    assert_eq!(after.truncate(4), Err(LogError::InvalidTruncation { upper: 4, start: 0, end: 3 }));
}

fn write_to(table: u64) -> WriteOp {
    WriteOp { id: GlobalId::User(table), rows: vec![(Row::pack(vec![Datum::Int64(1)]), 1)] }
}

#[test]
fn reads_and_writes_do_not_mix() {
    let started = TransactionStatus::Default.start_transaction_implicit(5, 1);
    assert_eq!(started, TransactionStatus::Started(Transaction { wall_time: 5, ops: TransactionOps::Nothing }));
    assert!(started.is_implicit());
    let (reading, r) = started.add_transaction_ops(TransactionOps::Peeks(9));
    assert_eq!(r, Ok(()));
    let (reading, r) = reading.add_transaction_ops(TransactionOps::Peeks(9));
    assert_eq!(r, Ok(()));
    let (reading, r) = reading.add_transaction_ops(TransactionOps::Writes(vec![write_to(1)]));
    assert_eq!(r, Err(OpsError::ReadOnlyTransaction));
    assert_eq!(reading.into_ops(), Some(TransactionOps::Peeks(9)));

    let writing = TransactionStatus::Default.start_transaction(5);
    assert!(!writing.is_implicit());
    let (writing, r) = writing.add_transaction_ops(TransactionOps::Writes(vec![write_to(1)]));
    assert_eq!(r, Ok(()));
    let (writing, r) = writing.add_transaction_ops(TransactionOps::Writes(vec![write_to(2)]));
    assert_eq!(r, Ok(()));
    let (writing, r) = writing.add_transaction_ops(TransactionOps::Tail);
    assert_eq!(r, Err(OpsError::WriteOnlyTransaction));
    assert_eq!(writing.inner().map(|t| t.wall_time), Some(5));
    assert_eq!(writing.into_ops(), Some(TransactionOps::Writes(vec![write_to(1), write_to(2)])));

    let tailing = TransactionStatus::Default.start_transaction_implicit(5, 3);
    let (tailing, _) = tailing.add_transaction_ops(TransactionOps::Tail);
    let (tailing, r) = tailing.add_transaction_ops(TransactionOps::Tail);
    assert_eq!(r, Err(OpsError::TailOnlyTransaction));
    let explicit = tailing.start_transaction(8);
    assert_eq!(explicit, TransactionStatus::InTransaction(Transaction { wall_time: 5, ops: TransactionOps::Tail }));
    let failed = explicit.fail_transaction();
    assert!(matches!(failed, TransactionStatus::Failed(_)));
    assert_eq!(failed.into_ops(), None);
    assert_eq!(TransactionStatus::Default.start_transaction_implicit(5, 0), TransactionStatus::Default);
    assert_eq!(TransactionStatus::Default.into_ops(), None);
}

#[test]
fn names_of_portals() {
    let none: Vec<String> = vec![];
    assert_eq!(new_portal_name(&none), Some("<unnamed portal 0>".to_string()));
    let taken = vec!["<unnamed portal 1>".to_string(), "<unnamed portal 0>".to_string(), "mine".to_string()];
    assert_eq!(new_portal_name(&taken), Some("<unnamed portal 2>".to_string()));
    assert_eq!(check_portal_name(&taken, "mine"), Err(DuplicateCursor("mine".to_string())));
    assert_eq!(check_portal_name(&taken, "yours"), Ok(()));
    assert_eq!(check_portal_name(&vec!["".to_string()], ""), Ok(()));
    let reading = TransactionStatus::Default.start_transaction(1);
    assert_eq!(reading.peek_timestamp(), None);
    let (reading, _) = reading.add_transaction_ops(TransactionOps::Peeks(7));
    assert_eq!(reading.peek_timestamp(), Some(7));
}
