use ckb_rocksdb::column_family::ColumnFamily;
use ckb_rocksdb::db::DB;
use ckb_rocksdb::db_iterator::{Direction, IteratorMode, Position};
use ckb_rocksdb::db_options::{FlushOptions, ReadOptions, WriteOptions};
use ckb_rocksdb::engine::{ffi_try, Call, Reply};
use ckb_rocksdb::ffi_util::{error_message, find_nul, to_cpath};
use ckb_rocksdb::handle::{CfPtr, ConstHandle, DbPtr, Handle, IterPtr, SnapshotPtr, TxnPtr};
use ckb_rocksdb::open_raw::OpenRaw;
use ckb_rocksdb::ops::get::read_value;
use ckb_rocksdb::ops::setoptions::build_coptions;
use ckb_rocksdb::ops::{
    DeleteCF, DeleteFileInRange, DeleteFileInRangeCF, Flush, FlushCF, GetCF, GetColumnFamily,
    Iterate, IterateCF, MergeCF, PutCF, SetOptions,
};
use ckb_rocksdb::optimistic_transaction::OptimisticTransaction;
use ckb_rocksdb::text::{push_decimal, str_eq};

fn db() -> DB {
    DB::build("p".to_string(), (), DbPtr(7), vec![("A".to_string(), CfPtr(0xa))]).unwrap()
}

fn family(db: &DB) -> &ColumnFamily {
    db.cf_handle("A").unwrap()
}

#[test]
fn flush_waits_by_default() {
    let db = db();
    assert_eq!(db.flush(), Call::Flush { db: DbPtr(7), flushopts: FlushOptions { wait: true } });
    let mut opts = FlushOptions::default();
    opts.set_wait(false);
    assert_eq!(db.flush_opt(&opts), Call::Flush { db: DbPtr(7), flushopts: FlushOptions { wait: false } });
}

#[test]
fn flush_cf_names_the_family() {
    let db = db();
    assert_eq!(
        db.flush_cf(family(&db)),
        Call::FlushCf { db: DbPtr(7), flushopts: FlushOptions { wait: true }, cf: CfPtr(0xa) }
    );
    let opts = FlushOptions { wait: false };
    assert_eq!(
        db.flush_cf_opt(family(&db), &opts),
        Call::FlushCf { db: DbPtr(7), flushopts: opts, cf: CfPtr(0xa) }
    );
}

#[test]
fn delete_file_in_range_goes_to_the_default_family_unless_one_is_named() {
    let db = db();
    assert_eq!(
        db.delete_file_in_range(b"a", b"m"),
        Call::DeleteFileInRange { db: DbPtr(7), start_key: b"a".to_vec(), limit_key: b"m".to_vec() }
    );
    assert_eq!(
        db.delete_file_in_range_cf(family(&db), b"a", b"m"),
        Call::DeleteFileInRangeCf {
            db: DbPtr(7),
            cf: CfPtr(0xa),
            start_key: b"a".to_vec(),
            limit_key: b"m".to_vec(),
        }
    );
    assert_eq!(
        db.delete_file_in_range_cf_full(None, b"", b"z"),
        Call::DeleteFileInRange { db: DbPtr(7), start_key: vec![], limit_key: b"z".to_vec() }
    );
    assert_eq!(
        db.delete_file_in_range_cf_full(Some(family(&db)), b"x", b"y"),
        Call::DeleteFileInRangeCf {
            db: DbPtr(7),
            cf: CfPtr(0xa),
            start_key: b"x".to_vec(),
            limit_key: b"y".to_vec(),
        }
    );
}

#[test]
fn set_options_carries_names_and_values_in_order() {
    let db = db();
    let call = db.set_options(&[("a", "1"), ("bb", "22")]).unwrap();
    assert_eq!(
        call,
        Call::SetOptions {
            db: DbPtr(7),
            names: vec![b"a".to_vec(), b"bb".to_vec()],
            values: vec![b"1".to_vec(), b"22".to_vec()],
        }
    );
    let call = db.set_options_cf(family(&db), &[("k", "v")]).unwrap();
    assert_eq!(
        call,
        Call::SetOptionsCf {
            db: DbPtr(7),
            cf: CfPtr(0xa),
            names: vec![b"k".to_vec()],
            values: vec![b"v".to_vec()],
        }
    );
    assert_eq!(
        db.set_options(&[]).unwrap(),
        Call::SetOptions { db: DbPtr(7), names: vec![], values: vec![] }
    );
}

#[test]
fn set_options_refuses_a_name_with_a_zero_byte() {
    let db = db();
    let err = db.set_options(&[("ok", "1"), ("ba\0d", "2")]).unwrap_err();
    assert_eq!(
        err.to_string(),
        "Invalid option name `nul byte found in provided data at position: 2`"
    );
}

#[test]
fn set_options_refuses_a_value_with_a_zero_byte() {
    let db = db();
    let err = db.set_options_cf(family(&db), &[("name", "0123456789ab\0")]).unwrap_err();
    assert_eq!(
        err.to_string(),
        "Invalid option value: `nul byte found in provided data at position: 12`"
    );
}

#[test]
fn build_coptions_complains_about_the_first_offender() {
    let err = build_coptions(&[("a", "\0"), ("\0", "b")]).unwrap_err();
    assert_eq!(
        err.to_string(),
        "Invalid option value: `nul byte found in provided data at position: 0`"
    );
    let err = build_coptions(&[("n\0", "v\0")]).unwrap_err();
    assert_eq!(
        err.to_string(),
        "Invalid option name `nul byte found in provided data at position: 1`"
    );
    let (names, values) = build_coptions(&[("x", "y")]).unwrap();
    assert_eq!(names, vec![b"x".to_vec()]);
    assert_eq!(values, vec![b"y".to_vec()]);
}

#[test]
fn get_goes_out_with_the_given_options_or_the_defaults() {
    let db = db();
    assert_eq!(
        db.get_cf_full(None, b"k", None),
        Call::Get { db: DbPtr(7), readopts: ReadOptions::default(), key: b"k".to_vec() }
    );
    let mut opts = ReadOptions::default();
    opts.set_prefix_same_as_start(true);
    assert_eq!(
        db.get_cf_full(Some(family(&db)), b"k", Some(&opts)),
        Call::GetCf { db: DbPtr(7), readopts: opts, cf: CfPtr(0xa), key: b"k".to_vec() }
    );
}

#[test]
fn put_and_delete_go_out_with_the_given_options_or_the_defaults() {
    let db = db();
    let defaults = WriteOptions { sync: false, disable_wal: false };
    assert_eq!(WriteOptions::default(), defaults);
    assert_eq!(
        db.put_cf_full(None, b"k", b"v", None),
        Call::Put { db: DbPtr(7), writeopts: defaults, key: b"k".to_vec(), value: b"v".to_vec() }
    );
    let mut opts = WriteOptions::default();
    opts.set_sync(true);
    opts.disable_wal(true);
    assert_eq!(opts, WriteOptions { sync: true, disable_wal: true });
    assert_eq!(
        db.put_cf_full(Some(family(&db)), b"k", b"v", Some(&opts)),
        Call::PutCf {
            db: DbPtr(7),
            writeopts: opts,
            cf: CfPtr(0xa),
            key: b"k".to_vec(),
            value: b"v".to_vec(),
        }
    );
    assert_eq!(
        db.delete_cf_full(None, b"k", Some(&opts)),
        Call::Delete { db: DbPtr(7), writeopts: opts, key: b"k".to_vec() }
    );
    assert_eq!(
        db.delete_cf_full(Some(family(&db)), b"k", None),
        Call::DeleteCf { db: DbPtr(7), writeopts: defaults, cf: CfPtr(0xa), key: b"k".to_vec() }
    );
}

#[test]
fn a_missing_key_reads_as_no_value_and_not_as_an_error() {
    assert_eq!(read_value(Reply::ok(None)), Ok(None));
    let got = read_value(Reply::ok(Some(b"value".to_vec()))).unwrap().unwrap();
    assert_eq!(got.len(), 5);
    assert_eq!(got.as_slice(), b"value");
    assert_eq!(got.to_vec(), b"value".to_vec());
    let empty = read_value(Reply::ok(Some(vec![]))).unwrap().unwrap();
    assert_eq!(empty.len(), 0);
}

#[test]
fn a_failed_read_surfaces_the_engine_message() {
    let err = read_value(Reply::failed(None, b"IO error: lost".to_vec())).unwrap_err();
    assert_eq!(err.to_string(), "IO error: lost");
    let err = read_value(Reply::failed(Some(b"ignored".to_vec()), b"Corruption".to_vec()))
        .unwrap_err();
    assert_eq!(err.into_string(), "Corruption");
}

#[test]
fn ffi_try_turns_a_filled_error_buffer_into_the_error() {
    assert_eq!(ffi_try(Reply::ok(5u32)), Ok(5));
    assert_eq!(ffi_try(Reply::ok(())), Ok(()));
    let err = ffi_try(Reply::failed((), b"Busy: conflict".to_vec())).unwrap_err();
    assert_eq!(err.to_string(), "Busy: conflict");
}

#[test]
fn error_message_decodes_leniently() {
    assert_eq!(error_message(b"plain"), "plain");
    assert_eq!(error_message("gr\u{fc}n".as_bytes()), "gr\u{fc}n");
    assert_eq!(error_message(&[0xff]), "\u{fffd}");
    assert_eq!(error_message(&[b'a', 0xc3, b'b']), "a\u{fffd}b");
    assert_eq!(error_message(&[]), "");
}

#[test]
fn find_nul_finds_the_first_zero_byte() {
    assert_eq!(find_nul(b"abc"), None);
    assert_eq!(find_nul(b""), None);
    assert_eq!(find_nul(b"\0"), Some(0));
    assert_eq!(find_nul(b"ab\0cd\0"), Some(2));
}

#[test]
fn to_cpath_keeps_the_bytes_or_gives_the_message() {
    assert_eq!(to_cpath("a/b", "bad"), Ok(b"a/b".to_vec()));
    assert_eq!(to_cpath("d\u{e9}j\u{e0}", "bad"), Ok("d\u{e9}j\u{e0}".as_bytes().to_vec()));
    assert_eq!(to_cpath("", "bad"), Ok(vec![]));
    assert_eq!(to_cpath("a\0b", "bad").unwrap_err().to_string(), "bad");
}

#[test]
fn str_eq_compares_texts() {
    assert!(str_eq("default", "default"));
    assert!(str_eq("", ""));
    assert!(!str_eq("default", "defaul"));
    assert!(!str_eq("default", "defaulT"));
    assert!(!str_eq("a", ""));
}

#[test]
fn push_decimal_writes_numerals() {
    for (n, text) in [(0usize, "0"), (7, "7"), (10, "10"), (12, "12"), (909, "909"), (65536, "65536")] {
        let mut out = String::from("at ");
        push_decimal(&mut out, n);
        assert_eq!(out, format!("at {}", text));
    }
    let mut out = String::new();
    push_decimal(&mut out, usize::MAX);
    assert_eq!(out, format!("{}", usize::MAX));
}

#[test]
fn cursors_are_asked_for_with_the_options_of_their_kind() {
    let db = db();
    let defaults = ReadOptions::default();
    assert_eq!(
        defaults,
        ReadOptions { total_order_seek: false, prefix_same_as_start: false, snapshot: None }
    );
    assert_eq!(
        db.raw_iterator().call(),
        &Call::CreateIterator { db: DbPtr(7), readopts: defaults }
    );
    assert_eq!(
        db.iterator(IteratorMode::Start).call(),
        &Call::CreateIterator { db: DbPtr(7), readopts: defaults }
    );
    let total = ReadOptions { total_order_seek: true, ..defaults };
    assert_eq!(
        db.full_iterator(IteratorMode::End).call(),
        &Call::CreateIterator { db: DbPtr(7), readopts: total }
    );
    let prefix = ReadOptions { prefix_same_as_start: true, ..defaults };
    let pending = db.prefix_iterator(b"pre");
    assert_eq!(pending.call(), &Call::CreateIterator { db: DbPtr(7), readopts: prefix });
    let (it, seek) = pending.open(IterPtr(3));
    assert_eq!(seek, Call::IterSeek { iter: IterPtr(3), key: b"pre".to_vec() });
    assert_eq!(it.direction(), Direction::Forward);
    let mut custom = ReadOptions::default();
    custom.set_total_order_seek(true);
    custom.set_prefix_same_as_start(true);
    assert_eq!(
        db.iterator_opt(IteratorMode::Start, &custom).call(),
        &Call::CreateIterator { db: DbPtr(7), readopts: custom }
    );
    assert_eq!(
        db.get_iter(&custom, IteratorMode::Start).call(),
        &Call::CreateIterator { db: DbPtr(7), readopts: custom }
    );
    assert_eq!(
        db.get_raw_iter(&custom).call(),
        &Call::CreateIterator { db: DbPtr(7), readopts: custom }
    );
}

#[test]
fn cursors_on_a_family_name_the_family() {
    let db = db();
    let cf = family(&db);
    let defaults = ReadOptions::default();
    let total = ReadOptions { total_order_seek: true, ..defaults };
    let prefix = ReadOptions { prefix_same_as_start: true, ..defaults };
    let create = |readopts| Call::CreateIteratorCf { db: DbPtr(7), readopts, cf: CfPtr(0xa) };
    assert_eq!(db.raw_iterator_cf(cf).unwrap().call(), &create(defaults));
    assert_eq!(db.get_raw_iter_cf(cf, &total).unwrap().call(), &create(total));
    assert_eq!(db.iterator_cf(cf, IteratorMode::Start).unwrap().call(), &create(defaults));
    assert_eq!(db.full_iterator_cf(cf, IteratorMode::Start).unwrap().call(), &create(total));
    assert_eq!(db.iterator_cf_opt(cf, IteratorMode::End, &prefix).unwrap().call(), &create(prefix));
    assert_eq!(db.get_iter_cf(cf, &prefix, IteratorMode::End).unwrap().call(), &create(prefix));
    let pending = db.prefix_iterator_cf(cf, b"p").unwrap();
    assert_eq!(pending.call(), &create(prefix));
    let (_, seek) = pending.open(IterPtr(9));
    assert_eq!(seek, Call::IterSeek { iter: IterPtr(9), key: b"p".to_vec() });
}

#[test]
fn each_mode_reduces_to_one_positioning_call() {
    let db = db();
    let open = |mode| db.iterator(mode).open(IterPtr(5));
    let (it, seek) = open(IteratorMode::Start);
    assert_eq!(seek, Call::IterSeekToFirst { iter: IterPtr(5) });
    assert_eq!(it.direction(), Direction::Forward);
    let (it, seek) = open(IteratorMode::End);
    assert_eq!(seek, Call::IterSeekToLast { iter: IterPtr(5) });
    assert_eq!(it.direction(), Direction::Reverse);
    let (it, seek) = open(IteratorMode::From(b"k", Direction::Forward));
    assert_eq!(seek, Call::IterSeek { iter: IterPtr(5), key: b"k".to_vec() });
    assert_eq!(it.direction(), Direction::Forward);
    let (it, seek) = open(IteratorMode::From(b"k", Direction::Reverse));
    assert_eq!(seek, Call::IterSeekForPrev { iter: IterPtr(5), key: b"k".to_vec() });
    assert_eq!(it.direction(), Direction::Reverse);
}

#[test]
fn a_raw_cursor_lets_nothing_be_read_until_the_engine_says_it_is_valid() {
    let db = db();
    let mut raw = db.raw_iterator().open(IterPtr(4));
    assert_eq!(raw.inner(), IterPtr(4));
    assert_eq!(raw.position(), Position::Unpositioned);
    assert_eq!(raw.key(), None);
    assert_eq!(raw.value(), None);
    assert_eq!(raw.next(), None);
    assert_eq!(raw.prev(), None);
    raw.observe(true);
    assert_eq!(raw.position(), Position::Unpositioned);
    assert!(!raw.is_valid());

    assert_eq!(raw.seek_to_first(), Call::IterSeekToFirst { iter: IterPtr(4) });
    assert_eq!(raw.position(), Position::Moved);
    assert_eq!(raw.key(), None);
    assert_eq!(raw.next(), None);
    assert_eq!(raw.valid(), Call::IterValid { iter: IterPtr(4) });
    raw.observe(true);
    assert!(raw.is_valid());
    assert_eq!(raw.key(), Some(Call::IterKey { iter: IterPtr(4) }));
    assert_eq!(raw.value(), Some(Call::IterValue { iter: IterPtr(4) }));

    assert_eq!(raw.next(), Some(Call::IterNext { iter: IterPtr(4) }));
    assert_eq!(raw.position(), Position::Moved);
    raw.observe(false);
    assert_eq!(raw.position(), Position::Invalid);
    assert_eq!(raw.key(), None);
    assert_eq!(raw.value(), None);
    assert_eq!(raw.next(), None);
    assert_eq!(raw.prev(), None);
    assert_eq!(raw.position(), Position::Invalid);

    assert_eq!(raw.seek_to_last(), Call::IterSeekToLast { iter: IterPtr(4) });
    raw.observe(true);
    assert_eq!(raw.prev(), Some(Call::IterPrev { iter: IterPtr(4) }));
    assert_eq!(raw.seek(b"k"), Call::IterSeek { iter: IterPtr(4), key: b"k".to_vec() });
    assert_eq!(raw.position(), Position::Moved);
    assert_eq!(
        raw.seek_for_prev(b"k"),
        Call::IterSeekForPrev { iter: IterPtr(4), key: b"k".to_vec() }
    );
    assert_eq!(raw.close(), Call::IterDestroy { iter: IterPtr(4) });
}

fn txn() -> OptimisticTransaction {
    OptimisticTransaction::new(TxnPtr(0x77))
}

#[test]
fn a_transaction_names_itself_in_every_call() {
    let t = txn();
    assert_eq!(t.handle(), TxnPtr(0x77));
    assert_eq!(t.commit(), Call::TransactionCommit { txn: TxnPtr(0x77) });
    assert_eq!(t.rollback(), Call::TransactionRollback { txn: TxnPtr(0x77) });
    assert_eq!(
        t.rollback_to_savepoint(),
        Call::TransactionRollbackToSavepoint { txn: TxnPtr(0x77) }
    );
    assert_eq!(t.set_savepoint(), Call::TransactionSetSavepoint { txn: TxnPtr(0x77) });
    assert_eq!(t.close(), Call::TransactionDestroy { txn: TxnPtr(0x77) });
}

#[test]
fn a_commit_that_finds_a_conflict_is_an_error() {
    let t = txn();
    let _ = t.commit();
    let err = ffi_try(Reply::failed((), b"Resource busy: ".to_vec())).unwrap_err();
    assert_eq!(err.to_string(), "Resource busy: ");
}

#[test]
fn get_for_update_is_exclusive_with_default_options_unless_told_otherwise() {
    let db = db();
    let t = txn();
    let defaults = ReadOptions::default();
    assert_eq!(
        t.get_for_update(b"k"),
        Call::TransactionGetForUpdate {
            txn: TxnPtr(0x77),
            readopts: defaults,
            key: b"k".to_vec(),
            exclusive: true,
        }
    );
    let total = ReadOptions { total_order_seek: true, ..defaults };
    assert_eq!(
        t.get_for_update_opt(b"k", &total, false),
        Call::TransactionGetForUpdate {
            txn: TxnPtr(0x77),
            readopts: total,
            key: b"k".to_vec(),
            exclusive: false,
        }
    );
    assert_eq!(
        t.get_for_update_cf(family(&db), b"k"),
        Call::TransactionGetForUpdateCf {
            txn: TxnPtr(0x77),
            readopts: defaults,
            cf: CfPtr(0xa),
            key: b"k".to_vec(),
            exclusive: true,
        }
    );
    assert_eq!(
        t.get_for_update_cf_opt(family(&db), b"k", &total, false),
        Call::TransactionGetForUpdateCf {
            txn: TxnPtr(0x77),
            readopts: total,
            cf: CfPtr(0xa),
            key: b"k".to_vec(),
            exclusive: false,
        }
    );
}

#[test]
fn a_transaction_reads_and_writes_through_its_own_calls() {
    let db = db();
    let cf = family(&db);
    let t = txn();
    let defaults = ReadOptions::default();
    assert_eq!(
        t.get_cf_full(None, b"k", None),
        Call::TransactionGet { txn: TxnPtr(0x77), readopts: defaults, key: b"k".to_vec() }
    );
    assert_eq!(
        t.get_cf_full(Some(cf), b"k", None),
        Call::TransactionGetCf {
            txn: TxnPtr(0x77),
            readopts: defaults,
            cf: CfPtr(0xa),
            key: b"k".to_vec(),
        }
    );
    assert_eq!(
        t.put_cf_full(None, b"k", b"v", None),
        Call::TransactionPut { txn: TxnPtr(0x77), key: b"k".to_vec(), value: b"v".to_vec() }
    );
    assert_eq!(
        t.put_cf_full(Some(cf), b"k", b"v", None),
        Call::TransactionPutCf {
            txn: TxnPtr(0x77),
            cf: CfPtr(0xa),
            key: b"k".to_vec(),
            value: b"v".to_vec(),
        }
    );
    assert_eq!(
        t.merge_cf_full(None, b"k", b"v", None),
        Call::TransactionMerge { txn: TxnPtr(0x77), key: b"k".to_vec(), value: b"v".to_vec() }
    );
    assert_eq!(
        t.merge_cf_full(Some(cf), b"k", b"v", Some(&())),
        Call::TransactionMergeCf {
            txn: TxnPtr(0x77),
            cf: CfPtr(0xa),
            key: b"k".to_vec(),
            value: b"v".to_vec(),
        }
    );
    assert_eq!(
        t.delete_cf_full(None, b"k", None),
        Call::TransactionDelete { txn: TxnPtr(0x77), key: b"k".to_vec() }
    );
    assert_eq!(
        t.delete_cf_full(Some(cf), b"k", None),
        Call::TransactionDeleteCf { txn: TxnPtr(0x77), cf: CfPtr(0xa), key: b"k".to_vec() }
    );
    assert_eq!(
        t.raw_iterator().call(),
        &Call::TransactionCreateIterator { txn: TxnPtr(0x77), readopts: defaults }
    );
    assert_eq!(
        t.raw_iterator_cf(cf).unwrap().call(),
        &Call::TransactionCreateIteratorCf { txn: TxnPtr(0x77), readopts: defaults, cf: CfPtr(0xa) }
    );
}

#[test]
fn a_transaction_snapshot_pins_reads_and_is_freed() {
    let db = db();
    let cf = family(&db);
    let t = txn();
    let pending = t.snapshot();
    assert_eq!(pending.call(), Call::TransactionGetSnapshot { txn: TxnPtr(0x77) });
    let snapshot = pending.open(SnapshotPtr(0x55));
    assert_eq!(snapshot.const_handle(), SnapshotPtr(0x55));
    let pinned = ReadOptions { snapshot: Some(SnapshotPtr(0x55)), ..ReadOptions::default() };
    assert_eq!(
        snapshot.get_cf_full(None, b"k", None),
        Call::TransactionGet { txn: TxnPtr(0x77), readopts: pinned, key: b"k".to_vec() }
    );
    let other = ReadOptions {
        total_order_seek: true,
        prefix_same_as_start: false,
        snapshot: Some(SnapshotPtr(0x99)),
    };
    assert_eq!(
        snapshot.get_cf_full(Some(cf), b"k", Some(&other)),
        Call::TransactionGetCf {
            txn: TxnPtr(0x77),
            readopts: ReadOptions { snapshot: Some(SnapshotPtr(0x55)), ..other },
            cf: CfPtr(0xa),
            key: b"k".to_vec(),
        }
    );
    assert_eq!(
        snapshot.raw_iterator().call(),
        &Call::TransactionCreateIterator { txn: TxnPtr(0x77), readopts: pinned }
    );
    assert_eq!(
        snapshot.raw_iterator_cf(cf).unwrap().call(),
        &Call::TransactionCreateIteratorCf { txn: TxnPtr(0x77), readopts: pinned, cf: CfPtr(0xa) }
    );
    assert_eq!(snapshot.release(), Call::Free { snapshot: SnapshotPtr(0x55) });
}

#[test]
fn a_snapshot_writes_itself_into_the_options_of_every_read() {
    let db = db();
    let cf = family(&db);
    let pending = db.snapshot();
    assert_eq!(pending.call(), Call::CreateSnapshot { db: DbPtr(7) });
    let snapshot = pending.open(SnapshotPtr(0x55));
    let pinned = ReadOptions { snapshot: Some(SnapshotPtr(0x55)), ..ReadOptions::default() };
    assert_eq!(
        snapshot.get_cf_full(None, b"k", None),
        Call::Get { db: DbPtr(7), readopts: pinned, key: b"k".to_vec() }
    );
    let other = ReadOptions {
        total_order_seek: false,
        prefix_same_as_start: true,
        snapshot: Some(SnapshotPtr(0x99)),
    };
    assert_eq!(
        snapshot.get_cf_full(Some(cf), b"k", Some(&other)),
        Call::GetCf {
            db: DbPtr(7),
            readopts: ReadOptions { snapshot: Some(SnapshotPtr(0x55)), ..other },
            cf: CfPtr(0xa),
            key: b"k".to_vec(),
        }
    );
    assert_eq!(
        snapshot.full_iterator(IteratorMode::Start).call(),
        &Call::CreateIterator {
            db: DbPtr(7),
            readopts: ReadOptions { total_order_seek: true, ..pinned },
        }
    );
    assert_eq!(
        snapshot.raw_iterator_cf(cf).unwrap().call(),
        &Call::CreateIteratorCf { db: DbPtr(7), readopts: pinned, cf: CfPtr(0xa) }
    );
    assert_eq!(
        snapshot.release(),
        Call::ReleaseSnapshot { db: DbPtr(7), snapshot: SnapshotPtr(0x55) }
    );
}

#[test]
fn read_options_take_a_snapshot_from_whatever_hands_one_out() {
    let db = db();
    let snapshot = db.snapshot().open(SnapshotPtr(3));
    let mut opts = ReadOptions::default();
    opts.set_snapshot(&snapshot);
    assert_eq!(opts.snapshot, Some(SnapshotPtr(3)));
    assert_eq!(ReadOptions::input_or_default(Some(&opts)), opts);
    assert_eq!(ReadOptions::input_or_default(None), ReadOptions::default());
    let w = WriteOptions { sync: true, disable_wal: false };
    assert_eq!(WriteOptions::input_or_default(Some(&w)), w);
    assert_eq!(WriteOptions::input_or_default(None), WriteOptions::default());
}
