//! The vocabulary spoken with the native engine.
//!
//! A [`Call`] names one entry point of the engine together with its
//! arguments, as plain values. The functions of this crate compute calls;
//! whoever owns the engine performs them and hands back what the engine
//! returned. A [`Reply`] is that answer in the engine's own idiom: a return
//! value, and an error buffer that is empty when all went well.

use vstd::prelude::*;

use crate::db_options::{FlushOptions, Options, OptionsView, ReadOptions, WriteOptions};
use crate::error::Error;
use crate::ffi_util::{error_message, utf8_lossy};
use crate::handle::{CfPtr, DbPtr, IterPtr, SnapshotPtr, TxnPtr};

verus! {

/// One call into the engine.
#[derive(Debug, PartialEq, Eq)]
pub enum Call {
    Open { options: Options, path: Vec<u8> },
    OpenColumnFamilies { options: Options, path: Vec<u8>, families: Vec<(Vec<u8>, Options)> },
    OpenForReadOnly { options: Options, path: Vec<u8>, error_if_log_file_exists: bool },
    OpenForReadOnlyColumnFamilies {
        options: Options,
        path: Vec<u8>,
        families: Vec<(Vec<u8>, Options)>,
        error_if_log_file_exists: bool,
    },
    OpenAsSecondary { options: Options, path: Vec<u8>, secondary_path: Vec<u8> },
    OpenAsSecondaryColumnFamilies {
        options: Options,
        path: Vec<u8>,
        secondary_path: Vec<u8>,
        families: Vec<(Vec<u8>, Options)>,
    },
    Close { db: DbPtr },
    CreateColumnFamily { db: DbPtr, options: Options, name: Vec<u8> },
    DropColumnFamily { db: DbPtr, cf: CfPtr },
    ColumnFamilyHandleDestroy { cf: CfPtr },
    Get { db: DbPtr, readopts: ReadOptions, key: Vec<u8> },
    GetCf { db: DbPtr, readopts: ReadOptions, cf: CfPtr, key: Vec<u8> },
    Put { db: DbPtr, writeopts: WriteOptions, key: Vec<u8>, value: Vec<u8> },
    PutCf { db: DbPtr, writeopts: WriteOptions, cf: CfPtr, key: Vec<u8>, value: Vec<u8> },
    Delete { db: DbPtr, writeopts: WriteOptions, key: Vec<u8> },
    DeleteCf { db: DbPtr, writeopts: WriteOptions, cf: CfPtr, key: Vec<u8> },
    Flush { db: DbPtr, flushopts: FlushOptions },
    FlushCf { db: DbPtr, flushopts: FlushOptions, cf: CfPtr },
    DeleteFileInRange { db: DbPtr, start_key: Vec<u8>, limit_key: Vec<u8> },
    DeleteFileInRangeCf { db: DbPtr, cf: CfPtr, start_key: Vec<u8>, limit_key: Vec<u8> },
    SetOptions { db: DbPtr, names: Vec<Vec<u8>>, values: Vec<Vec<u8>> },
    SetOptionsCf { db: DbPtr, cf: CfPtr, names: Vec<Vec<u8>>, values: Vec<Vec<u8>> },
    TryCatchUpWithPrimary { db: DbPtr },
    CreateSnapshot { db: DbPtr },
    ReleaseSnapshot { db: DbPtr, snapshot: SnapshotPtr },
    CreateIterator { db: DbPtr, readopts: ReadOptions },
    CreateIteratorCf { db: DbPtr, readopts: ReadOptions, cf: CfPtr },
    IterSeekToFirst { iter: IterPtr },
    IterSeekToLast { iter: IterPtr },
    IterSeek { iter: IterPtr, key: Vec<u8> },
    IterSeekForPrev { iter: IterPtr, key: Vec<u8> },
    IterNext { iter: IterPtr },
    IterPrev { iter: IterPtr },
    IterValid { iter: IterPtr },
    IterKey { iter: IterPtr },
    IterValue { iter: IterPtr },
    IterDestroy { iter: IterPtr },
    TransactionCommit { txn: TxnPtr },
    TransactionRollback { txn: TxnPtr },
    TransactionRollbackToSavepoint { txn: TxnPtr },
    TransactionSetSavepoint { txn: TxnPtr },
    TransactionGetSnapshot { txn: TxnPtr },
    TransactionDestroy { txn: TxnPtr },
    TransactionGet { txn: TxnPtr, readopts: ReadOptions, key: Vec<u8> },
    TransactionGetCf { txn: TxnPtr, readopts: ReadOptions, cf: CfPtr, key: Vec<u8> },
    TransactionGetForUpdate { txn: TxnPtr, readopts: ReadOptions, key: Vec<u8>, exclusive: bool },
    TransactionGetForUpdateCf {
        txn: TxnPtr,
        readopts: ReadOptions,
        cf: CfPtr,
        key: Vec<u8>,
        exclusive: bool,
    },
    TransactionPut { txn: TxnPtr, key: Vec<u8>, value: Vec<u8> },
    TransactionPutCf { txn: TxnPtr, cf: CfPtr, key: Vec<u8>, value: Vec<u8> },
    TransactionMerge { txn: TxnPtr, key: Vec<u8>, value: Vec<u8> },
    TransactionMergeCf { txn: TxnPtr, cf: CfPtr, key: Vec<u8>, value: Vec<u8> },
    TransactionDelete { txn: TxnPtr, key: Vec<u8> },
    TransactionDeleteCf { txn: TxnPtr, cf: CfPtr, key: Vec<u8> },
    TransactionCreateIterator { txn: TxnPtr, readopts: ReadOptions },
    TransactionCreateIteratorCf { txn: TxnPtr, readopts: ReadOptions, cf: CfPtr },
    Free { snapshot: SnapshotPtr },
    OptionsLoadFromFile { path: Vec<u8>, cache_size: Option<usize>, ignore_unknown_options: bool },
}

/// What a [`Call`] stands for.
pub enum CallView {
    Open { options: OptionsView, path: Seq<u8> },
    OpenColumnFamilies { options: OptionsView, path: Seq<u8>, families: Seq<(Seq<u8>, OptionsView)> },
    OpenForReadOnly { options: OptionsView, path: Seq<u8>, error_if_log_file_exists: bool },
    OpenForReadOnlyColumnFamilies {
        options: OptionsView,
        path: Seq<u8>,
        families: Seq<(Seq<u8>, OptionsView)>,
        error_if_log_file_exists: bool,
    },
    OpenAsSecondary { options: OptionsView, path: Seq<u8>, secondary_path: Seq<u8> },
    OpenAsSecondaryColumnFamilies {
        options: OptionsView,
        path: Seq<u8>,
        secondary_path: Seq<u8>,
        families: Seq<(Seq<u8>, OptionsView)>,
    },
    Close { db: DbPtr },
    CreateColumnFamily { db: DbPtr, options: OptionsView, name: Seq<u8> },
    DropColumnFamily { db: DbPtr, cf: CfPtr },
    ColumnFamilyHandleDestroy { cf: CfPtr },
    Get { db: DbPtr, readopts: ReadOptions, key: Seq<u8> },
    GetCf { db: DbPtr, readopts: ReadOptions, cf: CfPtr, key: Seq<u8> },
    Put { db: DbPtr, writeopts: WriteOptions, key: Seq<u8>, value: Seq<u8> },
    PutCf { db: DbPtr, writeopts: WriteOptions, cf: CfPtr, key: Seq<u8>, value: Seq<u8> },
    Delete { db: DbPtr, writeopts: WriteOptions, key: Seq<u8> },
    DeleteCf { db: DbPtr, writeopts: WriteOptions, cf: CfPtr, key: Seq<u8> },
    Flush { db: DbPtr, flushopts: FlushOptions },
    FlushCf { db: DbPtr, flushopts: FlushOptions, cf: CfPtr },
    DeleteFileInRange { db: DbPtr, start_key: Seq<u8>, limit_key: Seq<u8> },
    DeleteFileInRangeCf { db: DbPtr, cf: CfPtr, start_key: Seq<u8>, limit_key: Seq<u8> },
    SetOptions { db: DbPtr, names: Seq<Seq<u8>>, values: Seq<Seq<u8>> },
    SetOptionsCf { db: DbPtr, cf: CfPtr, names: Seq<Seq<u8>>, values: Seq<Seq<u8>> },
    TryCatchUpWithPrimary { db: DbPtr },
    CreateSnapshot { db: DbPtr },
    ReleaseSnapshot { db: DbPtr, snapshot: SnapshotPtr },
    CreateIterator { db: DbPtr, readopts: ReadOptions },
    CreateIteratorCf { db: DbPtr, readopts: ReadOptions, cf: CfPtr },
    IterSeekToFirst { iter: IterPtr },
    IterSeekToLast { iter: IterPtr },
    IterSeek { iter: IterPtr, key: Seq<u8> },
    IterSeekForPrev { iter: IterPtr, key: Seq<u8> },
    IterNext { iter: IterPtr },
    IterPrev { iter: IterPtr },
    IterValid { iter: IterPtr },
    IterKey { iter: IterPtr },
    IterValue { iter: IterPtr },
    IterDestroy { iter: IterPtr },
    TransactionCommit { txn: TxnPtr },
    TransactionRollback { txn: TxnPtr },
    TransactionRollbackToSavepoint { txn: TxnPtr },
    TransactionSetSavepoint { txn: TxnPtr },
    TransactionGetSnapshot { txn: TxnPtr },
    TransactionDestroy { txn: TxnPtr },
    TransactionGet { txn: TxnPtr, readopts: ReadOptions, key: Seq<u8> },
    TransactionGetCf { txn: TxnPtr, readopts: ReadOptions, cf: CfPtr, key: Seq<u8> },
    TransactionGetForUpdate { txn: TxnPtr, readopts: ReadOptions, key: Seq<u8>, exclusive: bool },
    TransactionGetForUpdateCf {
        txn: TxnPtr,
        readopts: ReadOptions,
        cf: CfPtr,
        key: Seq<u8>,
        exclusive: bool,
    },
    TransactionPut { txn: TxnPtr, key: Seq<u8>, value: Seq<u8> },
    TransactionPutCf { txn: TxnPtr, cf: CfPtr, key: Seq<u8>, value: Seq<u8> },
    TransactionMerge { txn: TxnPtr, key: Seq<u8>, value: Seq<u8> },
    TransactionMergeCf { txn: TxnPtr, cf: CfPtr, key: Seq<u8>, value: Seq<u8> },
    TransactionDelete { txn: TxnPtr, key: Seq<u8> },
    TransactionDeleteCf { txn: TxnPtr, cf: CfPtr, key: Seq<u8> },
    TransactionCreateIterator { txn: TxnPtr, readopts: ReadOptions },
    TransactionCreateIteratorCf { txn: TxnPtr, readopts: ReadOptions, cf: CfPtr },
    Free { snapshot: SnapshotPtr },
    OptionsLoadFromFile { path: Seq<u8>, cache_size: Option<usize>, ignore_unknown_options: bool },
}

/// What a run of calls stands for, in order.
pub open spec fn call_views(calls: Seq<Call>) -> Seq<CallView> {
    Seq::new(calls.len(), |i: int| calls[i]@)
}

/// The contents of a run of byte strings, in order.
pub open spec fn byte_strings(strings: Seq<Vec<u8>>) -> Seq<Seq<u8>> {
    Seq::new(strings.len(), |i: int| strings[i]@)
}

/// Name and options of each family of a run, in order.
pub open spec fn family_views(families: Seq<(Vec<u8>, Options)>) -> Seq<(Seq<u8>, OptionsView)> {
    Seq::new(families.len(), |i: int| (families[i].0@, families[i].1@))
}

impl View for Call {
    type V = CallView;

    open spec fn view(&self) -> CallView {
        match self {
            Call::Open { options, path } => CallView::Open { options: options@, path: path@ },
            Call::OpenColumnFamilies { options, path, families } => CallView::OpenColumnFamilies {
                options: options@,
                path: path@,
                families: family_views(families@),
            },
            Call::OpenForReadOnly {
                options,
                path,
                error_if_log_file_exists,
            } => CallView::OpenForReadOnly {
                options: options@,
                path: path@,
                error_if_log_file_exists: *error_if_log_file_exists,
            },
            Call::OpenForReadOnlyColumnFamilies {
                options,
                path,
                families,
                error_if_log_file_exists,
            } => CallView::OpenForReadOnlyColumnFamilies {
                options: options@,
                path: path@,
                families: family_views(families@),
                error_if_log_file_exists: *error_if_log_file_exists,
            },
            Call::OpenAsSecondary { options, path, secondary_path } => CallView::OpenAsSecondary {
                options: options@,
                path: path@,
                secondary_path: secondary_path@,
            },
            Call::OpenAsSecondaryColumnFamilies {
                options,
                path,
                secondary_path,
                families,
            } => CallView::OpenAsSecondaryColumnFamilies {
                options: options@,
                path: path@,
                secondary_path: secondary_path@,
                families: family_views(families@),
            },
            Call::Close { db } => CallView::Close { db: *db },
            Call::CreateColumnFamily { db, options, name } => CallView::CreateColumnFamily {
                db: *db,
                options: options@,
                name: name@,
            },
            Call::DropColumnFamily { db, cf } => CallView::DropColumnFamily { db: *db, cf: *cf },
            Call::ColumnFamilyHandleDestroy { cf } => CallView::ColumnFamilyHandleDestroy {
                cf: *cf,
            },
            Call::Get { db, readopts, key } => CallView::Get {
                db: *db,
                readopts: *readopts,
                key: key@,
            },
            Call::GetCf { db, readopts, cf, key } => CallView::GetCf {
                db: *db,
                readopts: *readopts,
                cf: *cf,
                key: key@,
            },
            Call::Put { db, writeopts, key, value } => CallView::Put {
                db: *db,
                writeopts: *writeopts,
                key: key@,
                value: value@,
            },
            Call::PutCf { db, writeopts, cf, key, value } => CallView::PutCf {
                db: *db,
                writeopts: *writeopts,
                cf: *cf,
                key: key@,
                value: value@,
            },
            Call::Delete { db, writeopts, key } => CallView::Delete {
                db: *db,
                writeopts: *writeopts,
                key: key@,
            },
            Call::DeleteCf { db, writeopts, cf, key } => CallView::DeleteCf {
                db: *db,
                writeopts: *writeopts,
                cf: *cf,
                key: key@,
            },
            Call::Flush { db, flushopts } => CallView::Flush { db: *db, flushopts: *flushopts },
            Call::FlushCf { db, flushopts, cf } => CallView::FlushCf {
                db: *db,
                flushopts: *flushopts,
                cf: *cf,
            },
            Call::DeleteFileInRange { db, start_key, limit_key } => CallView::DeleteFileInRange {
                db: *db,
                start_key: start_key@,
                limit_key: limit_key@,
            },
            Call::DeleteFileInRangeCf {
                db,
                cf,
                start_key,
                limit_key,
            } => CallView::DeleteFileInRangeCf {
                db: *db,
                cf: *cf,
                start_key: start_key@,
                limit_key: limit_key@,
            },
            Call::SetOptions { db, names, values } => CallView::SetOptions {
                db: *db,
                names: byte_strings(names@),
                values: byte_strings(values@),
            },
            Call::SetOptionsCf { db, cf, names, values } => CallView::SetOptionsCf {
                db: *db,
                cf: *cf,
                names: byte_strings(names@),
                values: byte_strings(values@),
            },
            Call::TryCatchUpWithPrimary { db } => CallView::TryCatchUpWithPrimary { db: *db },
            Call::CreateSnapshot { db } => CallView::CreateSnapshot { db: *db },
            Call::ReleaseSnapshot { db, snapshot } => CallView::ReleaseSnapshot {
                db: *db,
                snapshot: *snapshot,
            },
            Call::CreateIterator { db, readopts } => CallView::CreateIterator {
                db: *db,
                readopts: *readopts,
            },
            Call::CreateIteratorCf { db, readopts, cf } => CallView::CreateIteratorCf {
                db: *db,
                readopts: *readopts,
                cf: *cf,
            },
            Call::IterSeekToFirst { iter } => CallView::IterSeekToFirst { iter: *iter },
            Call::IterSeekToLast { iter } => CallView::IterSeekToLast { iter: *iter },
            Call::IterSeek { iter, key } => CallView::IterSeek { iter: *iter, key: key@ },
            Call::IterSeekForPrev { iter, key } => CallView::IterSeekForPrev {
                iter: *iter,
                key: key@,
            },
            Call::IterNext { iter } => CallView::IterNext { iter: *iter },
            Call::IterPrev { iter } => CallView::IterPrev { iter: *iter },
            Call::IterValid { iter } => CallView::IterValid { iter: *iter },
            Call::IterKey { iter } => CallView::IterKey { iter: *iter },
            Call::IterValue { iter } => CallView::IterValue { iter: *iter },
            Call::IterDestroy { iter } => CallView::IterDestroy { iter: *iter },
            Call::TransactionCommit { txn } => CallView::TransactionCommit { txn: *txn },
            Call::TransactionRollback { txn } => CallView::TransactionRollback { txn: *txn },
            Call::TransactionRollbackToSavepoint {
                txn,
            } => CallView::TransactionRollbackToSavepoint { txn: *txn },
            Call::TransactionSetSavepoint { txn } => CallView::TransactionSetSavepoint {
                txn: *txn,
            },
            Call::TransactionGetSnapshot { txn } => CallView::TransactionGetSnapshot { txn: *txn },
            Call::TransactionDestroy { txn } => CallView::TransactionDestroy { txn: *txn },
            Call::TransactionGet { txn, readopts, key } => CallView::TransactionGet {
                txn: *txn,
                readopts: *readopts,
                key: key@,
            },
            Call::TransactionGetCf { txn, readopts, cf, key } => CallView::TransactionGetCf {
                txn: *txn,
                readopts: *readopts,
                cf: *cf,
                key: key@,
            },
            Call::TransactionGetForUpdate {
                txn,
                readopts,
                key,
                exclusive,
            } => CallView::TransactionGetForUpdate {
                txn: *txn,
                readopts: *readopts,
                key: key@,
                exclusive: *exclusive,
            },
            Call::TransactionGetForUpdateCf {
                txn,
                readopts,
                cf,
                key,
                exclusive,
            } => CallView::TransactionGetForUpdateCf {
                txn: *txn,
                readopts: *readopts,
                cf: *cf,
                key: key@,
                exclusive: *exclusive,
            },
            Call::TransactionPut { txn, key, value } => CallView::TransactionPut {
                txn: *txn,
                key: key@,
                value: value@,
            },
            Call::TransactionPutCf { txn, cf, key, value } => CallView::TransactionPutCf {
                txn: *txn,
                cf: *cf,
                key: key@,
                value: value@,
            },
            Call::TransactionMerge { txn, key, value } => CallView::TransactionMerge {
                txn: *txn,
                key: key@,
                value: value@,
            },
            Call::TransactionMergeCf { txn, cf, key, value } => CallView::TransactionMergeCf {
                txn: *txn,
                cf: *cf,
                key: key@,
                value: value@,
            },
            Call::TransactionDelete { txn, key } => CallView::TransactionDelete {
                txn: *txn,
                key: key@,
            },
            Call::TransactionDeleteCf { txn, cf, key } => CallView::TransactionDeleteCf {
                txn: *txn,
                cf: *cf,
                key: key@,
            },
            Call::TransactionCreateIterator {
                txn,
                readopts,
            } => CallView::TransactionCreateIterator { txn: *txn, readopts: *readopts },
            Call::TransactionCreateIteratorCf {
                txn,
                readopts,
                cf,
            } => CallView::TransactionCreateIteratorCf {
                txn: *txn,
                readopts: *readopts,
                cf: *cf,
            },
            Call::Free { snapshot } => CallView::Free { snapshot: *snapshot },
            Call::OptionsLoadFromFile {
                path,
                cache_size,
                ignore_unknown_options,
            } => CallView::OptionsLoadFromFile {
                path: path@,
                cache_size: *cache_size,
                ignore_unknown_options: *ignore_unknown_options,
            },
        }
    }
}

/// What a native call left behind: the value it returned, and the error
/// buffer, which holds a message exactly when the call failed.
#[derive(Debug)]
pub struct Reply<T> {
    pub value: T,
    pub error: Option<Vec<u8>>,
}

impl<T> Reply<T> {
    /// The reply of a call that went well and returned `value`.
    pub fn ok(value: T) -> (r: Reply<T>)
        ensures
            r.value == value,
            r.error is None,
    {
        Reply { value, error: None }
    }

    /// The reply of a call that failed with `message` in its error buffer.
    pub fn failed(value: T, message: Vec<u8>) -> (r: Reply<T>)
        ensures
            r.value == value,
            r.error == Some(message),
    {
        Reply { value, error: Some(message) }
    }
}

/// What [`ffi_try`] makes of a reply.
pub open spec fn tried<T>(value: T, error: Option<Vec<u8>>, r: Result<T, Error>) -> bool {
    match error {
        None => r == Ok::<T, Error>(value),
        Some(message) => r is Err && r->Err_0@ == utf8_lossy(message@),
    }
}

/// Turns the engine's idiom into a result: a filled error buffer becomes the
/// error, its text the message; otherwise the returned value stands.
pub fn ffi_try<T>(reply: Reply<T>) -> (r: Result<T, Error>)
    ensures
        tried(reply.value, reply.error, r),
{
    match reply.error {
        None => Ok(reply.value),
        Some(message) => Err(Error::new(error_message(message.as_slice()))),
    }
}

} // verus!
