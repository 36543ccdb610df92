//! Optimistic transactions: writes are gathered without locks and checked
//! for conflicts when the transaction commits.

use vstd::prelude::*;
use vstd::slice::slice_to_vec;

use crate::column_family::{ColumnFamily};
use crate::db_iterator::PendingRawIterator;
use crate::db_options::ReadOptions;
use crate::engine::{Call, CallView};
use crate::error::Error;
use crate::handle::{CfPtr, ConstHandle, Handle, SnapshotPtr, TxnPtr};
use crate::ops::delete::DeleteCF;
use crate::ops::get::{GetCF, Read};
use crate::ops::iter::{Iterate, IterateCF};
use crate::ops::merge::MergeCF;
use crate::ops::put::PutCF;

verus! {

/// The call that reads `key` inside the transaction at `txn`.
pub open spec fn transaction_get_call(
    txn: TxnPtr,
    cf: Option<CfPtr>,
    key: Seq<u8>,
    readopts: ReadOptions,
) -> CallView {
    match cf {
        Some(cf) => CallView::TransactionGetCf { txn, readopts, cf, key },
        None => CallView::TransactionGet { txn, readopts, key },
    }
}

#[derive(Debug)]
pub struct OptimisticTransaction {
    inner: TxnPtr,
}

impl OptimisticTransaction {
    /// Takes over the transaction that the engine began at `inner`.
    pub fn new(inner: TxnPtr) -> (t: OptimisticTransaction)
        ensures
            t.raw() == inner,
    {
        OptimisticTransaction { inner }
    }

    /// commits a transaction
    pub fn commit(&self) -> (c: Call)
        ensures
            c@ == (CallView::TransactionCommit { txn: self.raw() }),
    {
        Call::TransactionCommit { txn: self.inner }
    }

    /// Transaction rollback
    pub fn rollback(&self) -> (c: Call)
        ensures
            c@ == (CallView::TransactionRollback { txn: self.raw() }),
    {
        Call::TransactionRollback { txn: self.inner }
    }

    /// Transaction rollback to savepoint
    pub fn rollback_to_savepoint(&self) -> (c: Call)
        ensures
            c@ == (CallView::TransactionRollbackToSavepoint { txn: self.raw() }),
    {
        Call::TransactionRollbackToSavepoint { txn: self.inner }
    }

    /// Set savepoint for transaction
    pub fn set_savepoint(&self) -> (c: Call)
        ensures
            c@ == (CallView::TransactionSetSavepoint { txn: self.raw() }),
    {
        Call::TransactionSetSavepoint { txn: self.inner }
    }

    /// Get Snapshot
    pub fn snapshot<'a>(&'a self) -> (p: PendingTransactionSnapshot<'a>)
        ensures
            p.txn() == self.raw(),
    {
        PendingTransactionSnapshot { txn: self }
    }

    /// Get For Update
    /// ReadOptions: Default
    /// exclusive: true
    pub fn get_for_update(&self, key: &[u8]) -> (c: Call)
        ensures
            c@ == (CallView::TransactionGetForUpdate {
                txn: self.raw(),
                readopts: ReadOptions::spec_default(),
                key: key@,
                exclusive: true,
            }),
    {
        let opt = ReadOptions::default();
        self.get_for_update_opt(key, &opt, true)
    }

    /// Get For Update with custom ReadOptions and exclusive
    pub fn get_for_update_opt(&self, key: &[u8], readopts: &ReadOptions, exclusive: bool) -> (c:
        Call)
        ensures
            c@ == (CallView::TransactionGetForUpdate {
                txn: self.raw(),
                readopts: *readopts,
                key: key@,
                exclusive,
            }),
    {
        Call::TransactionGetForUpdate {
            txn: self.handle(),
            readopts: *readopts,
            key: slice_to_vec(key),
            exclusive,
        }
    }

    pub fn get_for_update_cf(&self, cf: &ColumnFamily, key: &[u8]) -> (c: Call)
        ensures
            c@ == (CallView::TransactionGetForUpdateCf {
                txn: self.raw(),
                readopts: ReadOptions::spec_default(),
                cf: cf.raw(),
                key: key@,
                exclusive: true,
            }),
    {
        let opt = ReadOptions::default();
        self.get_for_update_cf_opt(cf, key, &opt, true)
    }

    pub fn get_for_update_cf_opt(
        &self,
        cf: &ColumnFamily,
        key: &[u8],
        readopts: &ReadOptions,
        exclusive: bool,
    ) -> (c: Call)
        ensures
            c@ == (CallView::TransactionGetForUpdateCf {
                txn: self.raw(),
                readopts: *readopts,
                cf: cf.raw(),
                key: key@,
                exclusive,
            }),
    {
        Call::TransactionGetForUpdateCf {
            txn: self.handle(),
            readopts: *readopts,
            cf: cf.handle(),
            key: slice_to_vec(key),
            exclusive,
        }
    }

    /// Gives the transaction up: the call that destroys it. What was neither
    /// committed nor rolled back is abandoned with it.
    pub fn close(self) -> (c: Call)
        ensures
            c@ == (CallView::TransactionDestroy { txn: self.raw() }),
    {
        Call::TransactionDestroy { txn: self.inner }
    }
}

impl Handle<TxnPtr> for OptimisticTransaction {
    closed spec fn raw(&self) -> TxnPtr {
        self.inner
    }

    fn handle(&self) -> (p: TxnPtr) {
        self.inner
    }
}

impl Read for OptimisticTransaction {

}

impl GetCF<ReadOptions> for OptimisticTransaction {
    open spec fn get_cf_call(
        &self,
        cf: Option<CfPtr>,
        key: Seq<u8>,
        readopts: Option<&ReadOptions>,
    ) -> CallView {
        transaction_get_call(self.raw(), cf, key, ReadOptions::spec_input_or_default(readopts))
    }

    fn get_cf_full(
        &self,
        cf: Option<&ColumnFamily>,
        key: &[u8],
        readopts: Option<&ReadOptions>,
    ) -> (c: Call) {
        let readopts = ReadOptions::input_or_default(readopts);
        let key = slice_to_vec(key);
        match cf {
            Some(cf) => Call::TransactionGetCf {
                txn: self.handle(),
                readopts,
                cf: cf.handle(),
                key,
            },
            None => Call::TransactionGet { txn: self.handle(), readopts, key },
        }
    }
}

impl Iterate for OptimisticTransaction {
    open spec fn raw_iter_call(&self, readopts: ReadOptions) -> CallView {
        CallView::TransactionCreateIterator { txn: self.raw(), readopts }
    }

    fn get_raw_iter<'a: 'b, 'b>(&'a self, readopts: &ReadOptions) -> (p: PendingRawIterator<'b>) {
        PendingRawIterator::new(
            Call::TransactionCreateIterator { txn: self.inner, readopts: *readopts },
        )
    }
}

impl IterateCF for OptimisticTransaction {
    open spec fn raw_iter_cf_call(&self, cf: CfPtr, readopts: ReadOptions) -> CallView {
        CallView::TransactionCreateIteratorCf { txn: self.raw(), readopts, cf }
    }

    fn get_raw_iter_cf<'a: 'b, 'b>(
        &'a self,
        cf_handle: &ColumnFamily,
        readopts: &ReadOptions,
    ) -> (r: Result<PendingRawIterator<'b>, Error>) {
        Ok(
            PendingRawIterator::new(
                Call::TransactionCreateIteratorCf {
                    txn: self.inner,
                    readopts: *readopts,
                    cf: cf_handle.handle(),
                },
            ),
        )
    }
}

impl PutCF<()> for OptimisticTransaction {
    open spec fn put_cf_call(
        &self,
        cf: Option<CfPtr>,
        key: Seq<u8>,
        value: Seq<u8>,
        writeopts: Option<&()>,
    ) -> CallView {
        match cf {
            Some(cf) => CallView::TransactionPutCf { txn: self.raw(), cf, key, value },
            None => CallView::TransactionPut { txn: self.raw(), key, value },
        }
    }

    fn put_cf_full(
        &self,
        cf: Option<&ColumnFamily>,
        key: &[u8],
        value: &[u8],
        _writeopts: Option<&()>,
    ) -> (c: Call) {
        let key = slice_to_vec(key);
        let value = slice_to_vec(value);
        match cf {
            Some(cf) => Call::TransactionPutCf { txn: self.handle(), cf: cf.handle(), key, value },
            None => Call::TransactionPut { txn: self.handle(), key, value },
        }
    }
}

impl MergeCF<()> for OptimisticTransaction {
    open spec fn merge_cf_call(
        &self,
        cf: Option<CfPtr>,
        key: Seq<u8>,
        value: Seq<u8>,
        writeopts: Option<&()>,
    ) -> CallView {
        match cf {
            Some(cf) => CallView::TransactionMergeCf { txn: self.raw(), cf, key, value },
            None => CallView::TransactionMerge { txn: self.raw(), key, value },
        }
    }

    fn merge_cf_full(
        &self,
        cf: Option<&ColumnFamily>,
        key: &[u8],
        value: &[u8],
        _writeopts: Option<&()>,
    ) -> (c: Call) {
        let key = slice_to_vec(key);
        let value = slice_to_vec(value);
        match cf {
            Some(cf) => Call::TransactionMergeCf {
                txn: self.handle(),
                cf: cf.handle(),
                key,
                value,
            },
            None => Call::TransactionMerge { txn: self.handle(), key, value },
        }
    }
}

impl DeleteCF<()> for OptimisticTransaction {
    open spec fn delete_cf_call(
        &self,
        cf: Option<CfPtr>,
        key: Seq<u8>,
        writeopts: Option<&()>,
    ) -> CallView {
        match cf {
            Some(cf) => CallView::TransactionDeleteCf { txn: self.raw(), cf, key },
            None => CallView::TransactionDelete { txn: self.raw(), key },
        }
    }

    fn delete_cf_full(
        &self,
        cf: Option<&ColumnFamily>,
        key: &[u8],
        _writeopts: Option<&()>,
    ) -> (c: Call) {
        let key = slice_to_vec(key);
        match cf {
            Some(cf) => Call::TransactionDeleteCf { txn: self.handle(), cf: cf.handle(), key },
            None => Call::TransactionDelete { txn: self.handle(), key },
        }
    }
}

/// A snapshot of a transaction that has been asked for and not yet
/// received. It borrows the transaction, and so does the snapshot it
/// becomes.
#[derive(Debug)]
pub struct PendingTransactionSnapshot<'a> {
    txn: &'a OptimisticTransaction,
}

impl<'a> PendingTransactionSnapshot<'a> {
    /// The address of the transaction the snapshot is taken of.
    pub closed spec fn txn(&self) -> TxnPtr {
        self.txn.raw()
    }

    /// The call that hands out the transaction's snapshot.
    pub fn call(&self) -> (c: Call)
        ensures
            c@ == (CallView::TransactionGetSnapshot { txn: self.txn() }),
    {
        Call::TransactionGetSnapshot { txn: self.txn.handle() }
    }

    /// Takes the address the engine returned.
    pub fn open(self, inner: SnapshotPtr) -> (s: OptimisticTransactionSnapshot<'a>)
        ensures
            s.const_raw() == inner,
            s.txn() == self.txn(),
    {
        OptimisticTransactionSnapshot { txn: self.txn, inner }
    }
}

#[derive(Debug)]
pub struct OptimisticTransactionSnapshot<'a> {
    txn: &'a OptimisticTransaction,
    inner: SnapshotPtr,
}

impl<'a> OptimisticTransactionSnapshot<'a> {
    /// The address of the transaction the snapshot was taken of.
    pub closed spec fn txn(&self) -> TxnPtr {
        self.txn.raw()
    }

    /// Gives the snapshot up: the call that frees it. A transaction's
    /// snapshot is not released through the database, it is freed as plain
    /// engine memory.
    pub fn release(self) -> (c: Call)
        ensures
            c@ == (CallView::Free { snapshot: self.const_raw() }),
    {
        Call::Free { snapshot: self.inner }
    }
}

impl<'a> ConstHandle<SnapshotPtr> for OptimisticTransactionSnapshot<'a> {
    closed spec fn const_raw(&self) -> SnapshotPtr {
        self.inner
    }

    fn const_handle(&self) -> (p: SnapshotPtr) {
        self.inner
    }
}

impl<'a> Read for OptimisticTransactionSnapshot<'a> {

}

impl<'a> GetCF<ReadOptions> for OptimisticTransactionSnapshot<'a> {
    open spec fn get_cf_call(
        &self,
        cf: Option<CfPtr>,
        key: Seq<u8>,
        readopts: Option<&ReadOptions>,
    ) -> CallView {
        transaction_get_call(
            self.txn(),
            cf,
            key,
            ReadOptions::spec_input_or_default(readopts).with_snapshot(self.const_raw()),
        )
    }

    fn get_cf_full(
        &self,
        cf: Option<&ColumnFamily>,
        key: &[u8],
        readopts: Option<&ReadOptions>,
    ) -> (c: Call) {
        let mut ro = ReadOptions::input_or_default(readopts);
        ro.set_snapshot(self);
        self.txn.get_cf_full(cf, key, Some(&ro))
    }
}

impl<'a> Iterate for OptimisticTransactionSnapshot<'a> {
    open spec fn raw_iter_call(&self, readopts: ReadOptions) -> CallView {
        CallView::TransactionCreateIterator {
            txn: self.txn(),
            readopts: readopts.with_snapshot(self.const_raw()),
        }
    }

    fn get_raw_iter<'b: 'c, 'c>(&'b self, readopts: &ReadOptions) -> (p: PendingRawIterator<'c>) {
        let mut readopts = *readopts;
        readopts.set_snapshot(self);
        self.txn.get_raw_iter(&readopts)
    }
}

impl<'a> IterateCF for OptimisticTransactionSnapshot<'a> {
    open spec fn raw_iter_cf_call(&self, cf: CfPtr, readopts: ReadOptions) -> CallView {
        CallView::TransactionCreateIteratorCf {
            txn: self.txn(),
            readopts: readopts.with_snapshot(self.const_raw()),
            cf,
        }
    }

    fn get_raw_iter_cf<'b: 'c, 'c>(
        &'b self,
        cf_handle: &ColumnFamily,
        readopts: &ReadOptions,
    ) -> (r: Result<PendingRawIterator<'c>, Error>) {
        let mut readopts = *readopts;
        readopts.set_snapshot(self);
        self.txn.get_raw_iter_cf(cf_handle, &readopts)
    }
}

} // verus!
