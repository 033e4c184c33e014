//! Core database types: configuration parameters and the database
//! instance.
//!
//! A [`Database`] is opened from a started runtime, a device set and a
//! [`Params`] configuration. It owns the page/object store, the schema
//! catalog and the transaction manager state; the committed state and the
//! durable image are kept side by side, and the active commit policy
//! decides when a commit reaches the durable image.

use vstd::prelude::*;
use vstd::string::StringSliceAdditionalSpecFns;

use crate::device::{Assignment, Device};
use crate::dict::{dict_eq, lemma_dict_eq_wf, Dictionary};
use crate::runtime::Runtime;
use crate::store::{lemma_store_eq_wf, store_eq, PageStore, Store};
use crate::util::BitMask;
use crate::{CoreCode, CoreError, Error};

verus! {

/// Database log type.
#[derive(Clone, Copy, Debug, PartialEq, Eq, Structural)]
pub enum LogType {
    /// No log.
    NoLog,
    /// Redo log.
    Redo,
    /// Undo log.
    Undo,
}

/// Transaction commit policy: how and when the log and data devices are
/// flushed. The conservative default is `SyncFlush`.
#[derive(Clone, Copy, Debug, PartialEq, Eq, Structural)]
pub enum CommitPolicy {
    /// Flush and synchronize both database and log on every commit.
    SyncFlush,
    /// Keep the database cache unflushed on commit.
    Buffered,
    /// Keep modified pages in the pool and persist delayed commits at once
    /// when the delayed-commit threshold is reached.
    Delayed,
    /// Let the filesystem decide when data reaches the media.
    NoSync,
}

/// Transaction scheduling policy among equal-priority waiters. The default
/// is `FIFO`.
#[derive(Clone, Copy, Debug, PartialEq, Eq, Structural)]
pub enum TransSchedPolicy {
    /// First in, first out.
    FIFO,
    /// Prioritize read-only transactions.
    ReaderFavor,
    /// Prioritize read-write transactions.
    WriterFavor,
}

/// Concurrency policy, selected at database-build time, not per
/// transaction.
#[derive(Clone, Copy, Debug, PartialEq, Eq, Structural)]
pub enum TransPolicy {
    /// Only one transaction of any mode may be active at a time.
    Exclusive,
    /// Unlimited concurrent readers, at most one writer.
    Mursiw,
    /// Each transaction observes a consistent snapshot. This build
    /// coarsens multi-version writing to a single writer at a time, like
    /// table-level locking.
    Mvcc,
}

/// Database log parameters.
#[derive(Clone, Copy, Debug, PartialEq, Eq, Structural)]
pub struct LogParams {
    /// The commit policy in force.
    pub default_commit_policy_v: CommitPolicy,
    /// The log file size limit.
    pub redo_log_limit_v: u64,
    /// The pinned-page size threshold that forces delayed commits out.
    pub delayed_commit_threshold_v: u64,
    /// The number of delayed transactions that forces them out.
    pub max_delayed_transactions_v: u32,
    /// The number of clock cycles to wait before delayed transactions are
    /// forced out.
    pub max_commit_delay_v: u32,
}

impl LogParams {
    /// Creates log parameters with default values: synchronous flush on
    /// every commit and a sixteen-mebibyte redo log limit.
    pub fn new() -> (r: Self)
        ensures
            r == (LogParams {
                default_commit_policy_v: CommitPolicy::SyncFlush,
                redo_log_limit_v: 0x100_0000u64,
                delayed_commit_threshold_v: 0u64,
                max_delayed_transactions_v: 0u32,
                max_commit_delay_v: 0u32,
            }),
    {
        LogParams {
            default_commit_policy_v: CommitPolicy::SyncFlush,
            redo_log_limit_v: 0x100_0000,
            delayed_commit_threshold_v: 0,
            max_delayed_transactions_v: 0,
            max_commit_delay_v: 0,
        }
    }

    /// Sets the default commit policy.
    pub fn default_commit_policy(&mut self, default_commit_policy: CommitPolicy) -> (r: &mut Self)
        ensures
            *r == (LogParams { default_commit_policy_v: default_commit_policy, ..*old(self) }),
            *final(self) == *final(r),
    {
        self.default_commit_policy_v = default_commit_policy;
        self
    }

    /// Returns the default commit policy.
    pub fn get_default_commit_policy(&self) -> (r: CommitPolicy)
        ensures
            r == self.default_commit_policy_v,
    {
        self.default_commit_policy_v
    }

    /// Sets the log file size limit.
    pub fn redo_log_limit(&mut self, redo_log_limit: u64) -> (r: &mut Self)
        ensures
            *r == (LogParams { redo_log_limit_v: redo_log_limit, ..*old(self) }),
            *final(self) == *final(r),
    {
        self.redo_log_limit_v = redo_log_limit;
        self
    }

    /// Returns the log file size limit.
    pub fn get_redo_log_limit(&self) -> (r: u64)
        ensures
            r == self.redo_log_limit_v,
    {
        self.redo_log_limit_v
    }

    /// Sets the delayed commit threshold: when the total size of pinned
    /// pages reaches it, all delayed transactions are persisted at once.
    pub fn delayed_commit_threshold(&mut self, delayed_commit_threshold: u64) -> (r: &mut Self)
        ensures
            *r == (LogParams {
                delayed_commit_threshold_v: delayed_commit_threshold,
                ..*old(self)
            }),
            *final(self) == *final(r),
    {
        self.delayed_commit_threshold_v = delayed_commit_threshold;
        self
    }

    /// Returns the delayed commit threshold.
    pub fn get_delayed_commit_threshold(&self) -> (r: u64)
        ensures
            r == self.delayed_commit_threshold_v,
    {
        self.delayed_commit_threshold_v
    }

    /// Sets the maximum number of delayed transactions: when their number
    /// reaches it, they are persisted at once.
    pub fn max_delayed_transactions(&mut self, max_delayed_transactions: u32) -> (r: &mut Self)
        ensures
            *r == (LogParams {
                max_delayed_transactions_v: max_delayed_transactions,
                ..*old(self)
            }),
            *final(self) == *final(r),
    {
        self.max_delayed_transactions_v = max_delayed_transactions;
        self
    }

    /// Returns the maximum number of delayed transactions.
    pub fn get_max_delayed_transactions(&self) -> (r: u32)
        ensures
            r == self.max_delayed_transactions_v,
    {
        self.max_delayed_transactions_v
    }

    /// Sets the maximum commit delay, in application clock cycles.
    pub fn max_commit_delay(&mut self, max_commit_delay: u32) -> (r: &mut Self)
        ensures
            *r == (LogParams { max_commit_delay_v: max_commit_delay, ..*old(self) }),
            *final(self) == *final(r),
    {
        self.max_commit_delay_v = max_commit_delay;
        self
    }

    /// Returns the maximum commit delay.
    pub fn get_max_commit_delay(&self) -> (r: u32)
        ensures
            r == self.max_commit_delay_v,
    {
        self.max_commit_delay_v
    }
}

/// A mask of page classes for compression, used when in-memory database compression is enabled.
#[derive(Clone, Copy, Debug, PartialEq, Eq, Structural)]
pub struct CompressionMask(pub BitMask);

impl CompressionMask {
    /// Creates a mask filled with zeroes.
    pub fn new() -> (r: Self)
        ensures
            r.0.0 == 0u32,
    {
        CompressionMask(BitMask::new())
    }

    /// Creates a mask holding exactly the bits of `m`.
    pub fn from_mco(m: u32) -> (r: Self)
        ensures
            r.0.0 == m,
    {
        CompressionMask(BitMask::from(m))
    }

    /// Returns the raw bits of the mask.
    pub fn bits(&self) -> (r: u32)
        ensures
            r == self.0.0,
    {
        self.0.bit_mask()
    }

    /// Enables compression of object header pages.
    pub fn obj_head(&mut self, v: bool) -> (r: &mut Self)
        ensures
            (v ==> (*r).0.0 == (old(self).0.0 | 1u32)),
            (!v ==> (*r).0.0 == (old(self).0.0 & !1u32)),
            *final(self) == *final(r),
    {
        self.0.set_bit_value(1u32, v);
        self
    }

    /// Returns the current value of the flag.
    pub fn get_obj_head(&self) -> (r: bool)
        ensures
            r == ((self.0.0 & 1u32) != 0),
    {
        self.0.get_bit_value(1u32)
    }

    /// Enables compression of object node pages.
    pub fn obj_node(&mut self, v: bool) -> (r: &mut Self)
        ensures
            (v ==> (*r).0.0 == (old(self).0.0 | 2u32)),
            (!v ==> (*r).0.0 == (old(self).0.0 & !2u32)),
            *final(self) == *final(r),
    {
        self.0.set_bit_value(2u32, v);
        self
    }

    /// Returns the current value of the flag.
    pub fn get_obj_node(&self) -> (r: bool)
        ensures
            r == ((self.0.0 & 2u32) != 0),
    {
        self.0.get_bit_value(2u32)
    }

    /// Enables compression of blob header pages.
    pub fn blob_head(&mut self, v: bool) -> (r: &mut Self)
        ensures
            (v ==> (*r).0.0 == (old(self).0.0 | 4u32)),
            (!v ==> (*r).0.0 == (old(self).0.0 & !4u32)),
            *final(self) == *final(r),
    {
        self.0.set_bit_value(4u32, v);
        self
    }

    /// Returns the current value of the flag.
    pub fn get_blob_head(&self) -> (r: bool)
        ensures
            r == ((self.0.0 & 4u32) != 0),
    {
        self.0.get_bit_value(4u32)
    }

    /// Enables compression of blob tail pages.
    pub fn blob_tail(&mut self, v: bool) -> (r: &mut Self)
        ensures
            (v ==> (*r).0.0 == (old(self).0.0 | 8u32)),
            (!v ==> (*r).0.0 == (old(self).0.0 & !8u32)),
            *final(self) == *final(r),
    {
        self.0.set_bit_value(8u32, v);
        self
    }

    /// Returns the current value of the flag.
    pub fn get_blob_tail(&self) -> (r: bool)
        ensures
            r == ((self.0.0 & 8u32) != 0),
    {
        self.0.get_bit_value(8u32)
    }

    /// Enables compression of fixed record pages.
    pub fn fixed_rec_set(&mut self, v: bool) -> (r: &mut Self)
        ensures
            (v ==> (*r).0.0 == (old(self).0.0 | 16u32)),
            (!v ==> (*r).0.0 == (old(self).0.0 & !16u32)),
            *final(self) == *final(r),
    {
        self.0.set_bit_value(16u32, v);
        self
    }

    /// Returns the current value of the flag.
    pub fn get_fixed_rec_set(&self) -> (r: bool)
        ensures
            r == ((self.0.0 & 16u32) != 0),
    {
        self.0.get_bit_value(16u32)
    }

}

/// Database open mode mask.
#[derive(Clone, Copy, Debug, PartialEq, Eq, Structural)]
pub struct ModeMask(pub BitMask);

impl ModeMask {
    /// Creates a mask filled with zeroes.
    pub fn new() -> (r: Self)
        ensures
            r.0.0 == 0u32,
    {
        ModeMask(BitMask::new())
    }

    /// Creates a mask holding exactly the bits of `m`.
    pub fn from_mco(m: u32) -> (r: Self)
        ensures
            r.0.0 == m,
    {
        ModeMask(BitMask::from(m))
    }

    /// Returns the raw bits of the mask.
    pub fn bits(&self) -> (r: u32)
        ensures
            r == self.0.0,
    {
        self.0.bit_mask()
    }

    /// Enables automatic cleanup of stale versions under multi-version concurrency when the database is opened.
    pub fn mode_mvcc_auto_vacuum(&mut self, v: bool) -> (r: &mut Self)
        ensures
            (v ==> (*r).0.0 == (old(self).0.0 | 1u32)),
            (!v ==> (*r).0.0 == (old(self).0.0 & !1u32)),
            *final(self) == *final(r),
    {
        self.0.set_bit_value(1u32, v);
        self
    }

    /// Returns the current value of the flag.
    pub fn get_mode_mvcc_auto_vacuum(&self) -> (r: bool)
        ensures
            r == ((self.0.0 & 1u32) != 0),
    {
        self.0.get_bit_value(1u32)
    }

    /// Pre-sorts transaction data on the first declared index before inserting into indexes.
    pub fn mode_smart_index_insert(&mut self, v: bool) -> (r: &mut Self)
        ensures
            (v ==> (*r).0.0 == (old(self).0.0 | 2u32)),
            (!v ==> (*r).0.0 == (old(self).0.0 & !2u32)),
            *final(self) == *final(r),
    {
        self.0.set_bit_value(2u32, v);
        self
    }

    /// Returns the current value of the flag.
    pub fn get_mode_smart_index_insert(&self) -> (r: bool)
        ensures
            r == ((self.0.0 & 2u32) != 0),
    {
        self.0.get_bit_value(2u32)
    }

    /// Treats the database memory device as an already initialized memory space instead of initializing a fresh database.
    pub fn open_existing(&mut self, v: bool) -> (r: &mut Self)
        ensures
            (v ==> (*r).0.0 == (old(self).0.0 | 4u32)),
            (!v ==> (*r).0.0 == (old(self).0.0 & !4u32)),
            *final(self) == *final(r),
    {
        self.0.set_bit_value(4u32, v);
        self
    }

    /// Returns the current value of the flag.
    pub fn get_open_existing(&self) -> (r: bool)
        ensures
            r == ((self.0.0 & 4u32) != 0),
    {
        self.0.get_bit_value(4u32)
    }

    /// Calculates and stores a CRC for each database page.
    pub fn use_crc_check(&mut self, v: bool) -> (r: &mut Self)
        ensures
            (v ==> (*r).0.0 == (old(self).0.0 | 8u32)),
            (!v ==> (*r).0.0 == (old(self).0.0 & !8u32)),
            *final(self) == *final(r),
    {
        self.0.set_bit_value(8u32, v);
        self
    }

    /// Returns the current value of the flag.
    pub fn get_use_crc_check(&self) -> (r: bool)
        ensures
            r == ((self.0.0 & 8u32) != 0),
    {
        self.0.get_bit_value(8u32)
    }

    /// Forces all classes to be in-memory even if declared persistent in the schema.
    pub fn transient(&mut self, v: bool) -> (r: &mut Self)
        ensures
            (v ==> (*r).0.0 == (old(self).0.0 | 16u32)),
            (!v ==> (*r).0.0 == (old(self).0.0 & !16u32)),
            *final(self) == *final(r),
    {
        self.0.set_bit_value(16u32, v);
        self
    }

    /// Returns the current value of the flag.
    pub fn get_transient(&self) -> (r: bool)
        ensures
            r == ((self.0.0 & 16u32) != 0),
    {
        self.0.get_bit_value(16u32)
    }

    /// Enables on-demand initialization of memory pages.
    pub fn lazy_mem_initialization(&mut self, v: bool) -> (r: &mut Self)
        ensures
            (v ==> (*r).0.0 == (old(self).0.0 | 32u32)),
            (!v ==> (*r).0.0 == (old(self).0.0 & !32u32)),
            *final(self) == *final(r),
    {
        self.0.set_bit_value(32u32, v);
        self
    }

    /// Returns the current value of the flag.
    pub fn get_lazy_mem_initialization(&self) -> (r: bool)
        ensures
            r == ((self.0.0 & 32u32) != 0),
    {
        self.0.get_bit_value(32u32)
    }

    /// Saves modified pages and flushes the log outside the reader-blocking critical section under the single-writer manager.
    pub fn mursiw_disk_commit_optimization(&mut self, v: bool) -> (r: &mut Self)
        ensures
            (v ==> (*r).0.0 == (old(self).0.0 | 64u32)),
            (!v ==> (*r).0.0 == (old(self).0.0 & !64u32)),
            *final(self) == *final(r),
    {
        self.0.set_bit_value(64u32, v);
        self
    }

    /// Returns the current value of the flag.
    pub fn get_mursiw_disk_commit_optimization(&self) -> (r: bool)
        ensures
            r == ((self.0.0 & 64u32) != 0),
    {
        self.0.get_bit_value(64u32)
    }

    /// Sorts and writes all non-pinned dirty pages instead of a single page thrown out of the pool.
    pub fn bulk_write_modified_pages(&mut self, v: bool) -> (r: &mut Self)
        ensures
            (v ==> (*r).0.0 == (old(self).0.0 | 128u32)),
            (!v ==> (*r).0.0 == (old(self).0.0 & !128u32)),
            *final(self) == *final(r),
    {
        self.0.set_bit_value(128u32, v);
        self
    }

    /// Returns the current value of the flag.
    pub fn get_bulk_write_modified_pages(&self) -> (r: bool)
        ensures
            r == ((self.0.0 & 128u32) != 0),
    {
        self.0.get_bit_value(128u32)
    }

    /// Tries to preload the next index page with a read-ahead hint.
    pub fn index_preload(&mut self, v: bool) -> (r: &mut Self)
        ensures
            (v ==> (*r).0.0 == (old(self).0.0 | 512u32)),
            (!v ==> (*r).0.0 == (old(self).0.0 & !512u32)),
            *final(self) == *final(r),
    {
        self.0.set_bit_value(512u32, v);
        self
    }

    /// Returns the current value of the flag.
    pub fn get_index_preload(&self) -> (r: bool)
        ensures
            r == ((self.0.0 & 512u32) != 0),
    {
        self.0.get_bit_value(512u32)
    }

    /// Disables nested transactions.
    pub fn disable_nested_transactions(&mut self, v: bool) -> (r: &mut Self)
        ensures
            (v ==> (*r).0.0 == (old(self).0.0 | 1024u32)),
            (!v ==> (*r).0.0 == (old(self).0.0 & !1024u32)),
            *final(self) == *final(r),
    {
        self.0.set_bit_value(1024u32, v);
        self
    }

    /// Returns the current value of the flag.
    pub fn get_disable_nested_transactions(&self) -> (r: bool)
        ensures
            r == ((self.0.0 & 1024u32) != 0),
    {
        self.0.get_bit_value(1024u32)
    }

    /// Disables implicit rollback of active transactions on disconnect.
    pub fn disable_implicit_rollback(&mut self, v: bool) -> (r: &mut Self)
        ensures
            (v ==> (*r).0.0 == (old(self).0.0 | 2048u32)),
            (!v ==> (*r).0.0 == (old(self).0.0 & !2048u32)),
            *final(self) == *final(r),
    {
        self.0.set_bit_value(2048u32, v);
        self
    }

    /// Returns the current value of the flag.
    pub fn get_disable_implicit_rollback(&self) -> (r: bool)
        ensures
            r == ((self.0.0 & 2048u32) != 0),
    {
        self.0.get_bit_value(2048u32)
    }

    /// Enables page level encryption for in-memory databases.
    pub fn inmemory_protection(&mut self, v: bool) -> (r: &mut Self)
        ensures
            (v ==> (*r).0.0 == (old(self).0.0 | 4096u32)),
            (!v ==> (*r).0.0 == (old(self).0.0 & !4096u32)),
            *final(self) == *final(r),
    {
        self.0.set_bit_value(4096u32, v);
        self
    }

    /// Returns the current value of the flag.
    pub fn get_inmemory_protection(&self) -> (r: bool)
        ensures
            r == ((self.0.0 & 4096u32) != 0),
    {
        self.0.get_bit_value(4096u32)
    }

    /// Keeps index upper levels cache-resident for performance.
    pub fn inclusive_btree(&mut self, v: bool) -> (r: &mut Self)
        ensures
            (v ==> (*r).0.0 == (old(self).0.0 | 8192u32)),
            (!v ==> (*r).0.0 == (old(self).0.0 & !8192u32)),
            *final(self) == *final(r),
    {
        self.0.set_bit_value(8192u32, v);
        self
    }

    /// Returns the current value of the flag.
    pub fn get_inclusive_btree(&self) -> (r: bool)
        ensures
            r == ((self.0.0 & 8192u32) != 0),
    {
        self.0.get_bit_value(8192u32)
    }

    /// Enables page compression for in-memory databases.
    pub fn inmemory_compression(&mut self, v: bool) -> (r: &mut Self)
        ensures
            (v ==> (*r).0.0 == (old(self).0.0 | 16384u32)),
            (!v ==> (*r).0.0 == (old(self).0.0 & !16384u32)),
            *final(self) == *final(r),
    {
        self.0.set_bit_value(16384u32, v);
        self
    }

    /// Returns the current value of the flag.
    pub fn get_inmemory_compression(&self) -> (r: bool)
        ensures
            r == ((self.0.0 & 16384u32) != 0),
    {
        self.0.get_bit_value(16384u32)
    }

    /// Uses separate allocation bitmap pages for aligned and unaligned objects.
    pub fn separate_bitmap(&mut self, v: bool) -> (r: &mut Self)
        ensures
            (v ==> (*r).0.0 == (old(self).0.0 | 32768u32)),
            (!v ==> (*r).0.0 == (old(self).0.0 & !32768u32)),
            *final(self) == *final(r),
    {
        self.0.set_bit_value(32768u32, v);
        self
    }

    /// Returns the current value of the flag.
    pub fn get_separate_bitmap(&self) -> (r: bool)
        ensures
            r == ((self.0.0 & 32768u32) != 0),
    {
        self.0.get_bit_value(32768u32)
    }

    /// Disables index rebalancing when deleting objects: faster deletes, larger trees.
    pub fn disable_btree_rebalance_on_delete(&mut self, v: bool) -> (r: &mut Self)
        ensures
            (v ==> (*r).0.0 == (old(self).0.0 | 65536u32)),
            (!v ==> (*r).0.0 == (old(self).0.0 & !65536u32)),
            *final(self) == *final(r),
    {
        self.0.set_bit_value(65536u32, v);
        self
    }

    /// Returns the current value of the flag.
    pub fn get_disable_btree_rebalance_on_delete(&self) -> (r: bool)
        ensures
            r == ((self.0.0 & 65536u32) != 0),
    {
        self.0.get_bit_value(65536u32)
    }

    /// Rolls the transaction back implicitly when the first stage of a two-phase commit fails.
    pub fn auto_rollback_first_phase(&mut self, v: bool) -> (r: &mut Self)
        ensures
            (v ==> (*r).0.0 == (old(self).0.0 | 131072u32)),
            (!v ==> (*r).0.0 == (old(self).0.0 & !131072u32)),
            *final(self) == *final(r),
    {
        self.0.set_bit_value(131072u32, v);
        self
    }

    /// Returns the current value of the flag.
    pub fn get_auto_rollback_first_phase(&self) -> (r: bool)
        ensures
            r == ((self.0.0 & 131072u32) != 0),
    {
        self.0.get_bit_value(131072u32)
    }

    /// Opens a database created under the multi-version manager with the single-writer manager.
    pub fn mvcc_compatibility_mode(&mut self, v: bool) -> (r: &mut Self)
        ensures
            (v ==> (*r).0.0 == (old(self).0.0 | 262144u32)),
            (!v ==> (*r).0.0 == (old(self).0.0 & !262144u32)),
            *final(self) == *final(r),
    {
        self.0.set_bit_value(262144u32, v);
        self
    }

    /// Returns the current value of the flag.
    pub fn get_mvcc_compatibility_mode(&self) -> (r: bool)
        ensures
            r == ((self.0.0 & 262144u32) != 0),
    {
        self.0.get_bit_value(262144u32)
    }

    /// Allows transactions larger than the page pool under a redo log.
    pub fn redo_log_optimization(&mut self, v: bool) -> (r: &mut Self)
        ensures
            (v ==> (*r).0.0 == (old(self).0.0 | 1048576u32)),
            (!v ==> (*r).0.0 == (old(self).0.0 & !1048576u32)),
            *final(self) == *final(r),
    {
        self.0.set_bit_value(1048576u32, v);
        self
    }

    /// Returns the current value of the flag.
    pub fn get_redo_log_optimization(&self) -> (r: bool)
        ensures
            r == ((self.0.0 & 1048576u32) != 0),
    {
        self.0.get_bit_value(1048576u32)
    }

    /// Skips index updates when an update does not modify index keys.
    pub fn disable_hot_updates(&mut self, v: bool) -> (r: &mut Self)
        ensures
            (v ==> (*r).0.0 == (old(self).0.0 | 2097152u32)),
            (!v ==> (*r).0.0 == (old(self).0.0 & !2097152u32)),
            *final(self) == *final(r),
    {
        self.0.set_bit_value(2097152u32, v);
        self
    }

    /// Returns the current value of the flag.
    pub fn get_disable_hot_updates(&self) -> (r: bool)
        ensures
            r == ((self.0.0 & 2097152u32) != 0),
    {
        self.0.get_bit_value(2097152u32)
    }

    /// Inserts newly created objects into indexes immediately, without an explicit checkpoint.
    pub fn sql_autocheckpoint(&mut self, v: bool) -> (r: &mut Self)
        ensures
            (v ==> (*r).0.0 == (old(self).0.0 | 4194304u32)),
            (!v ==> (*r).0.0 == (old(self).0.0 & !4194304u32)),
            *final(self) == *final(r),
    {
        self.0.set_bit_value(4194304u32, v);
        self
    }

    /// Returns the current value of the flag.
    pub fn get_sql_autocheckpoint(&self) -> (r: bool)
        ensures
            r == ((self.0.0 & 4194304u32) != 0),
    {
        self.0.get_bit_value(4194304u32)
    }

    /// Opens the database in read-only mode.
    pub fn mode_read_only(&mut self, v: bool) -> (r: &mut Self)
        ensures
            (v ==> (*r).0.0 == (old(self).0.0 | 8388608u32)),
            (!v ==> (*r).0.0 == (old(self).0.0 & !8388608u32)),
            *final(self) == *final(r),
    {
        self.0.set_bit_value(8388608u32, v);
        self
    }

    /// Returns the current value of the flag.
    pub fn get_mode_read_only(&self) -> (r: bool)
        ensures
            r == ((self.0.0 & 8388608u32) != 0),
    {
        self.0.get_bit_value(8388608u32)
    }

    /// Uses asynchronous I/O for persistent database writes.
    pub fn use_aio(&mut self, v: bool) -> (r: &mut Self)
        ensures
            (v ==> (*r).0.0 == (old(self).0.0 | 16777216u32)),
            (!v ==> (*r).0.0 == (old(self).0.0 & !16777216u32)),
            *final(self) == *final(r),
    {
        self.0.set_bit_value(16777216u32, v);
        self
    }

    /// Returns the current value of the flag.
    pub fn get_use_aio(&self) -> (r: bool)
        ensures
            r == ((self.0.0 & 16777216u32) != 0),
    {
        self.0.get_bit_value(16777216u32)
    }

    /// Enables the marking of pages for incremental backup.
    pub fn incremental_backup(&mut self, v: bool) -> (r: &mut Self)
        ensures
            (v ==> (*r).0.0 == (old(self).0.0 | 33554432u32)),
            (!v ==> (*r).0.0 == (old(self).0.0 & !33554432u32)),
            *final(self) == *final(r),
    {
        self.0.set_bit_value(33554432u32, v);
        self
    }

    /// Returns the current value of the flag.
    pub fn get_incremental_backup(&self) -> (r: bool)
        ensures
            r == ((self.0.0 & 33554432u32) != 0),
    {
        self.0.get_bit_value(33554432u32)
    }

    /// Locks whole table spaces instead of instances under multi-version concurrency.
    pub fn mvcc_table_level_locking(&mut self, v: bool) -> (r: &mut Self)
        ensures
            (v ==> (*r).0.0 == (old(self).0.0 | 134217728u32)),
            (!v ==> (*r).0.0 == (old(self).0.0 & !134217728u32)),
            *final(self) == *final(r),
    {
        self.0.set_bit_value(134217728u32, v);
        self
    }

    /// Returns the current value of the flag.
    pub fn get_mvcc_table_level_locking(&self) -> (r: bool)
        ensures
            r == ((self.0.0 & 134217728u32) != 0),
    {
        self.0.get_bit_value(134217728u32)
    }

    /// Allocates space by the default quantum instead of the statistics-informed average object size.
    pub fn disable_smart_alloc(&mut self, v: bool) -> (r: &mut Self)
        ensures
            (v ==> (*r).0.0 == (old(self).0.0 | 268435456u32)),
            (!v ==> (*r).0.0 == (old(self).0.0 & !268435456u32)),
            *final(self) == *final(r),
    {
        self.0.set_bit_value(268435456u32, v);
        self
    }

    /// Returns the current value of the flag.
    pub fn get_disable_smart_alloc(&self) -> (r: bool)
        ensures
            r == ((self.0.0 & 268435456u32) != 0),
    {
        self.0.get_bit_value(268435456u32)
    }

}

/// Database parameters.
pub struct Params {
    /// Holds the size of the memory page for conventional and shared memory devices.
    pub mem_page_size_v: u16,
    /// Holds the size of the persistent storage page.
    pub disk_page_size_v: u32,
    /// Holds the maximum number of connections to this database.
    pub db_max_connections_v: u32,
    /// Holds the maximum size of the persistent database.
    pub disk_max_database_size_v: u64,
    /// Holds the allocation block size used when growing the database file.
    pub file_extension_quantum_v: u64,
    /// Holds the factor that decides when a hash index table is extended.
    pub hash_load_factor_v: u16,
    /// Holds the maximum number of active write transactions under optimistic index locking.
    pub index_optimistic_lock_threshold_v: u16,
    /// Holds the minimum number of pages held by the per-connection allocator under multi-version concurrency.
    pub min_conn_local_pages_v: u32,
    /// Holds the maximum number of pages held by the per-connection allocator under multi-version concurrency.
    pub max_conn_local_pages_v: u32,
    /// Holds the cache priority of allocation bitmap pages.
    pub allocation_bitmap_caching_priority_v: u32,
    /// Holds the cache priority of index pages.
    pub index_caching_priority_v: u32,
    /// Holds the cache priority of database objects excluding blobs.
    pub object_caching_priority_v: u32,
    /// Holds the space reserved for the dictionary to allow dynamic schema modification.
    pub ddl_dict_size_v: u64,
    /// Holds the space reserved for classes to allow dynamic schema modification.
    pub max_classes_v: i32,
    /// Holds the space reserved for indexes to allow dynamic schema modification.
    pub max_indexes_v: i32,
    /// Holds the object size threshold that triggers automatic de-fragmentation on commit.
    pub autocompact_threshold_v: u64,
    /// Holds the maximum transaction time, used by debugging builds only.
    pub max_trans_time_v: u64,
    /// Holds the maximum number of pages in the internal page hash.
    pub max_active_pages_v: u32,
    /// Holds the number of bundles in the internal page hash.
    pub page_hash_bundles_v: u32,
    /// Holds the compression level.
    pub compression_level_v: i32,
    /// Holds the expected compression ratio controlling page map allocation.
    pub expected_compression_ratio_v: u32,
    /// Holds the number of keys taken from an index leaf per access.
    pub btree_cursor_read_ahead_size_v: u8,
    /// Holds the size of the internal bitmap of the multi-version manager.
    pub mvcc_bitmap_size_v: u32,
    /// Holds the heap memory used by internal functions.
    pub additional_heap_size_v: u32,
    /// Holds the size of the copy-on-write page map.
    pub cow_pagemap_size_v: u64,
    /// Holds the size of the backup counters array.
    pub backup_map_size_v: u64,
    /// Holds the number of pages of the last exclusive backup pass.
    pub backup_min_pages_v: u32,
    /// Holds the maximum number of passes before the exclusive backup pass.
    pub backup_max_passes_v: u32,
    /// Holds the IoT agent identifier.
    pub iot_agent_id_v: u64,
    /// Holds the IoT router level, overriding the schema.
    pub iot_level_v: u16,
    /// Holds the delay in milliseconds between backup block writes.
    pub file_backup_delay_v: u32,
    /// Holds the database log type.
    pub db_log_type_v: LogType,
    /// Holds the connection context size reserved for recovery.
    pub connection_context_size_v: u16,
    /// Holds the log parameters.
    pub log_params_v: LogParams,
    /// Holds the mode mask.
    pub mode_mask_v: u32,
    /// Holds the cipher key enabling database encryption.
    pub cipher_key_v: Option<String>,
    /// Holds whether the dynamic hash table extension is enabled.
    pub dynamic_hash_v: bool,
    /// Holds the license key.
    pub license_key_v: Option<String>,
    /// Holds the transaction scheduling policy.
    pub trans_sched_policy_v: TransSchedPolicy,
    /// Holds the concurrency policy.
    pub trans_policy_v: TransPolicy,
    /// Holds the compression mask bits.
    pub compression_mask_v: u32,
    /// Holds the name of the temporary backup data storage file.
    pub backup_map_filename_v: String,
}
impl Params {
    /// Returns a parameters structure initialized with default values:
    /// a 256-byte memory page, a 4096-byte disk page, one hundred
    /// connections, no log, synchronous commits under the single-writer
    /// concurrency policy, and first-in-first-out scheduling.
    pub fn new() -> (r: Self)
        ensures
            r.mem_page_size_v == 256,
            r.disk_page_size_v == 4096,
            r.db_max_connections_v == 100,
            r.db_log_type_v == LogType::NoLog,
            r.log_params_v == (LogParams {
                default_commit_policy_v: CommitPolicy::SyncFlush,
                redo_log_limit_v: 0x100_0000u64,
                delayed_commit_threshold_v: 0u64,
                max_delayed_transactions_v: 0u32,
                max_commit_delay_v: 0u32,
            }),
            r.trans_sched_policy_v == TransSchedPolicy::FIFO,
            r.trans_policy_v == TransPolicy::Mursiw,
            r.ddl_dict_size_v == 0,
            r.max_classes_v == 0,
            r.max_indexes_v == 0,
            r.mode_mask_v == 0,
            r.compression_mask_v == 0,
            r.cipher_key_v is None,
            r.license_key_v is None,
            r.dynamic_hash_v == false,
            r.connection_context_size_v == 0,
            r.backup_map_filename_v@ == Seq::<char>::empty(),
    {
        Params {
            mem_page_size_v: 256,
            disk_page_size_v: 4096,
            db_max_connections_v: 100,
            disk_max_database_size_v: 0,
            file_extension_quantum_v: 0,
            hash_load_factor_v: 0,
            index_optimistic_lock_threshold_v: 0,
            min_conn_local_pages_v: 0,
            max_conn_local_pages_v: 0,
            allocation_bitmap_caching_priority_v: 0,
            index_caching_priority_v: 0,
            object_caching_priority_v: 0,
            ddl_dict_size_v: 0,
            max_classes_v: 0,
            max_indexes_v: 0,
            autocompact_threshold_v: 0,
            max_trans_time_v: 0,
            max_active_pages_v: 0,
            page_hash_bundles_v: 0,
            compression_level_v: 0,
            expected_compression_ratio_v: 0,
            btree_cursor_read_ahead_size_v: 0,
            mvcc_bitmap_size_v: 0,
            additional_heap_size_v: 0,
            cow_pagemap_size_v: 0,
            backup_map_size_v: 0,
            backup_min_pages_v: 0,
            backup_max_passes_v: 0,
            iot_agent_id_v: 0,
            iot_level_v: 0,
            file_backup_delay_v: 0,
            db_log_type_v: LogType::NoLog,
            connection_context_size_v: 0,
            log_params_v: LogParams {
                default_commit_policy_v: CommitPolicy::SyncFlush,
                redo_log_limit_v: 0x100_0000,
                delayed_commit_threshold_v: 0,
                max_delayed_transactions_v: 0,
                max_commit_delay_v: 0,
            },
            mode_mask_v: 0,
            cipher_key_v: None,
            dynamic_hash_v: false,
            license_key_v: None,
            trans_sched_policy_v: TransSchedPolicy::FIFO,
            trans_policy_v: TransPolicy::Mursiw,
            compression_mask_v: 0,
            backup_map_filename_v: String::new(),
        }
    }

    /// Sets mem_page_size.
    pub fn mem_page_size(&mut self, mem_page_size: u16) -> (r: &mut Self)
        ensures
            (*r) == (Params { mem_page_size_v: mem_page_size, ..*old(self) }),
            *final(self) == *final(r),
    {
        self.mem_page_size_v = mem_page_size;
        self
    }

    /// Returns the current value of the parameter.
    pub fn get_mem_page_size(&self) -> (r: u16)
        ensures
            r == self.mem_page_size_v,
    {
        self.mem_page_size_v
    }

    /// Sets disk_page_size.
    pub fn disk_page_size(&mut self, disk_page_size: u32) -> (r: &mut Self)
        ensures
            (*r) == (Params { disk_page_size_v: disk_page_size, ..*old(self) }),
            *final(self) == *final(r),
    {
        self.disk_page_size_v = disk_page_size;
        self
    }

    /// Returns the current value of the parameter.
    pub fn get_disk_page_size(&self) -> (r: u32)
        ensures
            r == self.disk_page_size_v,
    {
        self.disk_page_size_v
    }

    /// Sets db_max_connections.
    pub fn db_max_connections(&mut self, db_max_connections: u32) -> (r: &mut Self)
        ensures
            (*r) == (Params { db_max_connections_v: db_max_connections, ..*old(self) }),
            *final(self) == *final(r),
    {
        self.db_max_connections_v = db_max_connections;
        self
    }

    /// Returns the current value of the parameter.
    pub fn get_db_max_connections(&self) -> (r: u32)
        ensures
            r == self.db_max_connections_v,
    {
        self.db_max_connections_v
    }

    /// Sets disk_max_database_size.
    pub fn disk_max_database_size(&mut self, disk_max_database_size: u64) -> (r: &mut Self)
        ensures
            (*r) == (Params { disk_max_database_size_v: disk_max_database_size, ..*old(self) }),
            *final(self) == *final(r),
    {
        self.disk_max_database_size_v = disk_max_database_size;
        self
    }

    /// Returns the current value of the parameter.
    pub fn get_disk_max_database_size(&self) -> (r: u64)
        ensures
            r == self.disk_max_database_size_v,
    {
        self.disk_max_database_size_v
    }

    /// Sets file_extension_quantum.
    pub fn file_extension_quantum(&mut self, file_extension_quantum: u64) -> (r: &mut Self)
        ensures
            (*r) == (Params { file_extension_quantum_v: file_extension_quantum, ..*old(self) }),
            *final(self) == *final(r),
    {
        self.file_extension_quantum_v = file_extension_quantum;
        self
    }

    /// Returns the current value of the parameter.
    pub fn get_file_extension_quantum(&self) -> (r: u64)
        ensures
            r == self.file_extension_quantum_v,
    {
        self.file_extension_quantum_v
    }

    /// Sets hash_load_factor.
    pub fn hash_load_factor(&mut self, hash_load_factor: u16) -> (r: &mut Self)
        ensures
            (*r) == (Params { hash_load_factor_v: hash_load_factor, ..*old(self) }),
            *final(self) == *final(r),
    {
        self.hash_load_factor_v = hash_load_factor;
        self
    }

    /// Returns the current value of the parameter.
    pub fn get_hash_load_factor(&self) -> (r: u16)
        ensures
            r == self.hash_load_factor_v,
    {
        self.hash_load_factor_v
    }

    /// Sets index_optimistic_lock_threshold.
    pub fn index_optimistic_lock_threshold(&mut self, index_optimistic_lock_threshold: u16) -> (r: &mut Self)
        ensures
            (*r) == (Params { index_optimistic_lock_threshold_v: index_optimistic_lock_threshold, ..*old(self) }),
            *final(self) == *final(r),
    {
        self.index_optimistic_lock_threshold_v = index_optimistic_lock_threshold;
        self
    }

    /// Returns the current value of the parameter.
    pub fn get_index_optimistic_lock_threshold(&self) -> (r: u16)
        ensures
            r == self.index_optimistic_lock_threshold_v,
    {
        self.index_optimistic_lock_threshold_v
    }

    /// Sets min_conn_local_pages.
    pub fn min_conn_local_pages(&mut self, min_conn_local_pages: u32) -> (r: &mut Self)
        ensures
            (*r) == (Params { min_conn_local_pages_v: min_conn_local_pages, ..*old(self) }),
            *final(self) == *final(r),
    {
        self.min_conn_local_pages_v = min_conn_local_pages;
        self
    }

    /// Returns the current value of the parameter.
    pub fn get_min_conn_local_pages(&self) -> (r: u32)
        ensures
            r == self.min_conn_local_pages_v,
    {
        self.min_conn_local_pages_v
    }

    /// Sets max_conn_local_pages.
    pub fn max_conn_local_pages(&mut self, max_conn_local_pages: u32) -> (r: &mut Self)
        ensures
            (*r) == (Params { max_conn_local_pages_v: max_conn_local_pages, ..*old(self) }),
            *final(self) == *final(r),
    {
        self.max_conn_local_pages_v = max_conn_local_pages;
        self
    }

    /// Returns the current value of the parameter.
    pub fn get_max_conn_local_pages(&self) -> (r: u32)
        ensures
            r == self.max_conn_local_pages_v,
    {
        self.max_conn_local_pages_v
    }

    /// Sets allocation_bitmap_caching_priority.
    pub fn allocation_bitmap_caching_priority(&mut self, allocation_bitmap_caching_priority: u32) -> (r: &mut Self)
        ensures
            (*r) == (Params { allocation_bitmap_caching_priority_v: allocation_bitmap_caching_priority, ..*old(self) }),
            *final(self) == *final(r),
    {
        self.allocation_bitmap_caching_priority_v = allocation_bitmap_caching_priority;
        self
    }

    /// Returns the current value of the parameter.
    pub fn get_allocation_bitmap_caching_priority(&self) -> (r: u32)
        ensures
            r == self.allocation_bitmap_caching_priority_v,
    {
        self.allocation_bitmap_caching_priority_v
    }

    /// Sets index_caching_priority.
    pub fn index_caching_priority(&mut self, index_caching_priority: u32) -> (r: &mut Self)
        ensures
            (*r) == (Params { index_caching_priority_v: index_caching_priority, ..*old(self) }),
            *final(self) == *final(r),
    {
        self.index_caching_priority_v = index_caching_priority;
        self
    }

    /// Returns the current value of the parameter.
    pub fn get_index_caching_priority(&self) -> (r: u32)
        ensures
            r == self.index_caching_priority_v,
    {
        self.index_caching_priority_v
    }

    /// Sets object_caching_priority.
    pub fn object_caching_priority(&mut self, object_caching_priority: u32) -> (r: &mut Self)
        ensures
            (*r) == (Params { object_caching_priority_v: object_caching_priority, ..*old(self) }),
            *final(self) == *final(r),
    {
        self.object_caching_priority_v = object_caching_priority;
        self
    }

    /// Returns the current value of the parameter.
    pub fn get_object_caching_priority(&self) -> (r: u32)
        ensures
            r == self.object_caching_priority_v,
    {
        self.object_caching_priority_v
    }

    /// Sets ddl_dict_size.
    pub fn ddl_dict_size(&mut self, ddl_dict_size: u64) -> (r: &mut Self)
        ensures
            (*r) == (Params { ddl_dict_size_v: ddl_dict_size, ..*old(self) }),
            *final(self) == *final(r),
    {
        self.ddl_dict_size_v = ddl_dict_size;
        self
    }

    /// Returns the current value of the parameter.
    pub fn get_ddl_dict_size(&self) -> (r: u64)
        ensures
            r == self.ddl_dict_size_v,
    {
        self.ddl_dict_size_v
    }

    /// Sets max_classes.
    pub fn max_classes(&mut self, max_classes: i32) -> (r: &mut Self)
        ensures
            (*r) == (Params { max_classes_v: max_classes, ..*old(self) }),
            *final(self) == *final(r),
    {
        self.max_classes_v = max_classes;
        self
    }

    /// Returns the current value of the parameter.
    pub fn get_max_classes(&self) -> (r: i32)
        ensures
            r == self.max_classes_v,
    {
        self.max_classes_v
    }

    /// Sets max_indexes.
    pub fn max_indexes(&mut self, max_indexes: i32) -> (r: &mut Self)
        ensures
            (*r) == (Params { max_indexes_v: max_indexes, ..*old(self) }),
            *final(self) == *final(r),
    {
        self.max_indexes_v = max_indexes;
        self
    }

    /// Returns the current value of the parameter.
    pub fn get_max_indexes(&self) -> (r: i32)
        ensures
            r == self.max_indexes_v,
    {
        self.max_indexes_v
    }

    /// Sets autocompact_threshold.
    pub fn autocompact_threshold(&mut self, autocompact_threshold: u64) -> (r: &mut Self)
        ensures
            (*r) == (Params { autocompact_threshold_v: autocompact_threshold, ..*old(self) }),
            *final(self) == *final(r),
    {
        self.autocompact_threshold_v = autocompact_threshold;
        self
    }

    /// Returns the current value of the parameter.
    pub fn get_autocompact_threshold(&self) -> (r: u64)
        ensures
            r == self.autocompact_threshold_v,
    {
        self.autocompact_threshold_v
    }

    /// Sets max_trans_time.
    pub fn max_trans_time(&mut self, max_trans_time: u64) -> (r: &mut Self)
        ensures
            (*r) == (Params { max_trans_time_v: max_trans_time, ..*old(self) }),
            *final(self) == *final(r),
    {
        self.max_trans_time_v = max_trans_time;
        self
    }

    /// Returns the current value of the parameter.
    pub fn get_max_trans_time(&self) -> (r: u64)
        ensures
            r == self.max_trans_time_v,
    {
        self.max_trans_time_v
    }

    /// Sets max_active_pages.
    pub fn max_active_pages(&mut self, max_active_pages: u32) -> (r: &mut Self)
        ensures
            (*r) == (Params { max_active_pages_v: max_active_pages, ..*old(self) }),
            *final(self) == *final(r),
    {
        self.max_active_pages_v = max_active_pages;
        self
    }

    /// Returns the current value of the parameter.
    pub fn get_max_active_pages(&self) -> (r: u32)
        ensures
            r == self.max_active_pages_v,
    {
        self.max_active_pages_v
    }

    /// Sets page_hash_bundles.
    pub fn page_hash_bundles(&mut self, page_hash_bundles: u32) -> (r: &mut Self)
        ensures
            (*r) == (Params { page_hash_bundles_v: page_hash_bundles, ..*old(self) }),
            *final(self) == *final(r),
    {
        self.page_hash_bundles_v = page_hash_bundles;
        self
    }

    /// Returns the current value of the parameter.
    pub fn get_page_hash_bundles(&self) -> (r: u32)
        ensures
            r == self.page_hash_bundles_v,
    {
        self.page_hash_bundles_v
    }

    /// Sets compression_level.
    pub fn compression_level(&mut self, compression_level: i32) -> (r: &mut Self)
        ensures
            (*r) == (Params { compression_level_v: compression_level, ..*old(self) }),
            *final(self) == *final(r),
    {
        self.compression_level_v = compression_level;
        self
    }

    /// Returns the current value of the parameter.
    pub fn get_compression_level(&self) -> (r: i32)
        ensures
            r == self.compression_level_v,
    {
        self.compression_level_v
    }

    /// Sets expected_compression_ratio.
    pub fn expected_compression_ratio(&mut self, expected_compression_ratio: u32) -> (r: &mut Self)
        ensures
            (*r) == (Params { expected_compression_ratio_v: expected_compression_ratio, ..*old(self) }),
            *final(self) == *final(r),
    {
        self.expected_compression_ratio_v = expected_compression_ratio;
        self
    }

    /// Returns the current value of the parameter.
    pub fn get_expected_compression_ratio(&self) -> (r: u32)
        ensures
            r == self.expected_compression_ratio_v,
    {
        self.expected_compression_ratio_v
    }

    /// Sets btree_cursor_read_ahead_size.
    pub fn btree_cursor_read_ahead_size(&mut self, btree_cursor_read_ahead_size: u8) -> (r: &mut Self)
        ensures
            (*r) == (Params { btree_cursor_read_ahead_size_v: btree_cursor_read_ahead_size, ..*old(self) }),
            *final(self) == *final(r),
    {
        self.btree_cursor_read_ahead_size_v = btree_cursor_read_ahead_size;
        self
    }

    /// Returns the current value of the parameter.
    pub fn get_btree_cursor_read_ahead_size(&self) -> (r: u8)
        ensures
            r == self.btree_cursor_read_ahead_size_v,
    {
        self.btree_cursor_read_ahead_size_v
    }

    /// Sets mvcc_bitmap_size.
    pub fn mvcc_bitmap_size(&mut self, mvcc_bitmap_size: u32) -> (r: &mut Self)
        ensures
            (*r) == (Params { mvcc_bitmap_size_v: mvcc_bitmap_size, ..*old(self) }),
            *final(self) == *final(r),
    {
        self.mvcc_bitmap_size_v = mvcc_bitmap_size;
        self
    }

    /// Returns the current value of the parameter.
    pub fn get_mvcc_bitmap_size(&self) -> (r: u32)
        ensures
            r == self.mvcc_bitmap_size_v,
    {
        self.mvcc_bitmap_size_v
    }

    /// Sets additional_heap_size.
    pub fn additional_heap_size(&mut self, additional_heap_size: u32) -> (r: &mut Self)
        ensures
            (*r) == (Params { additional_heap_size_v: additional_heap_size, ..*old(self) }),
            *final(self) == *final(r),
    {
        self.additional_heap_size_v = additional_heap_size;
        self
    }

    /// Returns the current value of the parameter.
    pub fn get_additional_heap_size(&self) -> (r: u32)
        ensures
            r == self.additional_heap_size_v,
    {
        self.additional_heap_size_v
    }

    /// Sets cow_pagemap_size.
    pub fn cow_pagemap_size(&mut self, cow_pagemap_size: u64) -> (r: &mut Self)
        ensures
            (*r) == (Params { cow_pagemap_size_v: cow_pagemap_size, ..*old(self) }),
            *final(self) == *final(r),
    {
        self.cow_pagemap_size_v = cow_pagemap_size;
        self
    }

    /// Returns the current value of the parameter.
    pub fn get_cow_pagemap_size(&self) -> (r: u64)
        ensures
            r == self.cow_pagemap_size_v,
    {
        self.cow_pagemap_size_v
    }

    /// Sets backup_map_size.
    pub fn backup_map_size(&mut self, backup_map_size: u64) -> (r: &mut Self)
        ensures
            (*r) == (Params { backup_map_size_v: backup_map_size, ..*old(self) }),
            *final(self) == *final(r),
    {
        self.backup_map_size_v = backup_map_size;
        self
    }

    /// Returns the current value of the parameter.
    pub fn get_backup_map_size(&self) -> (r: u64)
        ensures
            r == self.backup_map_size_v,
    {
        self.backup_map_size_v
    }

    /// Sets backup_min_pages.
    pub fn backup_min_pages(&mut self, backup_min_pages: u32) -> (r: &mut Self)
        ensures
            (*r) == (Params { backup_min_pages_v: backup_min_pages, ..*old(self) }),
            *final(self) == *final(r),
    {
        self.backup_min_pages_v = backup_min_pages;
        self
    }

    /// Returns the current value of the parameter.
    pub fn get_backup_min_pages(&self) -> (r: u32)
        ensures
            r == self.backup_min_pages_v,
    {
        self.backup_min_pages_v
    }

    /// Sets backup_max_passes.
    pub fn backup_max_passes(&mut self, backup_max_passes: u32) -> (r: &mut Self)
        ensures
            (*r) == (Params { backup_max_passes_v: backup_max_passes, ..*old(self) }),
            *final(self) == *final(r),
    {
        self.backup_max_passes_v = backup_max_passes;
        self
    }

    /// Returns the current value of the parameter.
    pub fn get_backup_max_passes(&self) -> (r: u32)
        ensures
            r == self.backup_max_passes_v,
    {
        self.backup_max_passes_v
    }

    /// Sets iot_agent_id.
    pub fn iot_agent_id(&mut self, iot_agent_id: u64) -> (r: &mut Self)
        ensures
            (*r) == (Params { iot_agent_id_v: iot_agent_id, ..*old(self) }),
            *final(self) == *final(r),
    {
        self.iot_agent_id_v = iot_agent_id;
        self
    }

    /// Returns the current value of the parameter.
    pub fn get_iot_agent_id(&self) -> (r: u64)
        ensures
            r == self.iot_agent_id_v,
    {
        self.iot_agent_id_v
    }

    /// Sets iot_level.
    pub fn iot_level(&mut self, iot_level: u16) -> (r: &mut Self)
        ensures
            (*r) == (Params { iot_level_v: iot_level, ..*old(self) }),
            *final(self) == *final(r),
    {
        self.iot_level_v = iot_level;
        self
    }

    /// Returns the current value of the parameter.
    pub fn get_iot_level(&self) -> (r: u16)
        ensures
            r == self.iot_level_v,
    {
        self.iot_level_v
    }

    /// Sets file_backup_delay.
    pub fn file_backup_delay(&mut self, file_backup_delay: u32) -> (r: &mut Self)
        ensures
            (*r) == (Params { file_backup_delay_v: file_backup_delay, ..*old(self) }),
            *final(self) == *final(r),
    {
        self.file_backup_delay_v = file_backup_delay;
        self
    }

    /// Returns the current value of the parameter.
    pub fn get_file_backup_delay(&self) -> (r: u32)
        ensures
            r == self.file_backup_delay_v,
    {
        self.file_backup_delay_v
    }

    /// Sets the database log type.
    pub fn db_log_type(&mut self, db_log_type: LogType) -> (r: &mut Self)
        ensures
            (*r) == (Params { db_log_type_v: db_log_type, ..*old(self) }),
            *final(self) == *final(r),
    {
        self.db_log_type_v = db_log_type;
        self
    }

    /// Returns the current value of the parameter.
    pub fn get_db_log_type(&self) -> (r: LogType)
        ensures
            r == self.db_log_type_v,
    {
        self.db_log_type_v
    }

    /// Reserves room in the connection structure for the recovery
    /// process to verify that the task that created a connection is
    /// alive.
    pub fn connection_context_size_for_recovery(&mut self, enable: bool) -> (r: &mut Self)
        ensures
            (*r) == (Params { connection_context_size_v: (if enable { 8u16 } else { 0u16 }), ..*old(self) }),
            *final(self) == *final(r),
    {
        if enable {
            self.connection_context_size_v = 8;
        } else {
            self.connection_context_size_v = 0;
        }
        self
    }

    /// Returns the current value of the parameter.
    pub fn get_connection_context_size(&self) -> (r: u16)
        ensures
            r == self.connection_context_size_v,
    {
        self.connection_context_size_v
    }

    /// Sets the log parameters.
    pub fn log_params(&mut self, log_params: LogParams) -> (r: &mut Self)
        ensures
            (*r) == (Params { log_params_v: log_params, ..*old(self) }),
            *final(self) == *final(r),
    {
        self.log_params_v = log_params;
        self
    }

    /// Returns the current value of the parameter.
    pub fn get_log_params(&self) -> (r: LogParams)
        ensures
            r == self.log_params_v,
    {
        self.log_params_v
    }

    /// Sets the mode mask.
    pub fn mode_mask(&mut self, mode_mask: ModeMask) -> (r: &mut Self)
        ensures
            (*r) == (Params { mode_mask_v: mode_mask.0.0, ..*old(self) }),
            *final(self) == *final(r),
    {
        self.mode_mask_v = mode_mask.0.bit_mask();
        self
    }

    /// Returns the current value of the parameter.
    pub fn get_mode_mask(&self) -> (r: ModeMask)
        ensures
            r.0.0 == self.mode_mask_v,
    {
        ModeMask::from_mco(self.mode_mask_v)
    }

    /// Sets the compression mask: the page classes to be compressed.
    pub fn compression_mask(&mut self, compression_mask: CompressionMask) -> (r: &mut Self)
        ensures
            (*r) == (Params { compression_mask_v: compression_mask.0.0, ..*old(self) }),
            *final(self) == *final(r),
    {
        self.compression_mask_v = compression_mask.0.bit_mask();
        self
    }

    /// Returns the current value of the parameter.
    pub fn get_compression_mask(&self) -> (r: CompressionMask)
        ensures
            r.0.0 == self.compression_mask_v,
    {
        CompressionMask::from_mco(self.compression_mask_v)
    }

    /// Enables database encryption with the given key; `None` disables
    /// it.
    pub fn cipher_key(&mut self, cipher_key: Option<&str>) -> (r: Result<(), Error>)
        ensures
            r is Ok,
            (cipher_key matches Some(k) ==> final(self).cipher_key_v matches Some(s) && s@ == k@),
            (cipher_key is None ==> final(self).cipher_key_v is None),
    {
        self.cipher_key_v = match cipher_key {
            Some(k) => Some(k.to_owned()),
            None => None,
        };
        Ok(())
    }

    /// Returns the current value of the parameter.
    pub fn get_cipher_key(&self) -> (r: Result<Option<&str>, Error>)
        ensures
            (self.cipher_key_v matches Some(s) ==> r matches Ok(o) && o matches Some(k) && k@
                == s@),
            (self.cipher_key_v is None ==> r == Ok::<Option<&str>, Error>(None)),
    {
        match &self.cipher_key_v {
            Some(s) => Ok(Some(s.as_str())),
            None => Ok(None),
        }
    }

    /// Enables the dynamic hash table extension.
    pub fn dynamic_hash(&mut self, dynamic_hash: bool) -> (r: &mut Self)
        ensures
            (*r) == (Params { dynamic_hash_v: dynamic_hash, ..*old(self) }),
            *final(self) == *final(r),
    {
        self.dynamic_hash_v = dynamic_hash;
        self
    }

    /// Returns the current value of the parameter.
    pub fn get_dynamic_hash(&self) -> (r: bool)
        ensures
            r == self.dynamic_hash_v,
    {
        self.dynamic_hash_v
    }

    /// Sets the license key; `None` clears it.
    pub fn license_key(&mut self, license_key: Option<&str>) -> (r: Result<(), Error>)
        ensures
            r is Ok,
            (license_key matches Some(k) ==> final(self).license_key_v matches Some(s) && s@
                == k@),
            (license_key is None ==> final(self).license_key_v is None),
    {
        self.license_key_v = match license_key {
            Some(k) => Some(k.to_owned()),
            None => None,
        };
        Ok(())
    }

    /// Returns the current value of the parameter.
    pub fn get_license_key(&self) -> (r: Result<Option<&str>, Error>)
        ensures
            (self.license_key_v matches Some(s) ==> r matches Ok(o) && o matches Some(k) && k@
                == s@),
            (self.license_key_v is None ==> r == Ok::<Option<&str>, Error>(None)),
    {
        match &self.license_key_v {
            Some(s) => Ok(Some(s.as_str())),
            None => Ok(None),
        }
    }

    /// Sets the transaction scheduling policy for transactions with the
    /// same priority.
    pub fn trans_sched_policy(&mut self, trans_sched_policy: TransSchedPolicy) -> (r: &mut Self)
        ensures
            (*r) == (Params { trans_sched_policy_v: trans_sched_policy, ..*old(self) }),
            *final(self) == *final(r),
    {
        self.trans_sched_policy_v = trans_sched_policy;
        self
    }

    /// Returns the current value of the parameter.
    pub fn get_trans_sched_policy(&self) -> (r: TransSchedPolicy)
        ensures
            r == self.trans_sched_policy_v,
    {
        self.trans_sched_policy_v
    }

    /// Sets the concurrency policy of the transaction manager. The policy
    /// is selected at database-build time, not per transaction.
    pub fn trans_policy(&mut self, trans_policy: TransPolicy) -> (r: &mut Self)
        ensures
            (*r) == (Params { trans_policy_v: trans_policy, ..*old(self) }),
            *final(self) == *final(r),
    {
        self.trans_policy_v = trans_policy;
        self
    }

    /// Returns the current value of the parameter.
    pub fn get_trans_policy(&self) -> (r: TransPolicy)
        ensures
            r == self.trans_policy_v,
    {
        self.trans_policy_v
    }

    /// Sets the name of the temporary backup data storage file. Fails
    /// with `IllegalParam` exactly when the name does not fit its
    /// fixed-size field.
    pub fn backup_map_filename(&mut self, backup_map_filename: &str) -> (r: Result<(), Error>)
        ensures
            (backup_map_filename.spec_bytes().len() > 255 ==> r == Err::<(), Error>(
                Error::Core(CoreError(CoreCode::IllegalParam)),
            ) && *final(self) == *old(self)),
            (backup_map_filename.spec_bytes().len() <= 255 ==> r is Ok && final(self).backup_map_filename_v@ == backup_map_filename@),
    {
        if backup_map_filename.as_bytes().len() > 255 {
            return Err(Error::Core(CoreError(CoreCode::IllegalParam)));
        }
        self.backup_map_filename_v = backup_map_filename.to_owned();
        Ok(())
    }

    /// Returns the current value of the parameter.
    pub fn get_backup_map_filename(&self) -> (r: Result<&str, Error>)
        ensures
            r matches Ok(s) && s@ == self.backup_map_filename_v@,
    {
        Ok(self.backup_map_filename_v.as_str())
    }
}


/// The combined byte size of the Database-role memory devices of a device
/// set: the space the page heap draws from.
pub open spec fn db_mem_bytes(devs: Seq<Device>) -> int
    decreases devs.len(),
{
    if devs.len() == 0 {
        0
    } else {
        db_mem_bytes(devs.drop_last()) + (if devs.last().spec_assignment()
            == Assignment::Database {
            devs.last().spec_size() as int
        } else {
            0
        })
    }
}

/// True if some device of the set has the Database role with a non-zero
/// size.
pub open spec fn has_db_device(devs: Seq<Device>) -> bool {
    exists|i: int|
        0 <= i < devs.len() && (#[trigger] devs[i]).spec_assignment() == Assignment::Database
            && devs[i].spec_size() > 0
}

/// True if the schema catalog and the object store describe the same
/// classes: the class lists are parallel and every stored row carries one
/// value per declared field.
pub open spec fn schema_ok(d: Dictionary, s: Store) -> bool {
    &&& d.classes@.len() == s.data@.len()
    &&& (forall|c: int, i: int|
        #![trigger s.data@[c].rows@[i]]
        0 <= c < s.data@.len() && 0 <= i < s.data@[c].rows@.len() ==> s.data@[c].rows@[i].vals@.len()
            == d.classes@[c].fields@.len())
}

/// Schema agreement carries over observable equality of catalog and
/// store.
pub proof fn lemma_schema_ok_eq(d1: Dictionary, s1: Store, d2: Dictionary, s2: Store)
    requires
        schema_ok(d1, s1),
        dict_eq(d1, d2),
        store_eq(s1, s2),
    ensures
        schema_ok(d2, s2),
{
    assert forall|c: int, i: int|
        0 <= c < s2.data@.len() && 0 <= i < s2.data@[c].rows@.len() implies (
    #[trigger] s2.data@[c].rows@[i]).vals@.len() == d2.classes@[c].fields@.len() by {
        assert(crate::store::class_eq(s1.data@[c], s2.data@[c]));
        assert(crate::store::row_eq(s1.data@[c].rows@[i], s2.data@[c].rows@[i]));
        assert(crate::dict::struct_eq(d1.classes@[c], d2.classes@[c]));
        assert(s1.data@[c].rows@[i].vals.deep_view().len() == s1.data@[c].rows@[i].vals@.len());
        assert(s2.data@[c].rows@[i].vals.deep_view().len() == s2.data@[c].rows@[i].vals@.len());
    }
}

/// Validity of a database-open request: an ASCII name that fits the name
/// field, non-negative schema reservations that fit the machine, a usable
/// page size, and a device set whose Database-role space is present and
/// countable.
pub open spec fn valid_open(name: Seq<char>, params: Params, devs: Seq<Device>) -> bool {
    &&& name.len() > 0
    &&& name.len() <= 64
    &&& vstd::utf8::is_ascii_chars(name)
    &&& params.mem_page_size_v > 0
    &&& params.max_classes_v >= 0
    &&& params.max_indexes_v >= 0
    &&& params.ddl_dict_size_v <= usize::MAX
    &&& has_db_device(devs)
    &&& db_mem_bytes(devs) <= u64::MAX
    &&& db_mem_bytes(devs) / (params.mem_page_size_v as int) <= usize::MAX
}

/// A database instance.
///
/// A database owns its store, its schema catalog and the transaction
/// manager state. The committed in-memory state (`mem`, `dict`) and the
/// durable image (`durable`, `durable_dict`) are kept side by side: the
/// commit policy decides when a commit is copied into the durable image,
/// and reopening after a simulated crash starts from the durable image
/// alone.
pub struct Database {
    /// The database name.
    pub name: String,
    /// The committed schema catalog.
    pub dict: Dictionary,
    /// The committed object store.
    pub mem: Store,
    /// The durable image of the schema catalog.
    pub durable_dict: Dictionary,
    /// The durable image of the object store.
    pub durable: Store,
    /// The commit policy in force.
    pub commit_policy: CommitPolicy,
    /// The concurrency policy in force.
    pub trans_policy: TransPolicy,
    /// The scheduling policy in force.
    pub sched_policy: TransSchedPolicy,
    /// The log type in force.
    pub log_type: LogType,
    /// The connection slots reserved at open time.
    pub max_connections: u32,
    /// The number of live connections.
    pub n_connections: u32,
    /// The identifier the next transaction receives.
    pub next_tx: u64,
    /// The number of active read-only transactions.
    pub active_readers: usize,
    /// Whether a read-write transaction is active.
    pub writer_active: bool,
    /// Whether an exclusive transaction is active.
    pub exclusive_active: bool,
    /// The number of commits delayed since the last flush.
    pub pending_commits: u32,
    /// The delayed-commit count threshold; zero disables automatic
    /// flushing.
    pub max_delayed_transactions: u32,
    /// The identifier the next statement arena receives.
    pub next_arena: u64,
    /// Whether the instance has been closed.
    pub closed: bool,
}

impl Database {
    /// Well-formedness: both the committed state and the durable image
    /// have well-formed catalogs and stores that agree on the schema.
    pub open spec fn wf(self) -> bool {
        &&& self.dict.wf()
        &&& self.mem.wf()
        &&& self.durable_dict.wf()
        &&& self.durable.wf()
        &&& schema_ok(self.dict, self.mem)
        &&& schema_ok(self.durable_dict, self.durable)
    }

    /// True if the durable image holds exactly the committed state: what
    /// a crash-and-reopen would observe equals what has been committed.
    pub open spec fn durable_matches_mem(self) -> bool {
        store_eq(self.mem, self.durable) && dict_eq(self.dict, self.durable_dict)
    }

    /// Opens a new database instance from a started runtime, a device set
    /// and a parameter block. The name must be a non-empty ASCII string
    /// that fits the name field; static dictionaries are not supported by
    /// this engine build and are rejected with `Unsupported`.
    ///
    /// Succeeds exactly on a valid request (see [`valid_open`]) without a
    /// static dictionary, and then yields a fresh, empty, well-formed
    /// instance whose page heap spans the Database-role device space.
    pub fn open(
        _runtime: &Runtime,
        name: &str,
        dict: Option<Dictionary>,
        devs: &Vec<Device>,
        params: Params,
    ) -> (r: Result<Database, Error>)
        ensures
            (dict is Some ==> r == Err::<Database, Error>(
                Error::Core(CoreError(CoreCode::Unsupported)),
            )),
            (dict is None && !valid_open(name@, params, devs@) ==> r == Err::<Database, Error>(
                Error::Core(CoreError(CoreCode::IllegalParam)),
            )),
            (dict is None && valid_open(name@, params, devs@) ==> (r matches Ok(db) && db.wf()
                && db.name@ == name@ && db.closed == false && db.n_connections == 0
                && db.active_readers == 0 && !db.writer_active && !db.exclusive_active
                && db.pending_commits == 0 && db.dict.classes@.len() == 0 && db.mem.data@.len()
                == 0 && db.durable_dict.classes@.len() == 0 && db.durable.data@.len() == 0
                && db.dict.max_classes == params.max_classes_v && db.dict.max_indexes
                == params.max_indexes_v && db.dict.dict_size == params.ddl_dict_size_v
                && db.commit_policy == params.log_params_v.default_commit_policy_v
                && db.trans_policy == params.trans_policy_v && db.sched_policy
                == params.trans_sched_policy_v && db.log_type == params.db_log_type_v
                && db.max_connections == params.db_max_connections_v
                && db.max_delayed_transactions == params.log_params_v.max_delayed_transactions_v
                && db.mem.pages.n_pages() == db_mem_bytes(devs@) as nat / (
                params.mem_page_size_v as nat) && db.durable_matches_mem())),
    {
        if dict.is_some() {
            return Err(Error::Core(CoreError(CoreCode::Unsupported)));
        }
        let n = name.unicode_len();
        if n == 0 || n > 64 || !name.is_ascii() {
            return Err(Error::Core(CoreError(CoreCode::IllegalParam)));
        }
        if params.mem_page_size_v == 0 {
            return Err(Error::Core(CoreError(CoreCode::IllegalParam)));
        }
        if params.max_classes_v < 0 || params.max_indexes_v < 0 {
            return Err(Error::Core(CoreError(CoreCode::IllegalParam)));
        }
        if params.ddl_dict_size_v > (usize::MAX as u64) {
            return Err(Error::Core(CoreError(CoreCode::IllegalParam)));
        }
        // Sum the Database-role memory space, watching for a set whose
        // combined size cannot be counted.
        let nd = devs.len();
        let mut total: u64 = 0;
        let mut found = false;
        let mut i: usize = 0;
        while i < nd
            invariant
                i <= nd,
                nd == devs@.len(),
                dict is None,
                total == db_mem_bytes(devs@.subrange(0, i as int)),
                found == has_db_device(devs@.subrange(0, i as int)),
            decreases nd - i,
        {
            proof {
                assert(devs@.subrange(0, i + 1).drop_last() =~= devs@.subrange(0, i as int));
                assert(devs@.subrange(0, i + 1).last() == devs@[i as int]);
            }
            let d = &devs[i];
            let ghost pre = devs@.subrange(0, i as int);
            match d.assignment() {
                Assignment::Database => {
                    let s = d.size();
                    if s > u64::MAX - total {
                        // The combined Database-role space cannot be
                        // counted in 64 bits.
                        proof {
                            lemma_db_mem_bytes_grows(devs@, i as int);
                        }
                        return Err(Error::Core(CoreError(CoreCode::IllegalParam)));
                    }
                    total = total + s;
                    if s > 0 {
                        found = true;
                    }
                },
                _ => {},
            }
            proof {
                let cur = devs@.subrange(0, i + 1);
                assert(has_db_device(cur) == (has_db_device(pre) || (devs@[i as int].spec_assignment()
                    == Assignment::Database && devs@[i as int].spec_size() > 0))) by {
                    if has_db_device(cur) {
                        let w = choose|w: int|
                            0 <= w < cur.len() && (#[trigger] cur[w]).spec_assignment()
                                == Assignment::Database && cur[w].spec_size() > 0;
                        if w < i {
                            assert(pre[w] == cur[w]);
                        }
                    }
                    if has_db_device(pre) {
                        let w = choose|w: int|
                            0 <= w < pre.len() && (#[trigger] pre[w]).spec_assignment()
                                == Assignment::Database && pre[w].spec_size() > 0;
                        assert(cur[w] == pre[w]);
                    }
                    if devs@[i as int].spec_assignment() == Assignment::Database && devs@[
                        i as int].spec_size() > 0 {
                        assert(cur[i as int] == devs@[i as int]);
                    }
                }
            }
            i = i + 1;
        }
        proof {
            assert(devs@.subrange(0, nd as int) =~= devs@);
        }
        if !found {
            return Err(Error::Core(CoreError(CoreCode::IllegalParam)));
        }
        if total / (params.mem_page_size_v as u64) > (usize::MAX as u64) {
            return Err(Error::Core(CoreError(CoreCode::IllegalParam)));
        }
        let page_size = params.mem_page_size_v as u32;
        let pages = PageStore::new(page_size, total);
        let mem = Store::new(pages);
        let durable_pages = PageStore::new(page_size, total);
        let durable = Store::new(durable_pages);
        let dict_size = params.ddl_dict_size_v as usize;
        let d = Dictionary::new(params.max_classes_v as usize, params.max_indexes_v as usize,
            dict_size);
        let dd = Dictionary::new(params.max_classes_v as usize, params.max_indexes_v as usize,
            dict_size);
        proof {
            assert(mem.pages.bitmap@ =~= durable.pages.bitmap@);
            assert(store_eq(mem, durable));
            assert(dict_eq(d, dd));
        }
        Ok(Database {
            name: name.to_owned(),
            dict: d,
            mem,
            durable_dict: dd,
            durable,
            commit_policy: params.log_params_v.default_commit_policy_v,
            trans_policy: params.trans_policy_v,
            sched_policy: params.trans_sched_policy_v,
            log_type: params.db_log_type_v,
            max_connections: params.db_max_connections_v,
            n_connections: 0,
            next_tx: 0,
            active_readers: 0,
            writer_active: false,
            exclusive_active: false,
            pending_commits: 0,
            max_delayed_transactions: params.log_params_v.max_delayed_transactions_v,
            next_arena: 0,
            closed: false,
        })
    }

    /// Forces every delayed commit out to the durable image: after a
    /// flush, a crash-and-reopen observes exactly the committed state.
    pub fn flush(&mut self)
        requires
            old(self).wf(),
        ensures
            final(self).wf(),
            final(self).durable_matches_mem(),
            final(self).pending_commits == 0,
            store_eq(final(self).mem, old(self).mem),
            dict_eq(final(self).dict, old(self).dict),
            final(self).mem == old(self).mem,
            final(self).dict == old(self).dict,
            final(self).name@ == old(self).name@,
            final(self).closed == old(self).closed,
            final(self).n_connections == old(self).n_connections,
            final(self).commit_policy == old(self).commit_policy,
            final(self).trans_policy == old(self).trans_policy,
            final(self).active_readers == old(self).active_readers,
            final(self).writer_active == old(self).writer_active,
            final(self).exclusive_active == old(self).exclusive_active,
            final(self).max_delayed_transactions == old(self).max_delayed_transactions,
            final(self).next_tx == old(self).next_tx,
            final(self).max_connections == old(self).max_connections,
    {
        let snap = self.mem.snapshot();
        let snap_dict = self.dict.snapshot();
        proof {
            lemma_store_eq_wf(self.mem, snap);
            lemma_dict_eq_wf(self.dict, snap_dict);
            lemma_schema_ok_eq(self.dict, self.mem, snap_dict, snap);
        }
        self.durable = snap;
        self.durable_dict = snap_dict;
        self.pending_commits = 0;
        proof {
            lemma_store_eq_sym(old(self).mem, self.durable);
            lemma_dict_eq_sym(old(self).dict, self.durable_dict);
        }
    }

    /// Closes the database instance. Fails with `StillInUse` while any
    /// connection or transaction is live; a clean close flushes the
    /// committed state to the durable image first.
    pub fn close(&mut self) -> (r: Result<(), Error>)
        requires
            old(self).wf(),
        ensures
            final(self).wf(),
            (old(self).closed ==> r == Err::<(), Error>(
                Error::Core(CoreError(CoreCode::NoInstance)),
            ) && *final(self) == *old(self)),
            (!old(self).closed && (old(self).n_connections > 0 || old(self).active_readers > 0
                || old(self).writer_active || old(self).exclusive_active) ==> r == Err::<
                (),
                Error,
            >(Error::Core(CoreError(CoreCode::StillInUse))) && *final(self) == *old(self)),
            (!old(self).closed && old(self).n_connections == 0 && old(self).active_readers == 0
                && !old(self).writer_active && !old(self).exclusive_active ==> r is Ok && final(self).closed && final(self).durable_matches_mem() && store_eq(final(self).mem, old(self).mem) && dict_eq(final(self).dict, old(self).dict)),
    {
        if self.closed {
            return Err(Error::Core(CoreError(CoreCode::NoInstance)));
        }
        if self.n_connections > 0 || self.active_readers > 0 || self.writer_active
            || self.exclusive_active {
            return Err(Error::Core(CoreError(CoreCode::StillInUse)));
        }
        self.flush();
        self.closed = true;
        proof {
            lemma_store_eq_refl(self.mem);
            lemma_dict_eq_refl(self.dict);
        }
        Ok(())
    }

    /// Simulates a crash followed by a reopen of the same device set: the
    /// committed in-memory state is lost, and the new instance starts
    /// from the durable image alone, with no live connections or
    /// transactions.
    pub fn crash_recover(self) -> (r: Database)
        requires
            self.wf(),
        ensures
            r.wf(),
            store_eq(r.mem, self.durable),
            dict_eq(r.dict, self.durable_dict),
            store_eq(r.durable, self.durable),
            dict_eq(r.durable_dict, self.durable_dict),
            r.durable_matches_mem(),
            r.name@ == self.name@,
            r.closed == false,
            r.n_connections == 0,
            r.active_readers == 0,
            !r.writer_active,
            !r.exclusive_active,
            r.pending_commits == 0,
            r.commit_policy == self.commit_policy,
            r.trans_policy == self.trans_policy,
            r.max_delayed_transactions == self.max_delayed_transactions,
            r.max_connections == self.max_connections,
    {
        let mem = self.durable.snapshot();
        let dict = self.durable_dict.snapshot();
        proof {
            lemma_store_eq_wf(self.durable, mem);
            lemma_dict_eq_wf(self.durable_dict, dict);
            lemma_schema_ok_eq(self.durable_dict, self.durable, dict, mem);
            lemma_store_eq_sym(self.durable, mem);
            lemma_dict_eq_sym(self.durable_dict, dict);
            lemma_store_eq_refl(self.durable);
            lemma_dict_eq_refl(self.durable_dict);
            lemma_store_eq_trans(mem, self.durable, self.durable);
        }
        Database {
            name: self.name,
            dict,
            mem,
            durable_dict: self.durable_dict,
            durable: self.durable,
            commit_policy: self.commit_policy,
            trans_policy: self.trans_policy,
            sched_policy: self.sched_policy,
            log_type: self.log_type,
            max_connections: self.max_connections,
            n_connections: 0,
            next_tx: self.next_tx,
            active_readers: 0,
            writer_active: false,
            exclusive_active: false,
            pending_commits: 0,
            max_delayed_transactions: self.max_delayed_transactions,
            next_arena: self.next_arena,
            closed: false,
        }
    }

    /// Returns the database name.
    pub fn get_name(&self) -> (r: &str)
        ensures
            r@ == self.name@,
    {
        self.name.as_str()
    }
}

/// The Database-role space of a prefix never shrinks as the prefix grows.
proof fn lemma_db_mem_bytes_grows(devs: Seq<Device>, i: int)
    requires
        0 <= i < devs.len(),
    ensures
        db_mem_bytes(devs) >= db_mem_bytes(devs.subrange(0, i)) + (if devs[i].spec_assignment()
            == Assignment::Database {
            devs[i].spec_size() as int
        } else {
            0
        }),
    decreases devs.len(),
{
    if i + 1 == devs.len() {
        assert(devs.drop_last() =~= devs.subrange(0, i));
    } else {
        lemma_db_mem_bytes_grows(devs.drop_last(), i);
        assert(devs.drop_last().subrange(0, i) =~= devs.subrange(0, i));
    }
}

/// Observable store equality is reflexive.
pub proof fn lemma_store_eq_refl(a: Store)
    ensures
        store_eq(a, a),
{
}

/// Observable store equality is symmetric.
pub proof fn lemma_store_eq_sym(a: Store, b: Store)
    requires
        store_eq(a, b),
    ensures
        store_eq(b, a),
{
    assert forall|c: int| 0 <= c < b.data@.len() implies crate::store::class_eq(
        #[trigger] b.data@[c],
        a.data@[c],
    ) by {
        assert(crate::store::class_eq(a.data@[c], b.data@[c]));
    }
}

/// Observable store equality is transitive.
pub proof fn lemma_store_eq_trans(a: Store, b: Store, c: Store)
    requires
        store_eq(a, b),
        store_eq(b, c),
    ensures
        store_eq(a, c),
{
    assert forall|x: int| 0 <= x < a.data@.len() implies crate::store::class_eq(
        #[trigger] a.data@[x],
        c.data@[x],
    ) by {
        assert(crate::store::class_eq(a.data@[x], b.data@[x]));
        assert(crate::store::class_eq(b.data@[x], c.data@[x]));
        assert forall|i: int| 0 <= i < a.data@[x].rows@.len() implies crate::store::row_eq(
            #[trigger] a.data@[x].rows@[i],
            c.data@[x].rows@[i],
        ) by {
            assert(crate::store::row_eq(a.data@[x].rows@[i], b.data@[x].rows@[i]));
            assert(crate::store::row_eq(b.data@[x].rows@[i], c.data@[x].rows@[i]));
        }
    }
}

/// Observable catalog equality is reflexive.
pub proof fn lemma_dict_eq_refl(a: Dictionary)
    ensures
        dict_eq(a, a),
{
}

/// Observable catalog equality is symmetric.
pub proof fn lemma_dict_eq_sym(a: Dictionary, b: Dictionary)
    requires
        dict_eq(a, b),
    ensures
        dict_eq(b, a),
{
    assert forall|c: int| 0 <= c < b.classes@.len() implies crate::dict::struct_eq(
        #[trigger] b.classes@[c],
        a.classes@[c],
    ) by {
        assert(crate::dict::struct_eq(a.classes@[c], b.classes@[c]));
    }
    assert forall|x: int| 0 <= x < b.indexes@.len() implies crate::dict::index_eq(
        #[trigger] b.indexes@[x],
        a.indexes@[x],
    ) by {
        assert(crate::dict::index_eq(a.indexes@[x], b.indexes@[x]));
    }
}

} // verus!
