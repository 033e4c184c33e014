//! Runtime management.
//!
//! A [`Runtime`] value carries the process-wide engine configuration and is
//! threaded explicitly through every entry point that needs it: opening a
//! database requires a started runtime. Options can only be set when the
//! runtime is started; later calls observe them read-only.
//!
//! The runtime is an explicit value rather than ambient global state, so
//! starting a second runtime is simply constructing a second configuration
//! value; no process-wide one-shot flag exists to trip over.

use vstd::prelude::*;

verus! {

/// Shared memory prefix (only meaningful on platforms with session-scoped
/// shared objects).
#[derive(Clone, Copy, Debug, PartialEq, Eq, Structural)]
pub enum WinSharedMemoryPrefix {
    /// No prefix.
    NoPrefix,
    /// Shared objects are visible in all sessions.
    Global,
    /// Shared objects are visible in the current session only.
    Local,
    /// Session-isolation compatibility fix.
    Sessions,
}

/// Shared memory security descriptor (only meaningful on platforms with
/// session-scoped shared objects).
#[derive(Clone, Copy, Debug, PartialEq, Eq, Structural)]
pub enum WinSharedMemoryDescr {
    /// Default system policy: accessible from the current session only.
    Null,
    /// Accessible for all users and sessions.
    Empty,
    /// Accessible for the current user from all sessions.
    SameUser,
}

/// The CRC algorithm used to verify persistent database consistency.
#[derive(Clone, Copy, Debug, PartialEq, Eq, Structural)]
pub enum CRCAlgorithm {
    /// Do not compute CRCs.
    NoCrc,
    /// The classic CRC32 polynomial over every data word.
    CRC32,
    /// CRC32 over only the first and last word of each page.
    CRC32Fast,
    /// The legacy CRC32 variant kept for old database images.
    CRC32Old,
    /// The CRC32C polynomial, with hardware support where available.
    CRC32C,
}

/// Shared memory mapping options.
#[derive(Clone, Copy, Debug, PartialEq, Eq, Structural)]
pub struct PosixSharedMemoryOptions(pub u32);

impl PosixSharedMemoryOptions {
    /// Creates an empty options structure. All options are reset.
    pub fn new() -> (r: Self)
        ensures
            r.0 == 0u32,
    {
        PosixSharedMemoryOptions(0)
    }

    /// Enables anonymous memory mapping.
    pub fn anonymous(&mut self) -> (r: &mut Self)
        ensures
            (*r).0 == (old(self).0 | 1u32),
            *final(self) == *final(r),
    {
        self.0 = self.0 | 1;
        self
    }

    /// Enables shared memory mapping; private mapping is used otherwise.
    pub fn shared(&mut self) -> (r: &mut Self)
        ensures
            (*r).0 == (old(self).0 | 2u32),
            *final(self) == *final(r),
    {
        self.0 = self.0 | 2;
        self
    }

    /// Requests huge pages for the mapping, where available.
    pub fn huge_tlb(&mut self) -> (r: &mut Self)
        ensures
            (*r).0 == (old(self).0 | 4u32),
            *final(self) == *final(r),
    {
        self.0 = self.0 | 4;
        self
    }
}

/// Time resolution (precision) for timestamp values: the number of engine
/// ticks per second. The default is one tick per second.
#[derive(Clone, Copy, Debug, PartialEq, Eq, Structural)]
pub struct DateTimePrecision(pub u32);

impl DateTimePrecision {
    /// A precision of `val` ticks per second.
    pub fn seconds(val: u32) -> (r: Self)
        ensures
            r.0 == val,
    {
        DateTimePrecision(val)
    }

    /// A precision of `val` ticks per millisecond.
    pub fn milliseconds(val: u32) -> (r: Self)
        requires
            val <= u32::MAX / 1000,
        ensures
            r.0 == val * 1000,
    {
        DateTimePrecision(val * 1000)
    }

    /// A precision of `val` ticks per microsecond.
    pub fn microseconds(val: u32) -> (r: Self)
        requires
            val <= u32::MAX / 1000000,
        ensures
            r.0 == val * 1000000,
    {
        DateTimePrecision(val * 1000000)
    }
}

/// A runtime option. Options can only be set when the runtime is started.
#[derive(Clone, Copy, Debug, PartialEq, Eq, Structural)]
pub enum Opt {
    /// Shared memory prefix and descriptor, for session-scoped platforms.
    WinSharedMemory(WinSharedMemoryPrefix, WinSharedMemoryDescr),
    /// Require the end-of-transaction notification for transaction
    /// logging.
    MarkLastObject(bool),
    /// Shared memory access mask.
    UnixSharedMemoryAccessMask(u32),
    /// Shared memory mapping options.
    PosixSharedMemory(PosixSharedMemoryOptions),
    /// CRC algorithm used to verify persistent database integrity.
    CRCAlgorithm(CRCAlgorithm),
    /// Maximum depth of a Patricia trie index.
    MaxPatriciaDepth(u32),
    /// Maximum number of pipe devices that can be added.
    MaxDynamicPipes(u32),
    /// Merge loaded objects with objects already in the database.
    ClassLoadMerge(bool),
    /// Resolution of timestamp values.
    DateTimePrecision(DateTimePrecision),
}

/// The option key of each runtime option.
pub open spec fn opt_key(o: Opt) -> u32 {
    match o {
        Opt::WinSharedMemory(..) => 1,
        Opt::MarkLastObject(_) => 2,
        Opt::UnixSharedMemoryAccessMask(_) => 3,
        Opt::PosixSharedMemory(_) => 4,
        Opt::CRCAlgorithm(_) => 5,
        Opt::MaxPatriciaDepth(_) => 6,
        Opt::MaxDynamicPipes(_) => 7,
        Opt::ClassLoadMerge(_) => 8,
        Opt::DateTimePrecision(_) => 9,
    }
}

/// The numeric value carried by each runtime option.
pub open spec fn opt_val(o: Opt) -> int {
    match o {
        Opt::WinSharedMemory(p, d) => win_prefix_val(p) + win_descr_val(d),
        Opt::MarkLastObject(v) => if v { 1int } else { 0int },
        Opt::UnixSharedMemoryAccessMask(v) => v as int,
        Opt::PosixSharedMemory(v) => v.0 as int,
        Opt::CRCAlgorithm(v) => crc_val(v),
        Opt::MaxPatriciaDepth(v) => v as int,
        Opt::MaxDynamicPipes(v) => v as int,
        Opt::ClassLoadMerge(v) => if v { 1int } else { 0int },
        Opt::DateTimePrecision(v) => v.0 as int,
    }
}

/// The numeric value of a shared memory prefix.
pub open spec fn win_prefix_val(p: WinSharedMemoryPrefix) -> int {
    match p {
        WinSharedMemoryPrefix::Global => 0,
        WinSharedMemoryPrefix::Local => 1,
        WinSharedMemoryPrefix::Sessions => 2,
        WinSharedMemoryPrefix::NoPrefix => 3,
    }
}

/// The numeric value of a shared memory security descriptor.
pub open spec fn win_descr_val(d: WinSharedMemoryDescr) -> int {
    match d {
        WinSharedMemoryDescr::Empty => 0,
        WinSharedMemoryDescr::Null => 4,
        WinSharedMemoryDescr::SameUser => 8,
    }
}

/// The numeric value of a CRC algorithm choice.
pub open spec fn crc_val(c: CRCAlgorithm) -> int {
    match c {
        CRCAlgorithm::NoCrc => 0,
        CRCAlgorithm::CRC32 => 1,
        CRCAlgorithm::CRC32Fast => 2,
        CRCAlgorithm::CRC32Old => 3,
        CRCAlgorithm::CRC32C => 4,
    }
}

impl Opt {
    /// Renders the option as its stable key/value pair.
    pub fn raw(self) -> (r: (i32, i32))
        ensures
            r.0 == opt_key(self),
            (opt_val(self) <= i32::MAX ==> r.1 == opt_val(self)),
    {
        match self {
            Opt::WinSharedMemory(p, d) => {
                let pv: i32 = match p {
                    WinSharedMemoryPrefix::Global => 0,
                    WinSharedMemoryPrefix::Local => 1,
                    WinSharedMemoryPrefix::Sessions => 2,
                    WinSharedMemoryPrefix::NoPrefix => 3,
                };
                let dv: i32 = match d {
                    WinSharedMemoryDescr::Empty => 0,
                    WinSharedMemoryDescr::Null => 4,
                    WinSharedMemoryDescr::SameUser => 8,
                };
                (1, pv + dv)
            },
            Opt::MarkLastObject(v) => (2, if v { 1 } else { 0 }),
            Opt::UnixSharedMemoryAccessMask(v) => (3, #[verifier::truncate] (v as i32)),
            Opt::PosixSharedMemory(v) => (4, #[verifier::truncate] (v.0 as i32)),
            Opt::CRCAlgorithm(v) => (
                5,
                match v {
                    CRCAlgorithm::NoCrc => 0,
                    CRCAlgorithm::CRC32 => 1,
                    CRCAlgorithm::CRC32Fast => 2,
                    CRCAlgorithm::CRC32Old => 3,
                    CRCAlgorithm::CRC32C => 4,
                },
            ),
            Opt::MaxPatriciaDepth(v) => (6, #[verifier::truncate] (v as i32)),
            Opt::MaxDynamicPipes(v) => (7, #[verifier::truncate] (v as i32)),
            Opt::ClassLoadMerge(v) => (8, if v { 1 } else { 0 }),
            Opt::DateTimePrecision(v) => (9, #[verifier::truncate] (v.0 as i32)),
        }
    }
}

/// The runtime options in force, after folding the option list given to
/// [`Runtime::start`] over the defaults.
#[derive(Clone, Copy, Debug, PartialEq, Eq, Structural)]
pub struct RuntimeOptions {
    /// Shared memory prefix.
    pub win_shm_prefix: WinSharedMemoryPrefix,
    /// Shared memory security descriptor.
    pub win_shm_descr: WinSharedMemoryDescr,
    /// End-of-transaction notification required.
    pub mark_last_object: bool,
    /// Shared memory access mask.
    pub unix_shm_mask: u32,
    /// Shared memory mapping options.
    pub posix_shm: PosixSharedMemoryOptions,
    /// CRC algorithm for persistent database integrity.
    pub crc_algorithm: CRCAlgorithm,
    /// Maximum Patricia trie depth.
    pub max_patricia_depth: u32,
    /// Maximum number of pipe devices.
    pub max_dynamic_pipes: u32,
    /// Merge loaded objects with existing objects.
    pub class_load_merge: bool,
    /// Ticks per second of timestamp values.
    pub datetime_precision: u32,
}

/// The default runtime options: anonymous shared mapping, no CRC, one
/// timestamp tick per second.
pub open spec fn default_options() -> RuntimeOptions {
    RuntimeOptions {
        win_shm_prefix: WinSharedMemoryPrefix::NoPrefix,
        win_shm_descr: WinSharedMemoryDescr::Null,
        mark_last_object: false,
        unix_shm_mask: 0,
        posix_shm: PosixSharedMemoryOptions(3),
        crc_algorithm: CRCAlgorithm::NoCrc,
        max_patricia_depth: 0,
        max_dynamic_pipes: 0,
        class_load_merge: false,
        datetime_precision: 1,
    }
}

/// One option applied over a state: later options override earlier ones
/// key by key.
pub open spec fn apply_opt(s: RuntimeOptions, o: Opt) -> RuntimeOptions {
    match o {
        Opt::WinSharedMemory(p, d) => RuntimeOptions {
            win_shm_prefix: p,
            win_shm_descr: d,
            ..s
        },
        Opt::MarkLastObject(v) => RuntimeOptions { mark_last_object: v, ..s },
        Opt::UnixSharedMemoryAccessMask(v) => RuntimeOptions { unix_shm_mask: v, ..s },
        Opt::PosixSharedMemory(v) => RuntimeOptions { posix_shm: v, ..s },
        Opt::CRCAlgorithm(v) => RuntimeOptions { crc_algorithm: v, ..s },
        Opt::MaxPatriciaDepth(v) => RuntimeOptions { max_patricia_depth: v, ..s },
        Opt::MaxDynamicPipes(v) => RuntimeOptions { max_dynamic_pipes: v, ..s },
        Opt::ClassLoadMerge(v) => RuntimeOptions { class_load_merge: v, ..s },
        Opt::DateTimePrecision(v) => RuntimeOptions { datetime_precision: v.0, ..s },
    }
}

/// An option list applied over a state, first to last.
pub open spec fn apply_opts(s: RuntimeOptions, opts: Seq<Opt>) -> RuntimeOptions
    decreases opts.len(),
{
    if opts.len() == 0 {
        s
    } else {
        apply_opt(apply_opts(s, opts.drop_last()), opts.last())
    }
}

/// Runtime information: the configuration and capabilities of the engine.
///
/// The getters of this structure answer, for the running engine build, the
/// questions a deployment needs settled before opening a database: version,
/// supported data types and features, policies and sizing limits.
pub struct Info {
    /// Major engine version.
    pub mco_version_major_v: u8,
    /// Minor engine version.
    pub mco_version_minor_v: u8,
    /// Engine build number.
    pub mco_build_number_v: u16,
    /// Width of the engine's size type, in bytes.
    pub mco_size_t_v: usize,
    /// Width of the engine's offset type, in bytes.
    pub mco_offs_t_v: usize,
    /// Unsigned 32-bit fields supported.
    pub uint4_supported_v: bool,
    /// Floating point fields supported.
    pub float_supported_v: bool,
    /// Internal consistency check level.
    pub mco_checklevel_v: u8,
    /// Evaluation build.
    pub evaluation_version_v: bool,
    /// Databases over four gibibytes supported.
    pub large_database_supported_v: bool,
    /// String collations supported.
    pub collation_supported_v: bool,
    /// Heap addresses above the 31-bit range supported.
    pub heap31_supported_v: bool,
    /// Binary schema serialization supported.
    pub bin_serialization_supported_v: bool,
    /// Fixed-size record optimization supported.
    pub fixedrec_supported_v: bool,
    /// Database statistics supported.
    pub statistics_supported_v: bool,
    /// Event notifications supported.
    pub events_supported_v: bool,
    /// Database save and load supported.
    pub save_load_supported_v: bool,
    /// Object initialization supported.
    pub object_initialization_supported_v: bool,
    /// Direct access to index fields supported.
    pub direct_index_field_access_supported_v: bool,
    /// Multiple processes may attach to one database.
    pub multiprocess_access_supported_v: bool,
    /// Object repacking supported.
    pub object_repack_supported_v: bool,
    /// Transaction logging supported.
    pub transaction_logging_supported_v: bool,
    /// Cluster operation supported.
    pub cluster_supported_v: bool,
    /// High availability supported.
    pub high_availability_supported_v: bool,
    /// IoT replication supported.
    pub iot_supported_v: bool,
    /// High-availability multicast supported.
    pub ha_multicast_supported_v: bool,
    /// Incremental high-availability replication supported.
    pub ha_incremental_replication_supported_v: bool,
    /// Binary schema evolution supported.
    pub binary_schema_evolution_supported_v: bool,
    /// Unicode strings supported.
    pub unicode_supported_v: bool,
    /// Wide character strings supported.
    pub wchar_supported_v: bool,
    /// Crash recovery supported.
    pub recovery_supported_v: bool,
    /// Persistent (disk) databases supported.
    pub disk_supported_v: bool,
    /// Direct object pointers supported.
    pub direct_pointers_supported_v: bool,
    /// Persistent objects supported.
    pub persistent_object_supported_v: bool,
    /// Schema import and export supported.
    pub xml_import_export_supported_v: bool,
    /// User-defined indexes supported.
    pub user_defined_index_supported_v: bool,
    /// Multi-file devices supported.
    pub multifile_supported_v: bool,
    /// Multi-file descriptors supported.
    pub multifile_descriptor_supported_v: bool,
    /// Two-phase commit supported.
    pub two_phase_commit_supported_v: bool,
    /// R-tree indexes supported.
    pub rtree_supported_v: bool,
    /// Hash indexes implemented over trees.
    pub tree_based_hash_v: bool,
    /// Asynchronous reclamation of stale multi-version snapshots.
    pub tmgr_mvcc_async_cleanup_v: bool,
    /// Concurrent disk B-tree access.
    pub concurent_disk_btree_v: bool,
    /// Cursors open positioned at the first record.
    pub open_cursor_goto_first_v: bool,
    /// Pre-sorted index insertion supported.
    pub smart_index_insert_v: bool,
    /// B-tree leaf locking supported.
    pub btree_leaf_lock_v: bool,
    /// Null statistics tracked.
    pub null_statistics_v: bool,
    /// The runtime starts implicitly on first use.
    pub implicit_runtime_start_v: bool,
    /// Buffered synchronous I/O streams.
    pub bufferized_sync_iostream_v: bool,
    /// Asynchronous replication supported.
    pub async_replication_v: bool,
    /// Fast transaction list supported.
    pub fast_transaction_list_v: bool,
    /// Extendable dirty-page bitmap supported.
    pub extendable_dirty_page_bitmap_v: bool,
    /// Single-writer/multi-reader policy variant.
    pub mursiw_policy_v: u8,
    /// Synchronization capability mask.
    pub sync_capabilities_v: u8,
    /// Character comparison policy.
    pub char_comparison_policy_v: u8,
    /// Stream buffer size, in bytes.
    pub stream_buffer_size_v: usize,
    /// Maximum number of database instances.
    pub max_db_instances_v: usize,
    /// Maximum database name length.
    pub max_db_name_length_v: usize,
    /// Maximum number of device extensions; negative means unlimited.
    pub max_extends_v: isize,
    /// Transaction log page buffer size.
    pub tl_page_buffer_size_v: usize,
    /// Maximum number of high-availability replicas.
    pub ha_max_replicas_v: usize,
    /// High-availability transmit buffer size.
    pub ha_transmit_buffer_size_v: usize,
    /// High-availability synchronization buffer size.
    pub ha_syncronization_buffer_size_v: usize,
    /// Default redo log limit, in bytes.
    pub default_redo_log_limit_v: usize,
    /// Number of critical sections of the multi-version manager.
    pub mvcc_critical_sections_v: usize,
    /// Number of per-index locks of the multi-version manager.
    pub mvcc_per_index_locks_v: usize,
    /// Per-connection disk page cache size.
    pub con_disk_page_cache_size_v: usize,
    /// Threshold below which a small connection cache is used.
    pub small_con_cache_threshold_v: usize,
    /// Limit of the extendable dirty-page bitmap.
    pub extendable_dirty_page_bitmap_limit_v: usize,
    /// Maximum number of legacy sessions.
    pub max_vista_sessions_v: usize,
    /// Concurrent write transactions supported.
    pub concurrent_write_transactions_v: bool,
    /// Encryption supported.
    pub encryption_support_v: bool,
    /// Backup supported.
    pub backup_support_v: bool,
}

/// The running engine's capability description. This build keeps every
/// database instance private to its process, simulates persistent devices
/// over an in-memory durable image, and stores floating point payloads
/// without computing on them.
pub open spec fn engine_info() -> Info {
    Info {
        mco_version_major_v: 1,
        mco_version_minor_v: 0,
        mco_build_number_v: 1,
        mco_size_t_v: 8,
        mco_offs_t_v: 8,
        uint4_supported_v: true,
        float_supported_v: true,
        mco_checklevel_v: 0,
        evaluation_version_v: false,
        large_database_supported_v: true,
        collation_supported_v: false,
        heap31_supported_v: false,
        bin_serialization_supported_v: false,
        fixedrec_supported_v: false,
        statistics_supported_v: false,
        events_supported_v: false,
        save_load_supported_v: false,
        object_initialization_supported_v: false,
        direct_index_field_access_supported_v: false,
        multiprocess_access_supported_v: false,
        object_repack_supported_v: false,
        transaction_logging_supported_v: true,
        cluster_supported_v: false,
        high_availability_supported_v: false,
        iot_supported_v: false,
        ha_multicast_supported_v: false,
        ha_incremental_replication_supported_v: false,
        binary_schema_evolution_supported_v: false,
        unicode_supported_v: true,
        wchar_supported_v: false,
        recovery_supported_v: true,
        disk_supported_v: true,
        direct_pointers_supported_v: false,
        persistent_object_supported_v: true,
        xml_import_export_supported_v: false,
        user_defined_index_supported_v: false,
        multifile_supported_v: true,
        multifile_descriptor_supported_v: false,
        two_phase_commit_supported_v: true,
        rtree_supported_v: false,
        tree_based_hash_v: false,
        tmgr_mvcc_async_cleanup_v: false,
        concurent_disk_btree_v: false,
        open_cursor_goto_first_v: false,
        smart_index_insert_v: true,
        btree_leaf_lock_v: false,
        null_statistics_v: false,
        implicit_runtime_start_v: false,
        bufferized_sync_iostream_v: false,
        async_replication_v: false,
        fast_transaction_list_v: false,
        extendable_dirty_page_bitmap_v: false,
        mursiw_policy_v: 1,
        sync_capabilities_v: 0,
        char_comparison_policy_v: 0,
        stream_buffer_size_v: 65536,
        max_db_instances_v: 32,
        max_db_name_length_v: 64,
        max_extends_v: (-1) as isize,
        tl_page_buffer_size_v: 65536,
        ha_max_replicas_v: 0,
        ha_transmit_buffer_size_v: 0,
        ha_syncronization_buffer_size_v: 0,
        default_redo_log_limit_v: 16777216,
        mvcc_critical_sections_v: 0,
        mvcc_per_index_locks_v: 0,
        con_disk_page_cache_size_v: 0,
        small_con_cache_threshold_v: 0,
        extendable_dirty_page_bitmap_limit_v: 0,
        max_vista_sessions_v: 0,
        concurrent_write_transactions_v: false,
        encryption_support_v: false,
        backup_support_v: false,
    }
}

impl Info {
    /// Builds the capability description of the running engine.
    pub fn new() -> (r: Info)
        ensures
            r == engine_info(),
    {
        Info {
            mco_version_major_v: 1,
            mco_version_minor_v: 0,
            mco_build_number_v: 1,
            mco_size_t_v: 8,
            mco_offs_t_v: 8,
            uint4_supported_v: true,
            float_supported_v: true,
            mco_checklevel_v: 0,
            evaluation_version_v: false,
            large_database_supported_v: true,
            collation_supported_v: false,
            heap31_supported_v: false,
            bin_serialization_supported_v: false,
            fixedrec_supported_v: false,
            statistics_supported_v: false,
            events_supported_v: false,
            save_load_supported_v: false,
            object_initialization_supported_v: false,
            direct_index_field_access_supported_v: false,
            multiprocess_access_supported_v: false,
            object_repack_supported_v: false,
            transaction_logging_supported_v: true,
            cluster_supported_v: false,
            high_availability_supported_v: false,
            iot_supported_v: false,
            ha_multicast_supported_v: false,
            ha_incremental_replication_supported_v: false,
            binary_schema_evolution_supported_v: false,
            unicode_supported_v: true,
            wchar_supported_v: false,
            recovery_supported_v: true,
            disk_supported_v: true,
            direct_pointers_supported_v: false,
            persistent_object_supported_v: true,
            xml_import_export_supported_v: false,
            user_defined_index_supported_v: false,
            multifile_supported_v: true,
            multifile_descriptor_supported_v: false,
            two_phase_commit_supported_v: true,
            rtree_supported_v: false,
            tree_based_hash_v: false,
            tmgr_mvcc_async_cleanup_v: false,
            concurent_disk_btree_v: false,
            open_cursor_goto_first_v: false,
            smart_index_insert_v: true,
            btree_leaf_lock_v: false,
            null_statistics_v: false,
            implicit_runtime_start_v: false,
            bufferized_sync_iostream_v: false,
            async_replication_v: false,
            fast_transaction_list_v: false,
            extendable_dirty_page_bitmap_v: false,
            mursiw_policy_v: 1,
            sync_capabilities_v: 0,
            char_comparison_policy_v: 0,
            stream_buffer_size_v: 65536,
            max_db_instances_v: 32,
            max_db_name_length_v: 64,
            max_extends_v: -1,
            tl_page_buffer_size_v: 65536,
            ha_max_replicas_v: 0,
            ha_transmit_buffer_size_v: 0,
            ha_syncronization_buffer_size_v: 0,
            default_redo_log_limit_v: 16777216,
            mvcc_critical_sections_v: 0,
            mvcc_per_index_locks_v: 0,
            con_disk_page_cache_size_v: 0,
            small_con_cache_threshold_v: 0,
            extendable_dirty_page_bitmap_limit_v: 0,
            max_vista_sessions_v: 0,
            concurrent_write_transactions_v: false,
            encryption_support_v: false,
            backup_support_v: false,
        }
    }
}

impl Info {
    /// Returns the `mco_version_major` capability of the engine.
    pub fn mco_version_major(&self) -> (r: u8)
        ensures
            r == self.mco_version_major_v,
    {
        self.mco_version_major_v
    }

    /// Returns the `mco_version_minor` capability of the engine.
    pub fn mco_version_minor(&self) -> (r: u8)
        ensures
            r == self.mco_version_minor_v,
    {
        self.mco_version_minor_v
    }

    /// Returns the `mco_checklevel` capability of the engine.
    pub fn mco_checklevel(&self) -> (r: u8)
        ensures
            r == self.mco_checklevel_v,
    {
        self.mco_checklevel_v
    }

    /// Returns the `mursiw_policy` capability of the engine.
    pub fn mursiw_policy(&self) -> (r: u8)
        ensures
            r == self.mursiw_policy_v,
    {
        self.mursiw_policy_v
    }

    /// Returns the `sync_capabilities` capability of the engine.
    pub fn sync_capabilities(&self) -> (r: u8)
        ensures
            r == self.sync_capabilities_v,
    {
        self.sync_capabilities_v
    }

    /// Returns the `char_comparison_policy` capability of the engine.
    pub fn char_comparison_policy(&self) -> (r: u8)
        ensures
            r == self.char_comparison_policy_v,
    {
        self.char_comparison_policy_v
    }

    /// Returns the `mco_build_number` capability of the engine.
    pub fn mco_build_number(&self) -> (r: u16)
        ensures
            r == self.mco_build_number_v,
    {
        self.mco_build_number_v
    }

    /// Returns the `uint4_supported` capability of the engine.
    pub fn uint4_supported(&self) -> (r: bool)
        ensures
            r == self.uint4_supported_v,
    {
        self.uint4_supported_v
    }

    /// Returns the `float_supported` capability of the engine.
    pub fn float_supported(&self) -> (r: bool)
        ensures
            r == self.float_supported_v,
    {
        self.float_supported_v
    }

    /// Returns the `evaluation_version` capability of the engine.
    pub fn evaluation_version(&self) -> (r: bool)
        ensures
            r == self.evaluation_version_v,
    {
        self.evaluation_version_v
    }

    /// Returns the `large_database_supported` capability of the engine.
    pub fn large_database_supported(&self) -> (r: bool)
        ensures
            r == self.large_database_supported_v,
    {
        self.large_database_supported_v
    }

    /// Returns the `collation_supported` capability of the engine.
    pub fn collation_supported(&self) -> (r: bool)
        ensures
            r == self.collation_supported_v,
    {
        self.collation_supported_v
    }

    /// Returns the `heap31_supported` capability of the engine.
    pub fn heap31_supported(&self) -> (r: bool)
        ensures
            r == self.heap31_supported_v,
    {
        self.heap31_supported_v
    }

    /// Returns the `bin_serialization_supported` capability of the engine.
    pub fn bin_serialization_supported(&self) -> (r: bool)
        ensures
            r == self.bin_serialization_supported_v,
    {
        self.bin_serialization_supported_v
    }

    /// Returns the `fixedrec_supported` capability of the engine.
    pub fn fixedrec_supported(&self) -> (r: bool)
        ensures
            r == self.fixedrec_supported_v,
    {
        self.fixedrec_supported_v
    }

    /// Returns the `statistics_supported` capability of the engine.
    pub fn statistics_supported(&self) -> (r: bool)
        ensures
            r == self.statistics_supported_v,
    {
        self.statistics_supported_v
    }

    /// Returns the `events_supported` capability of the engine.
    pub fn events_supported(&self) -> (r: bool)
        ensures
            r == self.events_supported_v,
    {
        self.events_supported_v
    }

    /// Returns the `save_load_supported` capability of the engine.
    pub fn save_load_supported(&self) -> (r: bool)
        ensures
            r == self.save_load_supported_v,
    {
        self.save_load_supported_v
    }

    /// Returns the `object_initialization_supported` capability of the engine.
    pub fn object_initialization_supported(&self) -> (r: bool)
        ensures
            r == self.object_initialization_supported_v,
    {
        self.object_initialization_supported_v
    }

    /// Returns the `direct_index_field_access_supported` capability of the engine.
    pub fn direct_index_field_access_supported(&self) -> (r: bool)
        ensures
            r == self.direct_index_field_access_supported_v,
    {
        self.direct_index_field_access_supported_v
    }

    /// Returns the `multiprocess_access_supported` capability of the engine.
    pub fn multiprocess_access_supported(&self) -> (r: bool)
        ensures
            r == self.multiprocess_access_supported_v,
    {
        self.multiprocess_access_supported_v
    }

    /// Returns the `object_repack_supported` capability of the engine.
    pub fn object_repack_supported(&self) -> (r: bool)
        ensures
            r == self.object_repack_supported_v,
    {
        self.object_repack_supported_v
    }

    /// Returns the `transaction_logging_supported` capability of the engine.
    pub fn transaction_logging_supported(&self) -> (r: bool)
        ensures
            r == self.transaction_logging_supported_v,
    {
        self.transaction_logging_supported_v
    }

    /// Returns the `cluster_supported` capability of the engine.
    pub fn cluster_supported(&self) -> (r: bool)
        ensures
            r == self.cluster_supported_v,
    {
        self.cluster_supported_v
    }

    /// Returns the `high_availability_supported` capability of the engine.
    pub fn high_availability_supported(&self) -> (r: bool)
        ensures
            r == self.high_availability_supported_v,
    {
        self.high_availability_supported_v
    }

    /// Returns the `iot_supported` capability of the engine.
    pub fn iot_supported(&self) -> (r: bool)
        ensures
            r == self.iot_supported_v,
    {
        self.iot_supported_v
    }

    /// Returns the `ha_multicast_supported` capability of the engine.
    pub fn ha_multicast_supported(&self) -> (r: bool)
        ensures
            r == self.ha_multicast_supported_v,
    {
        self.ha_multicast_supported_v
    }

    /// Returns the `ha_incremental_replication_supported` capability of the engine.
    pub fn ha_incremental_replication_supported(&self) -> (r: bool)
        ensures
            r == self.ha_incremental_replication_supported_v,
    {
        self.ha_incremental_replication_supported_v
    }

    /// Returns the `binary_schema_evolution_supported` capability of the engine.
    pub fn binary_schema_evolution_supported(&self) -> (r: bool)
        ensures
            r == self.binary_schema_evolution_supported_v,
    {
        self.binary_schema_evolution_supported_v
    }

    /// Returns the `unicode_supported` capability of the engine.
    pub fn unicode_supported(&self) -> (r: bool)
        ensures
            r == self.unicode_supported_v,
    {
        self.unicode_supported_v
    }

    /// Returns the `wchar_supported` capability of the engine.
    pub fn wchar_supported(&self) -> (r: bool)
        ensures
            r == self.wchar_supported_v,
    {
        self.wchar_supported_v
    }

    /// Returns the `recovery_supported` capability of the engine.
    pub fn recovery_supported(&self) -> (r: bool)
        ensures
            r == self.recovery_supported_v,
    {
        self.recovery_supported_v
    }

    /// Returns the `disk_supported` capability of the engine.
    pub fn disk_supported(&self) -> (r: bool)
        ensures
            r == self.disk_supported_v,
    {
        self.disk_supported_v
    }

    /// Returns the `direct_pointers_supported` capability of the engine.
    pub fn direct_pointers_supported(&self) -> (r: bool)
        ensures
            r == self.direct_pointers_supported_v,
    {
        self.direct_pointers_supported_v
    }

    /// Returns the `persistent_object_supported` capability of the engine.
    pub fn persistent_object_supported(&self) -> (r: bool)
        ensures
            r == self.persistent_object_supported_v,
    {
        self.persistent_object_supported_v
    }

    /// Returns the `xml_import_export_supported` capability of the engine.
    pub fn xml_import_export_supported(&self) -> (r: bool)
        ensures
            r == self.xml_import_export_supported_v,
    {
        self.xml_import_export_supported_v
    }

    /// Returns the `user_defined_index_supported` capability of the engine.
    pub fn user_defined_index_supported(&self) -> (r: bool)
        ensures
            r == self.user_defined_index_supported_v,
    {
        self.user_defined_index_supported_v
    }

    /// Returns the `multifile_supported` capability of the engine.
    pub fn multifile_supported(&self) -> (r: bool)
        ensures
            r == self.multifile_supported_v,
    {
        self.multifile_supported_v
    }

    /// Returns the `multifile_descriptor_supported` capability of the engine.
    pub fn multifile_descriptor_supported(&self) -> (r: bool)
        ensures
            r == self.multifile_descriptor_supported_v,
    {
        self.multifile_descriptor_supported_v
    }

    /// Returns the `two_phase_commit_supported` capability of the engine.
    pub fn two_phase_commit_supported(&self) -> (r: bool)
        ensures
            r == self.two_phase_commit_supported_v,
    {
        self.two_phase_commit_supported_v
    }

    /// Returns the `rtree_supported` capability of the engine.
    pub fn rtree_supported(&self) -> (r: bool)
        ensures
            r == self.rtree_supported_v,
    {
        self.rtree_supported_v
    }

    /// Returns the `tree_based_hash` capability of the engine.
    pub fn tree_based_hash(&self) -> (r: bool)
        ensures
            r == self.tree_based_hash_v,
    {
        self.tree_based_hash_v
    }

    /// Returns the `tmgr_mvcc_async_cleanup` capability of the engine.
    pub fn tmgr_mvcc_async_cleanup(&self) -> (r: bool)
        ensures
            r == self.tmgr_mvcc_async_cleanup_v,
    {
        self.tmgr_mvcc_async_cleanup_v
    }

    /// Returns the `concurent_disk_btree` capability of the engine.
    pub fn concurent_disk_btree(&self) -> (r: bool)
        ensures
            r == self.concurent_disk_btree_v,
    {
        self.concurent_disk_btree_v
    }

    /// Returns the `open_cursor_goto_first` capability of the engine.
    pub fn open_cursor_goto_first(&self) -> (r: bool)
        ensures
            r == self.open_cursor_goto_first_v,
    {
        self.open_cursor_goto_first_v
    }

    /// Returns the `smart_index_insert` capability of the engine.
    pub fn smart_index_insert(&self) -> (r: bool)
        ensures
            r == self.smart_index_insert_v,
    {
        self.smart_index_insert_v
    }

    /// Returns the `btree_leaf_lock` capability of the engine.
    pub fn btree_leaf_lock(&self) -> (r: bool)
        ensures
            r == self.btree_leaf_lock_v,
    {
        self.btree_leaf_lock_v
    }

    /// Returns the `null_statistics` capability of the engine.
    pub fn null_statistics(&self) -> (r: bool)
        ensures
            r == self.null_statistics_v,
    {
        self.null_statistics_v
    }

    /// Returns the `implicit_runtime_start` capability of the engine.
    pub fn implicit_runtime_start(&self) -> (r: bool)
        ensures
            r == self.implicit_runtime_start_v,
    {
        self.implicit_runtime_start_v
    }

    /// Returns the `bufferized_sync_iostream` capability of the engine.
    pub fn bufferized_sync_iostream(&self) -> (r: bool)
        ensures
            r == self.bufferized_sync_iostream_v,
    {
        self.bufferized_sync_iostream_v
    }

    /// Returns the `async_replication` capability of the engine.
    pub fn async_replication(&self) -> (r: bool)
        ensures
            r == self.async_replication_v,
    {
        self.async_replication_v
    }

    /// Returns the `fast_transaction_list` capability of the engine.
    pub fn fast_transaction_list(&self) -> (r: bool)
        ensures
            r == self.fast_transaction_list_v,
    {
        self.fast_transaction_list_v
    }

    /// Returns the `extendable_dirty_page_bitmap` capability of the engine.
    pub fn extendable_dirty_page_bitmap(&self) -> (r: bool)
        ensures
            r == self.extendable_dirty_page_bitmap_v,
    {
        self.extendable_dirty_page_bitmap_v
    }

    /// Returns the `concurrent_write_transactions` capability of the engine.
    pub fn concurrent_write_transactions(&self) -> (r: bool)
        ensures
            r == self.concurrent_write_transactions_v,
    {
        self.concurrent_write_transactions_v
    }

    /// Returns the `encryption_support` capability of the engine.
    pub fn encryption_support(&self) -> (r: bool)
        ensures
            r == self.encryption_support_v,
    {
        self.encryption_support_v
    }

    /// Returns the `backup_support` capability of the engine.
    pub fn backup_support(&self) -> (r: bool)
        ensures
            r == self.backup_support_v,
    {
        self.backup_support_v
    }

    /// Returns the `mco_size_t` capability of the engine.
    pub fn mco_size_t(&self) -> (r: usize)
        ensures
            r == self.mco_size_t_v,
    {
        self.mco_size_t_v
    }

    /// Returns the `mco_offs_t` capability of the engine.
    pub fn mco_offs_t(&self) -> (r: usize)
        ensures
            r == self.mco_offs_t_v,
    {
        self.mco_offs_t_v
    }

    /// Returns the `stream_buffer_size` capability of the engine.
    pub fn stream_buffer_size(&self) -> (r: usize)
        ensures
            r == self.stream_buffer_size_v,
    {
        self.stream_buffer_size_v
    }

    /// Returns the `max_db_instances` capability of the engine.
    pub fn max_db_instances(&self) -> (r: usize)
        ensures
            r == self.max_db_instances_v,
    {
        self.max_db_instances_v
    }

    /// Returns the `max_db_name_length` capability of the engine.
    pub fn max_db_name_length(&self) -> (r: usize)
        ensures
            r == self.max_db_name_length_v,
    {
        self.max_db_name_length_v
    }

    /// Returns the `tl_page_buffer_size` capability of the engine.
    pub fn tl_page_buffer_size(&self) -> (r: usize)
        ensures
            r == self.tl_page_buffer_size_v,
    {
        self.tl_page_buffer_size_v
    }

    /// Returns the `ha_max_replicas` capability of the engine.
    pub fn ha_max_replicas(&self) -> (r: usize)
        ensures
            r == self.ha_max_replicas_v,
    {
        self.ha_max_replicas_v
    }

    /// Returns the `ha_transmit_buffer_size` capability of the engine.
    pub fn ha_transmit_buffer_size(&self) -> (r: usize)
        ensures
            r == self.ha_transmit_buffer_size_v,
    {
        self.ha_transmit_buffer_size_v
    }

    /// Returns the `ha_syncronization_buffer_size` capability of the engine.
    pub fn ha_syncronization_buffer_size(&self) -> (r: usize)
        ensures
            r == self.ha_syncronization_buffer_size_v,
    {
        self.ha_syncronization_buffer_size_v
    }

    /// Returns the `default_redo_log_limit` capability of the engine.
    pub fn default_redo_log_limit(&self) -> (r: usize)
        ensures
            r == self.default_redo_log_limit_v,
    {
        self.default_redo_log_limit_v
    }

    /// Returns the `mvcc_critical_sections` capability of the engine.
    pub fn mvcc_critical_sections(&self) -> (r: usize)
        ensures
            r == self.mvcc_critical_sections_v,
    {
        self.mvcc_critical_sections_v
    }

    /// Returns the `mvcc_per_index_locks` capability of the engine.
    pub fn mvcc_per_index_locks(&self) -> (r: usize)
        ensures
            r == self.mvcc_per_index_locks_v,
    {
        self.mvcc_per_index_locks_v
    }

    /// Returns the `con_disk_page_cache_size` capability of the engine.
    pub fn con_disk_page_cache_size(&self) -> (r: usize)
        ensures
            r == self.con_disk_page_cache_size_v,
    {
        self.con_disk_page_cache_size_v
    }

    /// Returns the `small_con_cache_threshold` capability of the engine.
    pub fn small_con_cache_threshold(&self) -> (r: usize)
        ensures
            r == self.small_con_cache_threshold_v,
    {
        self.small_con_cache_threshold_v
    }

    /// Returns the `extendable_dirty_page_bitmap_limit` capability of the engine.
    pub fn extendable_dirty_page_bitmap_limit(&self) -> (r: usize)
        ensures
            r == self.extendable_dirty_page_bitmap_limit_v,
    {
        self.extendable_dirty_page_bitmap_limit_v
    }

    /// Returns the `max_vista_sessions` capability of the engine.
    pub fn max_vista_sessions(&self) -> (r: usize)
        ensures
            r == self.max_vista_sessions_v,
    {
        self.max_vista_sessions_v
    }

    /// Returns the `max_extends` capability of the engine.
    pub fn max_extends(&self) -> (r: isize)
        ensures
            r == self.max_extends_v,
    {
        self.max_extends_v
    }

}

/// The runtime: the explicit process-wide engine configuration, started
/// once and passed to every entry point that needs it.
pub struct Runtime {
    /// The options in force.
    pub options: RuntimeOptions,
}

impl Runtime {
    /// Starts the runtime with the given options; later options override
    /// earlier ones key by key.
    pub fn start(opts: Vec<Opt>) -> (r: Runtime)
        ensures
            r.options == apply_opts(default_options(), opts@),
    {
        let mut state = Runtime {
            options: RuntimeOptions {
                win_shm_prefix: WinSharedMemoryPrefix::NoPrefix,
                win_shm_descr: WinSharedMemoryDescr::Null,
                mark_last_object: false,
                unix_shm_mask: 0,
                posix_shm: PosixSharedMemoryOptions(3),
                crc_algorithm: CRCAlgorithm::NoCrc,
                max_patricia_depth: 0,
                max_dynamic_pipes: 0,
                class_load_merge: false,
                datetime_precision: 1,
            },
        };
        let mut i: usize = 0;
        while i < opts.len()
            invariant
                i <= opts@.len(),
                state.options == apply_opts(default_options(), opts@.subrange(0, i as int)),
            decreases opts@.len() - i,
        {
            proof {
                assert(opts@.subrange(0, i + 1).drop_last() =~= opts@.subrange(0, i as int));
                assert(opts@.subrange(0, i + 1).last() == opts@[i as int]);
            }
            state.options = match opts[i] {
                Opt::WinSharedMemory(p, d) => RuntimeOptions {
                    win_shm_prefix: p,
                    win_shm_descr: d,
                    ..state.options
                },
                Opt::MarkLastObject(v) => RuntimeOptions { mark_last_object: v, ..state.options },
                Opt::UnixSharedMemoryAccessMask(v) => RuntimeOptions {
                    unix_shm_mask: v,
                    ..state.options
                },
                Opt::PosixSharedMemory(v) => RuntimeOptions { posix_shm: v, ..state.options },
                Opt::CRCAlgorithm(v) => RuntimeOptions { crc_algorithm: v, ..state.options },
                Opt::MaxPatriciaDepth(v) => RuntimeOptions {
                    max_patricia_depth: v,
                    ..state.options
                },
                Opt::MaxDynamicPipes(v) => RuntimeOptions {
                    max_dynamic_pipes: v,
                    ..state.options
                },
                Opt::ClassLoadMerge(v) => RuntimeOptions { class_load_merge: v, ..state.options },
                Opt::DateTimePrecision(v) => RuntimeOptions {
                    datetime_precision: v.0,
                    ..state.options
                },
            };
            i = i + 1;
        }
        proof {
            assert(opts@.subrange(0, opts@.len() as int) =~= opts@);
        }
        state
    }

    /// Returns the information about the active runtime.
    pub fn info(&self) -> (r: Info)
        ensures
            r == engine_info(),
    {
        Info::new()
    }
}

} // verus!
