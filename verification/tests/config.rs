use extremedb::connection::Connection;
use extremedb::database::{
    CommitPolicy, CompressionMask, Database, LogParams, LogType, ModeMask, Params,
    TransSchedPolicy,
};
use extremedb::device::util::{
    db_file_name, db_file_name_stem, file_name, log_file_name, mem_dev_name, new_mem_dev,
    new_test_file_dev, new_test_mem_dev, DeviceContainer,
};
use extremedb::device::{Assignment, Device, FileOpenFlags, NamedMemFlags};
use extremedb::dict::{
    DictClassInfo, DictField, DictIndex, DictIndexField, DictStruct, Dictionary,
};
use extremedb::index::OrderedIndex;
use extremedb::runtime::{DateTimePrecision, Opt, PosixSharedMemoryOptions, Runtime};
use extremedb::sql::allocator::Allocator;
use extremedb::sql::rsql::{ClientParams, ConnectState, ServerParams};
use extremedb::sql::value::Value;
use extremedb::store::PageStore;
use extremedb::{CoreCode, CoreError, Error};
use extremedb::dict::{DictEvent, IndexImpl};

#[test]
fn runtime_options_and_info() {
    let mut shmem = PosixSharedMemoryOptions::new();
    shmem.huge_tlb();
    let runtime = Runtime::start(vec![
        Opt::DateTimePrecision(DateTimePrecision::milliseconds(1)),
        Opt::PosixSharedMemory(shmem),
    ]);
    assert_eq!(runtime.options.datetime_precision, 1000);
    assert_eq!(runtime.options.posix_shm.0, 4);
    let caps = runtime.info();
    assert_eq!(caps.mco_version_major(), 1);
    assert_eq!(caps.mco_version_minor(), 0);
    assert!(caps.disk_supported());
    assert!(!caps.multiprocess_access_supported());
    assert_eq!(caps.max_db_name_length(), 64);
}

#[test]
fn option_raw_codes() {
    assert_eq!(Opt::MarkLastObject(true).raw(), (2, 1));
    assert_eq!(Opt::MaxPatriciaDepth(9).raw(), (6, 9));
    assert_eq!(
        Opt::DateTimePrecision(DateTimePrecision::seconds(10)).raw(),
        (9, 10)
    );
}

#[test]
fn device_constructors_and_name_limits() {
    let d = Device::new_mem_conv(Assignment::Database, 4096).unwrap();
    assert_eq!(d.size(), 4096);
    assert_eq!(d.assignment().to_mco(), 0);

    let short = "seg";
    let named = Device::new_mem_named(Assignment::Database, 64, short, NamedMemFlags::new(), 0);
    assert!(named.is_ok());
    let long = "x".repeat(64);
    let refused = Device::new_mem_named(Assignment::Database, 64, &long, NamedMemFlags::new(), 0);
    assert_eq!(
        refused.err(),
        Some(Error::Core(CoreError(CoreCode::IllegalParam)))
    );

    let file = Device::new_file(Assignment::Persistent, FileOpenFlags::new(), "db.dbs").unwrap();
    assert_eq!(file.file_name(), Some("db.dbs"));
    assert_eq!(file.size(), 0);
    let too_long = "y".repeat(256);
    assert!(Device::new_file(Assignment::Persistent, FileOpenFlags::new(), &too_long).is_err());

    let multi = Device::new_multifile(Assignment::Persistent, FileOpenFlags::new(), "seg", 4096);
    assert!(multi.is_ok());
    let raid = Device::new_raid(Assignment::Persistent, FileOpenFlags::new(), "r", 1, 0);
    assert!(raid.is_ok());
    assert!(raid.unwrap().file_name().is_none());
}

#[test]
fn file_open_flag_bits() {
    let mut f = FileOpenFlags::new();
    f.read_only();
    f.truncate();
    assert_eq!(f.0, 3);
    let mut g = FileOpenFlags::new();
    g.no_buffering().existing();
    assert_eq!(g.0, 12);
}

#[test]
fn standard_device_names() {
    assert_eq!(db_file_name_stem(), "rstest");
    assert_eq!(db_file_name("base"), "base.dbs");
    assert_eq!(log_file_name("base"), "base.log");
    assert_eq!(file_name("base", Assignment::Persistent), "base.dbs");
    assert_eq!(file_name("base", Assignment::Log), "base.log");
    assert_eq!(mem_dev_name("base", Assignment::Database), "base-db");
    assert_eq!(mem_dev_name("base", Assignment::Cache), "base-cache");
}

#[test]
fn device_container_layout() {
    let mut devs = DeviceContainer::new();
    let list = devs.devices();
    assert_eq!(list.len(), 4);
    assert_eq!(list[0].assignment().to_mco(), 0);
    assert_eq!(list[1].assignment().to_mco(), 1);
    assert_eq!(list[2].assignment().to_mco(), 2);
    assert_eq!(list[3].assignment().to_mco(), 3);
    let md = new_test_mem_dev(Assignment::Cache);
    assert_eq!(md.size(), 1024 * 1024);
    let fd = new_test_file_dev(Assignment::Log, None);
    assert_eq!(fd.file_name(), Some("rstest.log"));
    let conv = new_mem_dev(Assignment::Database, 2048, "whatever").unwrap();
    assert_eq!(conv.size(), 2048);
}

#[test]
fn params_setters_and_getters() {
    let mut p = Params::new();
    assert_eq!(p.get_mem_page_size(), 256);
    assert_eq!(p.get_db_max_connections(), 100);
    p.mem_page_size(512);
    p.disk_page_size(8192);
    p.db_max_connections(5);
    p.ddl_dict_size(32768);
    p.max_classes(100);
    p.max_indexes(1000);
    p.db_log_type(LogType::Redo);
    p.trans_sched_policy(TransSchedPolicy::WriterFavor);
    p.connection_context_size_for_recovery(true);
    p.dynamic_hash(true);
    p.cipher_key(Some("k0")).unwrap();
    p.license_key(None).unwrap();
    p.backup_map_filename("backup.map").unwrap();
    assert_eq!(p.get_mem_page_size(), 512);
    assert_eq!(p.get_disk_page_size(), 8192);
    assert_eq!(p.get_db_max_connections(), 5);
    assert_eq!(p.get_ddl_dict_size(), 32768);
    assert_eq!(p.get_max_classes(), 100);
    assert_eq!(p.get_max_indexes(), 1000);
    assert_eq!(p.get_db_log_type(), LogType::Redo);
    assert_eq!(p.get_trans_sched_policy(), TransSchedPolicy::WriterFavor);
    assert_eq!(p.get_connection_context_size(), 8);
    assert!(p.get_dynamic_hash());
    assert_eq!(p.get_cipher_key().unwrap(), Some("k0"));
    assert_eq!(p.get_license_key().unwrap(), None);
    assert_eq!(p.get_backup_map_filename().unwrap(), "backup.map");

    let mut lp = LogParams::new();
    assert_eq!(lp.get_default_commit_policy(), CommitPolicy::SyncFlush);
    lp.default_commit_policy(CommitPolicy::Delayed);
    lp.max_delayed_transactions(10);
    lp.redo_log_limit(1024);
    assert_eq!(lp.get_default_commit_policy(), CommitPolicy::Delayed);
    assert_eq!(lp.get_max_delayed_transactions(), 10);
    assert_eq!(lp.get_redo_log_limit(), 1024);
}

#[test]
fn mode_and_compression_masks() {
    let mut m = ModeMask::new();
    m.open_existing(true);
    m.disable_nested_transactions(true);
    assert!(m.get_open_existing());
    assert!(m.get_disable_nested_transactions());
    m.open_existing(false);
    assert!(!m.get_open_existing());
    assert_eq!(ModeMask::from_mco(m.bits()).bits(), m.bits());

    let mut c = CompressionMask::new();
    c.obj_head(true).blob_head(true);
    assert!(c.get_obj_head());
    assert!(c.get_blob_head());
    assert!(!c.get_obj_node());
    assert_eq!(c.bits(), 5);
}

#[test]
fn open_validates_its_request() {
    let runtime = Runtime::start(Vec::new());
    let devs = vec![Device::new_mem_conv(Assignment::Database, 1024 * 1024).unwrap()];
    // An empty or oversized name is rejected.
    assert_eq!(
        Database::open(&runtime, "", None, &devs, Params::new()).err(),
        Some(Error::Core(CoreError(CoreCode::IllegalParam)))
    );
    let long = "n".repeat(65);
    assert!(Database::open(&runtime, &long, None, &devs, Params::new()).is_err());
    // A device set without Database-role space is rejected.
    let no_db = vec![Device::new_mem_conv(Assignment::Cache, 1024).unwrap()];
    assert!(Database::open(&runtime, "nodb", None, &no_db, Params::new()).is_err());
    // A zero page size is rejected.
    let mut zero_page = Params::new();
    zero_page.mem_page_size(0);
    assert!(Database::open(&runtime, "zp", None, &devs, zero_page).is_err());
    // A static dictionary is not supported by this engine build.
    let d = Dictionary::new(1, 1, 1024);
    assert_eq!(
        Database::open(&runtime, "sd", Some(d), &devs, Params::new()).err(),
        Some(Error::Core(CoreError(CoreCode::Unsupported)))
    );
    // A valid request opens.
    assert!(Database::open(&runtime, "ok_db", None, &devs, Params::new()).is_ok());
}

#[test]
fn connection_slots_are_bounded() {
    let runtime = Runtime::start(Vec::new());
    let mut p = Params::new();
    p.db_max_connections(1);
    let devs = vec![Device::new_mem_conv(Assignment::Database, 1024 * 1024).unwrap()];
    let mut db = Database::open(&runtime, "slots", None, &devs, p).unwrap();
    let c1 = Connection::new(&mut db).unwrap();
    assert_eq!(
        Connection::new(&mut db).err(),
        Some(Error::Core(CoreError(CoreCode::TooManyConnections)))
    );
    c1.close(&mut db);
    let c2 = Connection::new(&mut db).unwrap();
    c2.close(&mut db);
}

#[test]
fn dict_builders_and_catalog() {
    let f = DictField::new();
    assert_eq!(f.no, 0);
    let s = DictStruct::new();
    assert_eq!(s.fields.len(), 0);
    let i = DictIndex::new();
    assert!(!i.unique);
    let zf = DictIndexField::zero();
    assert_eq!(zf.fld_no, 0);
    assert_eq!(DictIndexField::new(), zf);
    let ci = DictClassInfo::zero();
    assert_eq!(ci.first_index_num, 0);

    let mut dict = Dictionary::new(2, 2, 4096);
    let mut cls = DictStruct::new();
    cls.name = String::from("Point");
    cls.fields.push(DictField::new());
    let c = dict.add_class(cls).unwrap();
    assert_eq!(c, 0);
    assert_eq!(dict.find_class("Point"), Some(0));
    assert_eq!(dict.find_class("Missing"), None);
    let mut idx = DictIndex::new();
    idx.class_code = 0;
    let mut ixf = DictIndexField::new();
    ixf.fld_no = 0;
    idx.fields.push(ixf);
    assert_eq!(dict.add_index(idx).unwrap(), 0);
    // An index field that does not resolve is rejected.
    let mut bad = DictIndex::new();
    bad.class_code = 0;
    let mut bad_f = DictIndexField::new();
    bad_f.fld_no = 9;
    bad.fields.push(bad_f);
    assert!(dict.add_index(bad).is_err());
}

#[test]
fn ordered_index_operations() {
    let mut ix = OrderedIndex::new(false);
    ix.insert(5, 0).unwrap();
    ix.insert(1, 1).unwrap();
    ix.insert(5, 2).unwrap();
    ix.insert(3, 3).unwrap();
    assert_eq!(ix.len(), 4);
    assert_eq!(ix.lookup(5), Some(0));
    assert_eq!(ix.lookup(2), None);
    assert_eq!(ix.scan_range(i64::MIN, i64::MAX, false), vec![1, 3, 0, 2]);
    assert_eq!(ix.scan_range(2, 5, true), vec![2, 0, 3]);
    assert!(ix.remove(5, 0));
    assert!(!ix.remove(5, 0));
    assert_eq!(ix.lookup(5), Some(2));

    let mut uq = OrderedIndex::new(true);
    uq.insert(9, 0).unwrap();
    assert!(uq.insert(9, 1).is_err());
    assert_eq!(uq.len(), 1);
}

#[test]
fn page_store_first_fit() {
    let mut ps = PageStore::new(128, 512);
    let a = ps.alloc_page().unwrap();
    let b = ps.alloc_page().unwrap();
    assert_eq!(a, 0);
    assert_eq!(b, 1);
    ps.free_page(0);
    assert_eq!(ps.alloc_page().unwrap(), 0);
    ps.alloc_page().unwrap();
    ps.alloc_page().unwrap();
    assert_eq!(
        ps.alloc_page(),
        Err(Error::Core(CoreError(CoreCode::NoMem)))
    );
}

#[test]
fn arena_handles_are_scoped() {
    let mut a = Allocator::new(1);
    let mut b = Allocator::new(2);
    let ra = a.alloc_value(Value::new_int(4));
    let rb = b.alloc_value(Value::new_string("s"));
    assert_eq!(a.get(ra).unwrap().to_i64().unwrap(), 4);
    // A handle shown to a foreign arena is refused deterministically.
    assert!(a.get(rb).is_err());
    assert!(b.get(ra).is_err());
    b.release();
    // After the owning arena is released, the handle can only reach other
    // arenas, which refuse it; the release consumed the arena, so access
    // through it no longer compiles at all.
    assert!(a.get(rb).is_err());
}

#[test]
fn gateway_configuration_and_retries() {
    let mut cp = ClientParams::new("localhost", 25123);
    assert_eq!(cp.max_conn_attempts_v, 10);
    cp.tx_buf_size(1024).max_conn_attempts(3);
    assert_eq!(cp.tx_buf_size_v, 1024);
    assert_eq!(cp.host_v, "localhost");

    let mut sp = ServerParams::new(25123);
    sp.threads(2).listen_queue_size(9);
    assert_eq!(sp.threads_v, 2);
    assert_eq!(sp.listen_queue_size_v, 9);

    let mut st = ConnectState::new(&cp);
    assert!(st.attempt_failed().is_ok());
    assert!(st.attempt_failed().is_ok());
    // The third failure spends the budget of three attempts.
    assert!(st.attempt_failed().is_err());
    assert!(st.attempt_failed().is_err());
}

#[test]
fn index_impl_kind_and_events_default_empty() {
    let idx = DictIndex::new();
    assert_eq!(idx.impl_kind, IndexImpl::BTreeInMem);
    let mut disk = DictIndex::new();
    disk.impl_kind = IndexImpl::RTreeDisk;
    assert_eq!(disk.impl_kind, IndexImpl::RTreeDisk);

    let cls = DictStruct::new();
    assert!(cls.events.is_empty());
    let ev = DictEvent::new();
    assert_eq!(ev.event_type, 0);
    assert_eq!(ev.fld_no, 0);
    assert_eq!(ev.flags, 0);
}
