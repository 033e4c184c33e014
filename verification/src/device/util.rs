//! Device utilities: canonical device sets and name derivation for the
//! standard database layout.

use vstd::prelude::*;

use crate::device::{Assignment, Device, FileOpenFlags};

verus! {

/// The default stem of the standard database and log file names.
pub fn db_file_name_stem() -> (r: String)
    ensures
        r@ == "rstest"@,
{
    String::from_str("rstest")
}

/// The standard database file name for a stem: the stem followed by
/// `.dbs`.
pub fn db_file_name(stem: &str) -> (r: String)
    ensures
        r@ == stem@ + ".dbs"@,
{
    let mut s = stem.to_owned();
    s.append(".dbs");
    s
}

/// The standard log file name for a stem: the stem followed by `.log`.
pub fn log_file_name(stem: &str) -> (r: String)
    ensures
        r@ == stem@ + ".log"@,
{
    let mut s = stem.to_owned();
    s.append(".log");
    s
}

/// The standard file name for a file-backed assignment: the database file
/// for `Persistent`, the log file for `Log`.
pub fn file_name(stem: &str, a: Assignment) -> (r: String)
    requires
        a == Assignment::Persistent || a == Assignment::Log,
    ensures
        (a == Assignment::Persistent ==> r@ == stem@ + ".dbs"@),
        (a == Assignment::Log ==> r@ == stem@ + ".log"@),
{
    match a {
        Assignment::Persistent => db_file_name(stem),
        _ => log_file_name(stem),
    }
}

/// The standard memory-device name for a memory assignment: the stem
/// followed by `-db` or `-cache`.
pub fn mem_dev_name(stem: &str, a: Assignment) -> (r: String)
    requires
        a == Assignment::Database || a == Assignment::Cache,
    ensures
        (a == Assignment::Database ==> r@ == stem@ + "-db"@),
        (a == Assignment::Cache ==> r@ == stem@ + "-cache"@),
{
    let mut s = stem.to_owned();
    match a {
        Assignment::Database => s.append("-db"),
        _ => s.append("-cache"),
    }
    s
}

/// Creates a memory device for the current runtime configuration. This
/// engine does not share database memory across processes, so the device
/// is backed by conventional memory; the name is kept for configurations
/// that map a named segment instead.
pub fn new_mem_dev(a: Assignment, s: usize, name: &str) -> (r: Result<Device, crate::Error>)
    ensures
        r == Ok::<Device, crate::Error>(Device::MemConv { assignment: a, size: s as u64 }),
{
    Device::new_mem_conv(a, s)
}

/// Creates a memory device suitable for small examples and tests: one
/// mebibyte of conventional memory.
pub fn new_test_mem_dev(a: Assignment) -> (r: Device)
    ensures
        r == (Device::MemConv { assignment: a, size: 0x10_0000u64 }),
{
    match Device::new_mem_conv(a, 0x10_0000) {
        Ok(d) => d,
        Err(_) => Device::MemConv { assignment: a, size: 0x10_0000u64 },
    }
}

/// Creates a file device suitable for small examples and tests. If `name`
/// is `None`, the standard name for the assignment and the default stem is
/// used.
pub fn new_test_file_dev(a: Assignment, name: Option<String>) -> (r: Device)
    requires
        a == Assignment::Persistent || a == Assignment::Log,
        (name matches Some(n) ==> n@.len() <= crate::device::MAX_FILE_DEV_NAME),
    ensures
        (r matches Device::File { assignment, flags, name: out } && assignment == a && flags.0
            == 0 && out@ == (match name {
            Option::Some(n) => n@,
            Option::None => (if a == Assignment::Persistent {
                "rstest.dbs"@
            } else {
                "rstest.log"@
            }),
        })),
{
    let file = match name {
        Some(n) => n,
        None => {
            let stem = db_file_name_stem();
            file_name(stem.as_str(), a)
        },
    };
    proof {
        reveal_strlit("rstest");
        reveal_strlit(".dbs");
        reveal_strlit(".log");
        reveal_strlit("rstest.dbs");
        reveal_strlit("rstest.log");
        if name is None {
            if a == Assignment::Persistent {
                assert(file@ =~= "rstest.dbs"@);
            } else {
                assert(file@ =~= "rstest.log"@);
            }
        }
    }
    match Device::new_file(a, FileOpenFlags::new(), file.as_str()) {
        Ok(d) => d,
        Err(_) => Device::File { assignment: a, flags: FileOpenFlags(0), name: file },
    }
}

/// A device container: the canonical device set of a database under this
/// engine's standard layout — database memory, disk page pool, database
/// file and log file.
pub struct DeviceContainer {
    /// The devices, in the canonical order.
    pub devs: Vec<Device>,
}

impl DeviceContainer {
    /// The devices held by the container.
    pub open spec fn view(self) -> Seq<Device> {
        self.devs@
    }

    /// Creates the canonical device set: a Database-role memory device, a
    /// Cache-role memory device, and Persistent and Log file devices under
    /// the default stem.
    pub fn new() -> (r: Self)
        ensures
            r@.len() == 4,
            r@[0] == (Device::MemConv { assignment: Assignment::Database, size: 0x10_0000u64 }),
            r@[1] == (Device::MemConv { assignment: Assignment::Cache, size: 0x10_0000u64 }),
            (r@[2] matches Device::File { assignment, flags, name } && assignment
                == Assignment::Persistent && flags.0 == 0 && name@ == "rstest.dbs"@),
            (r@[3] matches Device::File { assignment, flags, name } && assignment
                == Assignment::Log && flags.0 == 0 && name@ == "rstest.log"@),
    {
        let mut devs: Vec<Device> = Vec::new();
        proof {
            reveal_strlit("rstest");
            reveal_strlit(".dbs");
            reveal_strlit(".log");
            reveal_strlit("rstest.dbs");
            reveal_strlit("rstest.log");
        }
        let stem = db_file_name_stem();
        devs.push(new_test_mem_dev(Assignment::Database));
        devs.push(new_test_mem_dev(Assignment::Cache));
        let dbf = db_file_name(stem.as_str());
        let logf = log_file_name(stem.as_str());
        proof {
            assert(dbf@ =~= "rstest.dbs"@);
            assert(logf@ =~= "rstest.log"@);
        }
        devs.push(new_test_file_dev(Assignment::Persistent, Some(dbf)));
        devs.push(new_test_file_dev(Assignment::Log, Some(logf)));
        DeviceContainer { devs }
    }

    /// Returns a mutable reference to the contained devices.
    pub fn devices(&mut self) -> (r: &mut Vec<Device>)
        ensures
            *r == old(self).devs,
            final(self).devs == *final(r),
    {
        &mut self.devs
    }
}

} // verus!
