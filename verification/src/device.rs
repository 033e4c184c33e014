//! Logical database devices.
//!
//! A device describes one byte extent backing part of a database: a region
//! of conventional memory, a named (shared) memory segment, or a file in
//! one of several layouts. In-memory databases need one Database-role
//! memory device; persistent databases add a Cache-role memory device for
//! the page pool and Persistent/Log file devices.
//!
//! Device names must fit fixed-size fields (64 bytes for memory and
//! segmented devices, 256 for plain files, measured in UTF-8 bytes); an
//! oversized name fails with `IllegalParam` rather than being truncated
//! silently.

use vstd::prelude::*;
use vstd::string::StringSliceAdditionalSpecFns;

use crate::{CoreCode, CoreError, Error};

pub mod util;

verus! {

/// The longest admissible name of a named memory, multi-file or RAID
/// device, in UTF-8 bytes.
pub const MAX_SHORT_DEV_NAME: usize = 63;

/// The longest admissible name of a plain file device, in UTF-8 bytes.
pub const MAX_FILE_DEV_NAME: usize = 255;

/// Device assignment: the intended purpose of the device.
#[derive(Clone, Copy, Debug, PartialEq, Eq, Structural)]
pub enum Assignment {
    /// Metadata and database objects, indexes, and other database
    /// structures.
    Database,
    /// Disk manager cache (page pool).
    Cache,
    /// A persistent storage device that contains the data.
    Persistent,
    /// A persistent storage device that contains the database log.
    Log,
}

impl Assignment {
    /// The stable numeric code of each assignment.
    pub open spec fn code(self) -> u32 {
        match self {
            Assignment::Database => 0,
            Assignment::Cache => 1,
            Assignment::Persistent => 2,
            Assignment::Log => 3,
        }
    }

    /// Returns the stable numeric code of this assignment.
    pub fn to_mco(&self) -> (r: u32)
        ensures
            r == self.code(),
    {
        match self {
            Assignment::Database => 0,
            Assignment::Cache => 1,
            Assignment::Persistent => 2,
            Assignment::Log => 3,
        }
    }
}

/// Shared memory device flags.
#[derive(Clone, Copy, Debug, PartialEq, Eq, Structural)]
pub struct NamedMemFlags(pub u32);

impl NamedMemFlags {
    /// Creates an empty flags structure. All flags are reset.
    pub fn new() -> (r: Self)
        ensures
            r.0 == 0u32,
    {
        NamedMemFlags(0)
    }

    /// Enables anonymous memory mapping.
    pub fn anonymous(&mut self) -> (r: &mut Self)
        ensures
            (*r).0 == (old(self).0 | 1u32),
            *final(self) == *final(r),
    {
        self.0 = self.0 | 1;
        self
    }

    /// Enables shared memory mapping; private mapping is used otherwise.
    pub fn shared(&mut self) -> (r: &mut Self)
        ensures
            (*r).0 == (old(self).0 | 2u32),
            *final(self) == *final(r),
    {
        self.0 = self.0 | 2;
        self
    }

    /// Requests huge pages for the mapping, where available.
    pub fn huge_tlb(&mut self) -> (r: &mut Self)
        ensures
            (*r).0 == (old(self).0 | 4u32),
            *final(self) == *final(r),
    {
        self.0 = self.0 | 4;
        self
    }
}

/// Flags for persistent (file-backed) devices, for fine tuning of file
/// system operations; the default produced by [`FileOpenFlags::new`] suits
/// most applications.
#[derive(Clone, Copy, Debug, PartialEq, Eq, Structural)]
pub struct FileOpenFlags(pub u32);

impl FileOpenFlags {
    /// The standard, fail-safe way to open a file on the target platform.
    pub fn new() -> (r: Self)
        ensures
            r.0 == 0u32,
    {
        FileOpenFlags(0)
    }

    /// Opens the file in read-only mode.
    pub fn read_only(&mut self) -> (r: &mut Self)
        ensures
            (*r).0 == (old(self).0 | 1u32),
            *final(self) == *final(r),
    {
        self.0 = self.0 | 1;
        self
    }

    /// Truncates the file after opening.
    pub fn truncate(&mut self) -> (r: &mut Self)
        ensures
            (*r).0 == (old(self).0 | 2u32),
            *final(self) == *final(r),
    {
        self.0 = self.0 | 2;
        self
    }

    /// Asks the filesystem to disable caching.
    pub fn no_buffering(&mut self) -> (r: &mut Self)
        ensures
            (*r).0 == (old(self).0 | 4u32),
            *final(self) == *final(r),
    {
        self.0 = self.0 | 4;
        self
    }

    /// Requires the file to exist; a new file is not created.
    pub fn existing(&mut self) -> (r: &mut Self)
        ensures
            (*r).0 == (old(self).0 | 8u32),
            *final(self) == *final(r),
    {
        self.0 = self.0 | 8;
        self
    }

    /// Opens the file as temporary.
    pub fn temporary(&mut self) -> (r: &mut Self)
        ensures
            (*r).0 == (old(self).0 | 16u32),
            *final(self) == *final(r),
    {
        self.0 = self.0 | 16;
        self
    }

    /// Enables the flush-operation fix of the portable filesystem wrapper.
    pub fn fsync_fix(&mut self) -> (r: &mut Self)
        ensures
            (*r).0 == (old(self).0 | 32u32),
            *final(self) == *final(r),
    {
        self.0 = self.0 | 32;
        self
    }

    /// Takes the RAID offset into account for all segments of a RAID set.
    pub fn subpartition(&mut self) -> (r: &mut Self)
        ensures
            (*r).0 == (old(self).0 | 64u32),
            *final(self) == *final(r),
    {
        self.0 = self.0 | 64;
        self
    }

    /// Executes a barrier for flush operations on asynchronous I/O.
    pub fn fsync_aio_barrier(&mut self) -> (r: &mut Self)
        ensures
            (*r).0 == (old(self).0 | 128u32),
            *final(self) == *final(r),
    {
        self.0 = self.0 | 128;
        self
    }

    /// Enables file compression where the filesystem wrapper supports it.
    pub fn compressed(&mut self) -> (r: &mut Self)
        ensures
            (*r).0 == (old(self).0 | 256u32),
            *final(self) == *final(r),
    {
        self.0 = self.0 | 256;
        self
    }

    /// Uses advisory locking to guard the file.
    pub fn lock(&mut self) -> (r: &mut Self)
        ensures
            (*r).0 == (old(self).0 | 512u32),
            *final(self) == *final(r),
    {
        self.0 = self.0 | 512;
        self
    }

    /// Disables pre-read hints.
    pub fn no_read_buffering(&mut self) -> (r: &mut Self)
        ensures
            (*r).0 == (old(self).0 | 1024u32),
            *final(self) == *final(r),
    {
        self.0 = self.0 | 1024;
        self
    }

    /// Disables pre-write hints.
    pub fn no_write_buffering(&mut self) -> (r: &mut Self)
        ensures
            (*r).0 == (old(self).0 | 2048u32),
            *final(self) == *final(r),
    {
        self.0 = self.0 | 2048;
        self
    }
}

/// A logical device: one byte extent backing part of a database.
pub enum Device {
    /// Conventional memory, allocated for this database alone.
    MemConv {
        /// The intended purpose of the device.
        assignment: Assignment,
        /// The extent size in bytes.
        size: u64,
    },
    /// A named (shared) memory segment, reattachable by a second process.
    MemNamed {
        /// The intended purpose of the device.
        assignment: Assignment,
        /// The extent size in bytes.
        size: u64,
        /// The segment name.
        name: String,
        /// Mapping flags.
        flags: NamedMemFlags,
        /// The fixed mapping address hint; zero lets the engine choose.
        hint: u64,
    },
    /// A single file.
    File {
        /// The intended purpose of the device.
        assignment: Assignment,
        /// File open flags.
        flags: FileOpenFlags,
        /// The file path.
        name: String,
    },
    /// A segmented file set with a fixed segment size.
    MultiFile {
        /// The intended purpose of the device.
        assignment: Assignment,
        /// File open flags.
        flags: FileOpenFlags,
        /// The path stem of the segments.
        name: String,
        /// The size of each segment in bytes.
        segment_size: u64,
    },
    /// A RAID-style striped file set.
    Raid {
        /// The intended purpose of the device.
        assignment: Assignment,
        /// File open flags.
        flags: FileOpenFlags,
        /// The path stem of the stripes.
        name: String,
        /// The RAID level.
        level: i32,
        /// The stripe offset in bytes.
        offset: u64,
    },
}

impl Device {
    /// Creates a new in-memory device of `s` bytes backed by conventional
    /// memory.
    pub fn new_mem_conv(a: Assignment, s: usize) -> (r: Result<Self, Error>)
        ensures
            r == Ok::<Device, Error>(Device::MemConv { assignment: a, size: s as u64 }),
    {
        Ok(Device::MemConv { assignment: a, size: s as u64 })
    }

    /// Creates a new named (shared) memory device. The `hint` is the fixed
    /// mapping address; zero lets the engine choose one.
    ///
    /// Fails with `IllegalParam` exactly when the name is longer than the
    /// fixed-size name field admits.
    pub fn new_mem_named(a: Assignment, s: usize, name: &str, flags: NamedMemFlags, hint: usize)
        -> (r: Result<Self, Error>)
        ensures
            (name.spec_bytes().len() > MAX_SHORT_DEV_NAME ==> r == Err::<Device, Error>(
                Error::Core(CoreError(CoreCode::IllegalParam)),
            )),
            (name.spec_bytes().len() <= MAX_SHORT_DEV_NAME ==> (r matches Ok(d) && d matches Device::MemNamed {
                assignment,
                size,
                name: n,
                flags: f,
                hint: h,
            } && assignment == a && size == s as u64 && n@ == name@ && f == flags && h == (
            hint as u64))),
    {
        if name.as_bytes().len() > MAX_SHORT_DEV_NAME {
            return Err(Error::Core(CoreError(CoreCode::IllegalParam)));
        }
        Ok(Device::MemNamed {
            assignment: a,
            size: s as u64,
            name: name.to_owned(),
            flags,
            hint: hint as u64,
        })
    }

    /// Creates a new file device.
    ///
    /// Fails with `IllegalParam` exactly when the name is longer than the
    /// fixed-size name field admits.
    pub fn new_file(a: Assignment, flags: FileOpenFlags, name: &str) -> (r: Result<Self, Error>)
        ensures
            (name.spec_bytes().len() > MAX_FILE_DEV_NAME ==> r == Err::<Device, Error>(
                Error::Core(CoreError(CoreCode::IllegalParam)),
            )),
            (name.spec_bytes().len() <= MAX_FILE_DEV_NAME ==> (r matches Ok(d) && d matches Device::File {
                assignment,
                flags: f,
                name: n,
            } && assignment == a && f == flags && n@ == name@)),
    {
        if name.as_bytes().len() > MAX_FILE_DEV_NAME {
            return Err(Error::Core(CoreError(CoreCode::IllegalParam)));
        }
        Ok(Device::File { assignment: a, flags, name: name.to_owned() })
    }

    /// Creates a new multi-file device with the given segment size.
    ///
    /// Fails with `IllegalParam` exactly when the name is longer than the
    /// fixed-size name field admits.
    pub fn new_multifile(a: Assignment, flags: FileOpenFlags, name: &str, segment_size: isize)
        -> (r: Result<Self, Error>)
        ensures
            (name.spec_bytes().len() > MAX_SHORT_DEV_NAME ==> r == Err::<Device, Error>(
                Error::Core(CoreError(CoreCode::IllegalParam)),
            )),
            (name.spec_bytes().len() <= MAX_SHORT_DEV_NAME ==> (r matches Ok(d) && d
                matches Device::MultiFile { assignment, flags: f, name: n, segment_size: g }
                && assignment == a && f == flags && n@ == name@ && g == (segment_size as u64))),
    {
        if name.as_bytes().len() > MAX_SHORT_DEV_NAME {
            return Err(Error::Core(CoreError(CoreCode::IllegalParam)));
        }
        Ok(Device::MultiFile {
            assignment: a,
            flags,
            name: name.to_owned(),
            segment_size: segment_size as u64,
        })
    }

    /// Creates a new RAID device with the given level and offset.
    ///
    /// Fails with `IllegalParam` exactly when the name is longer than the
    /// fixed-size name field admits.
    pub fn new_raid(a: Assignment, flags: FileOpenFlags, name: &str, level: i32, offset: isize)
        -> (r: Result<Self, Error>)
        ensures
            (name.spec_bytes().len() > MAX_SHORT_DEV_NAME ==> r == Err::<Device, Error>(
                Error::Core(CoreError(CoreCode::IllegalParam)),
            )),
            (name.spec_bytes().len() <= MAX_SHORT_DEV_NAME ==> (r matches Ok(d) && d matches Device::Raid {
                assignment,
                flags: f,
                name: n,
                level: l,
                offset: o,
            } && assignment == a && f == flags && n@ == name@ && l == level && o == (
            offset as u64))),
    {
        if name.as_bytes().len() > MAX_SHORT_DEV_NAME {
            return Err(Error::Core(CoreError(CoreCode::IllegalParam)));
        }
        Ok(Device::Raid {
            assignment: a,
            flags,
            name: name.to_owned(),
            level,
            offset: offset as u64,
        })
    }

    /// The assignment of a device.
    pub open spec fn spec_assignment(self) -> Assignment {
        match self {
            Device::MemConv { assignment, .. } => assignment,
            Device::MemNamed { assignment, .. } => assignment,
            Device::File { assignment, .. } => assignment,
            Device::MultiFile { assignment, .. } => assignment,
            Device::Raid { assignment, .. } => assignment,
        }
    }

    /// The byte size of a memory device; file devices grow on demand and
    /// report zero.
    pub open spec fn spec_size(self) -> u64 {
        match self {
            Device::MemConv { size, .. } => size,
            Device::MemNamed { size, .. } => size,
            Device::File { .. } => 0,
            Device::MultiFile { .. } => 0,
            Device::Raid { .. } => 0,
        }
    }

    /// Returns the assignment of this device.
    pub fn assignment(&self) -> (r: Assignment)
        ensures
            r == self.spec_assignment(),
    {
        match self {
            Device::MemConv { assignment, .. } => *assignment,
            Device::MemNamed { assignment, .. } => *assignment,
            Device::File { assignment, .. } => *assignment,
            Device::MultiFile { assignment, .. } => *assignment,
            Device::Raid { assignment, .. } => *assignment,
        }
    }

    /// Returns the byte size of this device (zero for file-backed kinds,
    /// which grow on demand).
    pub fn size(&self) -> (r: u64)
        ensures
            r == self.spec_size(),
    {
        match self {
            Device::MemConv { size, .. } => *size,
            Device::MemNamed { size, .. } => *size,
            Device::File { .. } => 0,
            Device::MultiFile { .. } => 0,
            Device::Raid { .. } => 0,
        }
    }

    /// Returns the file path of a plain file device, `None` for every
    /// other kind.
    pub fn file_name(&self) -> (r: Option<&str>)
        ensures
            (self matches Device::File { name, .. } ==> r matches Some(s) && s@ == name@),
            !(self is File) ==> r is None,
    {
        match self {
            Device::File { name, .. } => Some(name.as_str()),
            _ => None,
        }
    }
}

} // verus!
