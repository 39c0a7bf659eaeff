//! File-like objects, their metadata and the descriptor table.

use vstd::prelude::*;
use crate::errno::SysError;

verus! {

/// A point in time: seconds and nanoseconds.
#[derive(Clone, Copy, Debug, PartialEq, Eq, Structural)]
pub struct Timestamp {
    pub sec: i64,
    pub nsec: u32,
}

/// What the filesystem backend reports of an open object.
#[derive(Clone, Copy, Debug, PartialEq, Eq, Structural)]
pub struct FileAttr {
    /// Permission bits; the nine lowest are read, write and execute for
    /// owner, group and others.
    pub perm: u16,
    /// Size in bytes.
    pub size: u64,
    /// Number of 512-byte blocks.
    pub blocks: u64,
    pub atime: Timestamp,
    pub mtime: Timestamp,
    pub ctime: Timestamp,
}

/// File metadata, independent of the layout it is handed out in.
#[derive(Clone, Copy, Debug, PartialEq, Eq, Structural)]
pub struct Kstat {
    pub dev: u64,
    pub ino: u64,
    pub mode: u32,
    pub nlink: u32,
    pub uid: u32,
    pub gid: u32,
    pub rdev: u64,
    pub size: u64,
    pub blksize: u32,
    pub blocks: u64,
    pub atime: Timestamp,
    pub mtime: Timestamp,
    pub ctime: Timestamp,
}

/// Metadata in the layout of the `stat` system calls.
#[derive(Clone, Copy, Debug, PartialEq, Eq, Structural)]
pub struct Stat {
    pub st_dev: u64,
    pub st_ino: u64,
    pub st_nlink: u64,
    pub st_mode: u32,
    pub st_uid: u32,
    pub st_gid: u32,
    pub st_rdev: u64,
    pub st_size: i64,
    pub st_blksize: i64,
    pub st_blocks: i64,
    pub st_atime: i64,
    pub st_atime_nsec: u64,
    pub st_mtime: i64,
    pub st_mtime_nsec: u64,
    pub st_ctime: i64,
    pub st_ctime_nsec: u64,
}

/// Metadata in the extended layout of `statx`.
#[derive(Clone, Copy, Debug, PartialEq, Eq, Structural)]
pub struct Statx {
    pub stx_mask: u32,
    pub stx_blksize: u32,
    pub stx_nlink: u32,
    pub stx_uid: u32,
    pub stx_gid: u32,
    pub stx_mode: u16,
    pub stx_ino: u64,
    pub stx_size: u64,
    pub stx_blocks: u64,
    pub stx_atime: Timestamp,
    pub stx_ctime: Timestamp,
    pub stx_mtime: Timestamp,
    pub stx_rdev_major: u32,
    pub stx_rdev_minor: u32,
    pub stx_dev_major: u32,
    pub stx_dev_minor: u32,
}

/// Mask of the file-type bits of a mode.
pub const S_IFMT: u32 = 0o170000;

/// File-type bits of a regular file.
pub const S_IFREG: u32 = 0o100000;

/// File-type bits of a directory.
pub const S_IFDIR: u32 = 0o040000;

/// The basic fields of `statx`: what `stx_mask` announces.
pub const STATX_BASIC_STATS: u32 = 0x7ff;

/// The mode of a regular file with the given permission bits.
pub open spec fn file_mode(perm: u16) -> u32 {
    S_IFREG | ((perm as u32) & 0o777)
}

/// The mode of a directory with the given permission bits.
pub open spec fn dir_mode(perm: u16) -> u32 {
    S_IFDIR | ((perm as u32) & 0o777)
}

/// The metadata of an object with the given mode and backend attributes.
pub open spec fn kstat_of(mode: u32, attr: FileAttr) -> Kstat {
    Kstat {
        dev: 0,
        ino: 1,
        mode: mode,
        nlink: 1,
        uid: 1,
        gid: 1,
        rdev: 0,
        size: attr.size,
        blksize: 512,
        blocks: attr.blocks,
        atime: attr.atime,
        mtime: attr.mtime,
        ctime: attr.ctime,
    }
}

/// The upper half of a device number.
pub open spec fn dev_major(dev: u64) -> u32 {
    (dev >> 32) as u32
}

/// The lower half of a device number.
pub open spec fn dev_minor(dev: u64) -> u32 {
    (dev & 0xffff_ffff) as u32
}

impl Stat {
    /// A record with every field zero, as a fresh buffer holds it.
    pub fn zeroed() -> (s: Stat)
        ensures
            s == (Stat {
                st_dev: 0,
                st_ino: 0,
                st_nlink: 0,
                st_mode: 0,
                st_uid: 0,
                st_gid: 0,
                st_rdev: 0,
                st_size: 0,
                st_blksize: 0,
                st_blocks: 0,
                st_atime: 0,
                st_atime_nsec: 0,
                st_mtime: 0,
                st_mtime_nsec: 0,
                st_ctime: 0,
                st_ctime_nsec: 0,
            }),
    {
        Stat {
            st_dev: 0,
            st_ino: 0,
            st_nlink: 0,
            st_mode: 0,
            st_uid: 0,
            st_gid: 0,
            st_rdev: 0,
            st_size: 0,
            st_blksize: 0,
            st_blocks: 0,
            st_atime: 0,
            st_atime_nsec: 0,
            st_mtime: 0,
            st_mtime_nsec: 0,
            st_ctime: 0,
            st_ctime_nsec: 0,
        }
    }
}

impl Statx {
    /// A record with every field zero, as a fresh buffer holds it.
    pub fn zeroed() -> (s: Statx)
        ensures
            s == (Statx {
                stx_mask: 0,
                stx_blksize: 0,
                stx_nlink: 0,
                stx_uid: 0,
                stx_gid: 0,
                stx_mode: 0,
                stx_ino: 0,
                stx_size: 0,
                stx_blocks: 0,
                stx_atime: Timestamp { sec: 0, nsec: 0 },
                stx_ctime: Timestamp { sec: 0, nsec: 0 },
                stx_mtime: Timestamp { sec: 0, nsec: 0 },
                stx_rdev_major: 0,
                stx_rdev_minor: 0,
                stx_dev_major: 0,
                stx_dev_minor: 0,
            }),
    {
        let t = Timestamp { sec: 0, nsec: 0 };
        Statx {
            stx_mask: 0,
            stx_blksize: 0,
            stx_nlink: 0,
            stx_uid: 0,
            stx_gid: 0,
            stx_mode: 0,
            stx_ino: 0,
            stx_size: 0,
            stx_blocks: 0,
            stx_atime: t,
            stx_ctime: t,
            stx_mtime: t,
            stx_rdev_major: 0,
            stx_rdev_minor: 0,
            stx_dev_major: 0,
            stx_dev_minor: 0,
        }
    }
}

impl Kstat {
    /// This metadata in the `stat` layout.
    pub open spec fn stat_view(self) -> Stat {
        Stat {
            st_dev: self.dev,
            st_ino: self.ino,
            st_nlink: self.nlink as u64,
            st_mode: self.mode,
            st_uid: self.uid,
            st_gid: self.gid,
            st_rdev: self.rdev,
            st_size: self.size as i64,
            st_blksize: self.blksize as i64,
            st_blocks: self.blocks as i64,
            st_atime: self.atime.sec,
            st_atime_nsec: self.atime.nsec as u64,
            st_mtime: self.mtime.sec,
            st_mtime_nsec: self.mtime.nsec as u64,
            st_ctime: self.ctime.sec,
            st_ctime_nsec: self.ctime.nsec as u64,
        }
    }

    /// This metadata in the `statx` layout.
    pub open spec fn statx_view(self) -> Statx {
        Statx {
            stx_mask: STATX_BASIC_STATS,
            stx_blksize: self.blksize,
            stx_nlink: self.nlink,
            stx_uid: self.uid,
            stx_gid: self.gid,
            stx_mode: (self.mode & 0xffff) as u16,
            stx_ino: self.ino,
            stx_size: self.size,
            stx_blocks: self.blocks,
            stx_atime: self.atime,
            stx_ctime: self.ctime,
            stx_mtime: self.mtime,
            stx_rdev_major: dev_major(self.rdev),
            stx_rdev_minor: dev_minor(self.rdev),
            stx_dev_major: dev_major(self.dev),
            stx_dev_minor: dev_minor(self.dev),
        }
    }

    /// Whether the mode says that this is a regular file.
    pub open spec fn is_regular(self) -> bool {
        self.mode & S_IFMT == S_IFREG
    }

    /// Whether the mode says that this is a directory.
    pub open spec fn is_directory(self) -> bool {
        self.mode & S_IFMT == S_IFDIR
    }

    /// Converts to the `stat` layout. Sizes and counts above `i64::MAX` wrap,
    /// as the layout's signed fields make them.
    pub fn to_stat(&self) -> (s: Stat)
        ensures
            s == self.stat_view(),
    {
        Stat {
            st_dev: self.dev,
            st_ino: self.ino,
            st_nlink: self.nlink as u64,
            st_mode: self.mode,
            st_uid: self.uid,
            st_gid: self.gid,
            st_rdev: self.rdev,
            st_size: wrap_signed(self.size),
            st_blksize: self.blksize as i64,
            st_blocks: wrap_signed(self.blocks),
            st_atime: self.atime.sec,
            st_atime_nsec: self.atime.nsec as u64,
            st_mtime: self.mtime.sec,
            st_mtime_nsec: self.mtime.nsec as u64,
            st_ctime: self.ctime.sec,
            st_ctime_nsec: self.ctime.nsec as u64,
        }
    }

    /// Converts to the `statx` layout.
    pub fn to_statx(&self) -> (s: Statx)
        ensures
            s == self.statx_view(),
    {
        let raw: u32 = self.mode;
        let mode: u32 = raw & 0xffff;
        assert(mode <= 0xffff) by (bit_vector)
            requires
                mode == raw & 0xffff,
        ;
        Statx {
            stx_mask: STATX_BASIC_STATS,
            stx_blksize: self.blksize,
            stx_nlink: self.nlink,
            stx_uid: self.uid,
            stx_gid: self.gid,
            stx_mode: mode as u16,
            stx_ino: self.ino,
            stx_size: self.size,
            stx_blocks: self.blocks,
            stx_atime: self.atime,
            stx_ctime: self.ctime,
            stx_mtime: self.mtime,
            stx_rdev_major: upper_half(self.rdev),
            stx_rdev_minor: lower_half(self.rdev),
            stx_dev_major: upper_half(self.dev),
            stx_dev_minor: lower_half(self.dev),
        }
    }
}

fn wrap_signed(v: u64) -> (r: i64)
    ensures
        r == v as i64,
{
    #[verifier::truncate]
    (v as i64)
}

fn upper_half(dev: u64) -> (r: u32)
    ensures
        r == dev_major(dev),
{
    let h: u64 = dev >> 32;
    assert(h <= 0xffff_ffff) by (bit_vector)
        requires
            h == dev >> 32,
    ;
    h as u32
}

fn lower_half(dev: u64) -> (r: u32)
    ensures
        r == dev_minor(dev),
{
    let l: u64 = dev & 0xffff_ffff;
    assert(l <= 0xffff_ffff) by (bit_vector)
        requires
            l == dev & 0xffff_ffff,
    ;
    l as u32
}

/// An open object that metadata can be asked of.
#[derive(Debug)]
pub enum FileLike {
    /// A regular file: what the backend reports of it and the path it was
    /// opened from.
    File { attr: FileAttr, path: String },
    /// A directory, likewise.
    Directory { attr: FileAttr, path: String },
}

impl FileLike {
    /// What the backend reports of the object.
    pub open spec fn attr(&self) -> FileAttr {
        match self {
            FileLike::File { attr, .. } => *attr,
            FileLike::Directory { attr, .. } => *attr,
        }
    }

    /// The path the object was opened from.
    pub open spec fn path(&self) -> Seq<char> {
        match self {
            FileLike::File { path, .. } => path@,
            FileLike::Directory { path, .. } => path@,
        }
    }

    /// The object's metadata.
    pub open spec fn kstat(&self) -> Kstat {
        match self {
            FileLike::File { attr, .. } => kstat_of(file_mode(attr.perm), *attr),
            FileLike::Directory { attr, .. } => kstat_of(dir_mode(attr.perm), *attr),
        }
    }

    /// A regular file with the given attributes, opened from `path`.
    pub fn new_file(attr: FileAttr, path: &str) -> (f: FileLike)
        ensures
            f is File,
            f.attr() == attr,
            f.path() == path@,
    {
        FileLike::File { attr, path: String::from_str(path) }
    }

    /// A directory with the given attributes, opened from `path`.
    pub fn new_directory(attr: FileAttr, path: &str) -> (f: FileLike)
        ensures
            f is Directory,
            f.attr() == attr,
            f.path() == path@,
    {
        FileLike::Directory { attr, path: String::from_str(path) }
    }

    /// The backend attributes: permission bits, size and timestamps.
    pub fn attributes(&self) -> (a: FileAttr)
        ensures
            a == self.attr(),
    {
        match self {
            FileLike::File { attr, .. } => *attr,
            FileLike::Directory { attr, .. } => *attr,
        }
    }

    /// The object's metadata: the file-type bits of its kind joined with the
    /// nine permission bits, the size, block count and timestamps of the
    /// backend, and fixed values for what the backend does not keep.
    pub fn stat(&self) -> (k: Kstat)
        ensures
            k == self.kstat(),
    {
        match self {
            FileLike::File { attr, .. } => make_kstat(S_IFREG | ((attr.perm as u32) & 0o777), attr),
            FileLike::Directory { attr, .. } => make_kstat(
                S_IFDIR | ((attr.perm as u32) & 0o777),
                attr,
            ),
        }
    }
}

fn make_kstat(mode: u32, attr: &FileAttr) -> (k: Kstat)
    ensures
        k == kstat_of(mode, *attr),
{
    Kstat {
        dev: 0,
        ino: 1,
        mode,
        nlink: 1,
        uid: 1,
        gid: 1,
        rdev: 0,
        size: attr.size,
        blksize: 512,
        blocks: attr.blocks,
        atime: attr.atime,
        mtime: attr.mtime,
        ctime: attr.ctime,
    }
}

/// The table of open descriptors: descriptor `fd` is slot `fd`.
pub struct FdTable {
    slots: Vec<Option<FileLike>>,
}

impl FdTable {
    /// The slots of the table, by descriptor.
    pub closed spec fn view(&self) -> Seq<Option<FileLike>> {
        self.slots@
    }

    /// The object that `fd` names, if it is open.
    pub open spec fn lookup(&self, fd: i32) -> Option<FileLike> {
        if 0 <= fd < self@.len() {
            self@[fd as int]
        } else {
            None
        }
    }

    /// A table with no open descriptor.
    pub fn new() -> (t: FdTable)
        ensures
            t@.len() == 0,
    {
        FdTable { slots: Vec::new() }
    }

    /// Opens a descriptor for `f`: the number after the last one handed out.
    /// `None` where the numbers are used up; the table is then unchanged.
    pub fn add_file_like(&mut self, f: FileLike) -> (fd: Option<i32>)
        ensures
            old(self)@.len() < i32::MAX ==> fd == Some(old(self)@.len() as i32) && final(self)@
                == old(self)@.push(Some(f)),
            old(self)@.len() >= i32::MAX ==> fd.is_none() && final(self)@ == old(self)@,
    {
        let n: usize = self.slots.len();
        if n < i32::MAX as usize {
            self.slots.push(Some(f));
            Some(n as i32)
        } else {
            None
        }
    }

    /// Closes `fd`. Returns whether it was open.
    pub fn close(&mut self, fd: i32) -> (was_open: bool)
        ensures
            was_open == old(self).lookup(fd).is_some(),
            was_open ==> final(self)@ == old(self)@.update(fd as int, None),
            !was_open ==> final(self)@ == old(self)@,
    {
        if fd < 0 || fd as usize >= self.slots.len() {
            return false;
        }
        let was_open: bool = self.slots[fd as usize].is_some();
        if was_open {
            self.slots.set(fd as usize, None);
        }
        was_open
    }

    /// The object that `fd` names, or bad-descriptor where `fd` is not open.
    pub fn get_file_like(&self, fd: i32) -> (r: Result<&FileLike, SysError>)
        ensures
            match self.lookup(fd) {
                Some(f) => r == Ok::<&FileLike, SysError>(&f),
                None => r == Err::<&FileLike, SysError>(SysError::BadDescriptor),
            },
    {
        if fd < 0 || fd as usize >= self.slots.len() {
            return Err(SysError::BadDescriptor);
        }
        match &self.slots[fd as usize] {
            Some(f) => Ok(f),
            None => Err(SysError::BadDescriptor),
        }
    }
}

/// A regular file's mode says that it is a regular file, a directory's that
/// it is a directory, whatever the permission bits.
pub proof fn mode_tells_kind(f: FileLike)
    ensures
        f is File ==> f.kstat().is_regular() && !f.kstat().is_directory(),
        f is Directory ==> f.kstat().is_directory() && !f.kstat().is_regular(),
        f.kstat().size == f.attr().size,
{
    let p: u32 = f.attr().perm as u32;
    assert((0o100000u32 | (p & 0o777)) & 0o170000 == 0o100000) by (bit_vector);
    assert((0o040000u32 | (p & 0o777)) & 0o170000 == 0o040000) by (bit_vector);
}

/// Both layouts keep size, mode and timestamps: a size that fits the signed
/// field is the same in both, and so are the sixteen low bits of the mode.
pub proof fn layouts_agree(k: Kstat)
    ensures
        k.size <= i64::MAX ==> k.stat_view().st_size == k.size == k.statx_view().stx_size,
        k.blocks <= i64::MAX ==> k.stat_view().st_blocks == k.blocks == k.statx_view().stx_blocks,
        k.mode <= 0xffff ==> k.stat_view().st_mode == k.statx_view().stx_mode,
        k.stat_view().st_blksize == k.blksize == k.statx_view().stx_blksize,
        k.stat_view().st_atime == k.statx_view().stx_atime.sec,
        k.stat_view().st_mtime == k.statx_view().stx_mtime.sec,
        k.stat_view().st_ctime == k.statx_view().stx_ctime.sec,
        k.stat_view().st_atime_nsec == k.statx_view().stx_atime.nsec,
        k.stat_view().st_mtime_nsec == k.statx_view().stx_mtime.nsec,
        k.stat_view().st_ctime_nsec == k.statx_view().stx_ctime.nsec,
{
    let m: u32 = k.mode;
    assert(m <= 0xffff ==> m & 0xffff == m) by (bit_vector);
}

} // verus!
