//! The `stat` family, `statfs` and the access checks.
//!
//! Each call takes its user arguments as the pointer boundary found them, the
//! descriptor table and working directory of the calling process, and, where
//! it asks the filesystem backend about a path, the backend's answers for the
//! path that `handle_file_path` resolves the arguments to.

use vstd::prelude::*;
use crate::abi::{at_fdcwd, r_ok, w_ok, x_ok, AT_FDCWD, R_OK, W_OK, X_OK};
use crate::errno::{backend_is_a_directory, kind_of_backend, SysError, BACKEND_IS_A_DIRECTORY};
use crate::file::{dir_mode, file_mode, kstat_of, FdTable, FileAttr, FileLike, Kstat, Stat, Statx};
use crate::path::{
    allows_empty_path,
    handle_file_path,
    is_empty_path,
    resolve_target,
    resolved_path,
    Target,
};
use crate::ptr::{deliver, delivered, UserPtr, UserStr};

verus! {

/// What the backend answered to one attempt to open a path.
#[derive(Clone, Copy, Debug, PartialEq, Eq, Structural)]
pub enum OpenOutcome {
    /// The path was opened and its attributes were read.
    Opened(FileAttr),
    /// The path was opened, but reading its attributes failed with this
    /// backend error code.
    AttrFailed(i32),
    /// Opening failed with this backend error code.
    Failed(i32),
}

/// The backend's answers for one path: opened for reading as a regular file,
/// and as a directory.
#[derive(Clone, Copy, Debug, PartialEq, Eq, Structural)]
pub struct PathProbe {
    pub as_file: OpenOutcome,
    pub as_dir: OpenOutcome,
}

/// Metadata of a path: that of the regular file where it opens as one; that
/// of the directory where the backend says it is a directory; any other
/// failure of the backend as it is.
pub open spec fn query_by_path(probe: PathProbe) -> Result<Kstat, SysError> {
    match probe.as_file {
        OpenOutcome::Opened(a) => Ok(kstat_of(file_mode(a.perm), a)),
        OpenOutcome::AttrFailed(c) => Err(kind_of_backend(c)),
        OpenOutcome::Failed(c) => if c == BACKEND_IS_A_DIRECTORY {
            match probe.as_dir {
                OpenOutcome::Opened(a) => Ok(kstat_of(dir_mode(a.perm), a)),
                OpenOutcome::AttrFailed(d) => Err(kind_of_backend(d)),
                OpenOutcome::Failed(d) => Err(kind_of_backend(d)),
            }
        } else {
            Err(kind_of_backend(c))
        },
    }
}

/// Metadata of the object behind an open descriptor.
pub open spec fn query_by_descriptor(table: &FdTable, fd: i32) -> Result<Kstat, SysError> {
    match table.lookup(fd) {
        Some(f) => Ok(f.kstat()),
        None => Err(SysError::BadDescriptor),
    }
}

/// What `stat` and `lstat` find: the path must be readable text, then the
/// backend decides.
pub open spec fn stat_outcome(path: UserStr, probe: PathProbe) -> Result<Kstat, SysError> {
    match path.text() {
        Err(e) => Err(e),
        Ok(_) => query_by_path(probe),
    }
}

/// What `fstatat` and `statx` find. An absent or empty path names the
/// descriptor itself where the flags allow it and fails with no-such-entry
/// where they do not; any other path is resolved and the backend decides.
pub open spec fn fstatat_outcome(
    table: &FdTable,
    cwd: Seq<char>,
    dirfd: i32,
    path: UserStr,
    flags: u32,
    probe: PathProbe,
) -> Result<Kstat, SysError> {
    match path.nullable_text() {
        Err(e) => Err(e),
        Ok(p) => if is_empty_path(p) {
            if allows_empty_path(flags) {
                query_by_descriptor(table, dirfd)
            } else {
                Err(SysError::NoSuchEntry)
            }
        } else {
            match resolved_path(table, cwd, dirfd, p.unwrap()) {
                Err(e) => Err(e),
                Ok(_) => query_by_path(probe),
            }
        },
    }
}

/// A result of a query in the `stat` layout.
pub open spec fn in_stat_layout(found: Result<Kstat, SysError>) -> Result<Stat, SysError> {
    match found {
        Ok(k) => Ok(k.stat_view()),
        Err(e) => Err(e),
    }
}

/// A result of a query in the `statx` layout.
pub open spec fn in_statx_layout(found: Result<Kstat, SysError>) -> Result<Statx, SysError> {
    match found {
        Ok(k) => Ok(k.statx_view()),
        Err(e) => Err(e),
    }
}

/// Whether the backend's answers say that the path opens, as a regular file
/// or, where it is a directory, as one.
pub open spec fn opens(probe: PathProbe) -> bool {
    query_by_path(probe) is Ok
}

/// Whether the backend's answers say that the path opens as a regular file.
pub open spec fn opens_as_file(probe: PathProbe) -> bool {
    probe.as_file is Opened
}

/// The object that `path` opens as, from the backend's answers for it: a
/// regular file first, a directory where the backend says it is one.
pub fn open_file_like(path: &str, probe: &PathProbe) -> (r: Result<FileLike, SysError>)
    ensures
        match r {
            Ok(f) => {
                &&& query_by_path(*probe) == Ok::<Kstat, SysError>(f.kstat())
                &&& f.path() == path@
                &&& f is File <==> opens_as_file(*probe)
            },
            Err(e) => query_by_path(*probe) == Err::<Kstat, SysError>(e),
        },
{
    match probe.as_file {
        OpenOutcome::Opened(attr) => Ok(FileLike::new_file(attr, path)),
        OpenOutcome::AttrFailed(c) => Err(SysError::from_backend(c)),
        OpenOutcome::Failed(c) => {
            if backend_is_a_directory(c) {
                match probe.as_dir {
                    OpenOutcome::Opened(attr) => Ok(FileLike::new_directory(attr, path)),
                    OpenOutcome::AttrFailed(d) => Err(SysError::from_backend(d)),
                    OpenOutcome::Failed(d) => Err(SysError::from_backend(d)),
                }
            } else {
                Err(SysError::from_backend(c))
            }
        },
    }
}

/// Metadata of `path`, from the backend's answers for it.
pub fn stat_at_path(path: &str, probe: &PathProbe) -> (r: Result<Kstat, SysError>)
    ensures
        r == query_by_path(*probe),
{
    match open_file_like(path, probe) {
        Ok(f) => Ok(f.stat()),
        Err(e) => Err(e),
    }
}

/// The errno of "too many open files".
pub const EMFILE: i32 = 24;

/// Opens a descriptor for `path`, from the backend's answers for it. Where
/// the path does not open, the backend's failure is returned; where the
/// descriptor numbers are used up, too-many-open-files. Every descriptor
/// that was open stays as it was, and asking the new one for its metadata
/// gives what asking the path gives.
pub fn open_at_path(table: &mut FdTable, path: &str, probe: &PathProbe) -> (r: Result<
    i32,
    SysError,
>)
    ensures
        match query_by_path(*probe) {
            Err(e) => r == Err::<i32, SysError>(e) && final(table)@ == old(table)@,
            Ok(k) => if old(table)@.len() < i32::MAX {
                &&& r == Ok::<i32, SysError>(old(table)@.len() as i32)
                &&& final(table)@.len() == old(table)@.len() + 1
                &&& final(table)@.subrange(0, old(table)@.len() as int) == old(table)@
                &&& query_by_descriptor(final(table), r.unwrap()) == Ok::<Kstat, SysError>(k)
                &&& final(table).lookup(r.unwrap()).unwrap().path() == path@
            } else {
                r == Err::<i32, SysError>(SysError::Other(EMFILE)) && final(table)@ == old(table)@
            },
        },
{
    let f: FileLike = match open_file_like(path, probe) {
        Err(e) => {
            return Err(e);
        },
        Ok(f) => f,
    };
    match table.add_file_like(f) {
        Some(fd) => {
            proof {
                assert(final(table)@.subrange(0, old(table)@.len() as int) =~= old(table)@);
            }
            Ok(fd)
        },
        None => Err(SysError::Other(EMFILE)),
    }
}

/// `stat`: the metadata of `path`, written to `statbuf` in the `stat` layout.
pub fn sys_stat(path: &UserStr, probe: &PathProbe, statbuf: &mut UserPtr<Stat>) -> (r: Result<
    isize,
    SysError,
>)
    ensures
        delivered(
            in_stat_layout(stat_outcome(*path, *probe)),
            *old(statbuf),
            *final(statbuf),
            r,
        ),
{
    let found: Result<Stat, SysError> = match path.get_as_str() {
        Err(e) => Err(e),
        Ok(p) => match stat_at_path(p, probe) {
            Err(e) => Err(e),
            Ok(k) => Ok(k.to_stat()),
        },
    };
    deliver(found, statbuf)
}

/// `fstat`: the metadata of the object behind `fd`, written to `statbuf` in
/// the `stat` layout.
pub fn sys_fstat(table: &FdTable, fd: i32, statbuf: &mut UserPtr<Stat>) -> (r: Result<
    isize,
    SysError,
>)
    ensures
        delivered(
            in_stat_layout(query_by_descriptor(table, fd)),
            *old(statbuf),
            *final(statbuf),
            r,
        ),
{
    let found: Result<Stat, SysError> = match table.get_file_like(fd) {
        Err(e) => Err(e),
        Ok(f) => Ok(f.stat().to_stat()),
    };
    deliver(found, statbuf)
}

/// `lstat`: as `stat`; a symbolic link is not told apart from what it names.
pub fn sys_lstat(path: &UserStr, probe: &PathProbe, statbuf: &mut UserPtr<Stat>) -> (r: Result<
    isize,
    SysError,
>)
    ensures
        delivered(
            in_stat_layout(stat_outcome(*path, *probe)),
            *old(statbuf),
            *final(statbuf),
            r,
        ),
{
    sys_stat(path, probe, statbuf)
}

fn stat_at(
    table: &FdTable,
    cwd: &str,
    dirfd: i32,
    path: &UserStr,
    flags: u32,
    probe: &PathProbe,
) -> (r: Result<Kstat, SysError>)
    ensures
        r == fstatat_outcome(table, cwd@, dirfd, *path, flags, *probe),
{
    let p: Option<&str> = match path.nullable() {
        Err(e) => {
            return Err(e);
        },
        Ok(p) => p,
    };
    match resolve_target(table, cwd, dirfd, p, flags) {
        Err(e) => Err(e),
        Ok(Target::Descriptor(fd)) => match table.get_file_like(fd) {
            Err(e) => Err(e),
            Ok(f) => Ok(f.stat()),
        },
        Ok(Target::Path(resolved)) => stat_at_path(resolved.as_str(), probe),
    }
}

/// `fstatat`: the metadata of what `dirfd`, `path` and `flags` name, written
/// to `statbuf` in the `stat` layout.
pub fn sys_fstatat(
    table: &FdTable,
    cwd: &str,
    dirfd: i32,
    path: &UserStr,
    probe: &PathProbe,
    statbuf: &mut UserPtr<Stat>,
    flags: u32,
) -> (r: Result<isize, SysError>)
    ensures
        delivered(
            in_stat_layout(fstatat_outcome(table, cwd@, dirfd, *path, flags, *probe)),
            *old(statbuf),
            *final(statbuf),
            r,
        ),
{
    let found: Result<Stat, SysError> = match stat_at(table, cwd, dirfd, path, flags, probe) {
        Err(e) => Err(e),
        Ok(k) => Ok(k.to_stat()),
    };
    deliver(found, statbuf)
}

/// `statx`: as `fstatat`, written to `statxbuf` in the extended layout. The
/// mask of wanted fields is not read: the basic fields are always given.
pub fn sys_statx(
    table: &FdTable,
    cwd: &str,
    dirfd: i32,
    path: &UserStr,
    probe: &PathProbe,
    flags: u32,
    _mask: u32,
    statxbuf: &mut UserPtr<Statx>,
) -> (r: Result<isize, SysError>)
    ensures
        delivered(
            in_statx_layout(fstatat_outcome(table, cwd@, dirfd, *path, flags, *probe)),
            *old(statxbuf),
            *final(statxbuf),
            r,
        ),
{
    let found: Result<Statx, SysError> = match stat_at(table, cwd, dirfd, path, flags, probe) {
        Err(e) => Err(e),
        Ok(k) => Ok(k.to_statx()),
    };
    deliver(found, statxbuf)
}

/// A word of the filesystem statistics.
pub type FsWord = isize;

/// A count of filesystem blocks.
pub type FsBlkCnt = usize;

/// A count of filesystem nodes.
pub type FsFilCnt = usize;

/// A filesystem's id.
#[derive(Debug, PartialEq, Eq)]
pub struct FsId {
    /// Raw value of the id.
    pub val: [i32; 2],
}

/// Filesystem statistics, in the layout of `statfs`.
#[derive(Debug, PartialEq, Eq)]
pub struct StatFs {
    /// Type of filesystem.
    pub f_type: FsWord,
    /// Optimal transfer block size.
    pub f_bsize: FsWord,
    /// Total data blocks.
    pub f_blocks: FsBlkCnt,
    /// Free blocks.
    pub f_bfree: FsBlkCnt,
    /// Free blocks available to an unprivileged user.
    pub f_bavail: FsBlkCnt,
    /// Total inodes.
    pub f_files: FsFilCnt,
    /// Free inodes.
    pub f_ffree: FsFilCnt,
    /// Filesystem id.
    pub f_fsid: FsId,
    /// Maximum length of file names.
    pub f_namelen: FsWord,
    /// Fragment size.
    pub f_frsize: FsWord,
    /// Mount flags.
    pub f_flags: FsWord,
    /// Reserved.
    pub f_spare: [FsWord; 5],
}

/// Type tags of filesystems.
pub struct FsType;

impl FsType {
    /// The tag of an ext4 filesystem.
    pub const EXT4_SUPER_MAGIC: u32 = 0xEF53;
}

impl StatFs {
    /// Whether these are the fixed statistics that `statfs` reports for every
    /// filesystem: an ext4 tag, blocks and fragments of 4096 bytes, names of
    /// up to 255 bytes, fixed capacity and free counts, and zero elsewhere.
    pub open spec fn is_placeholder(&self) -> bool {
        &&& self.f_type == 0xEF53
        &&& self.f_bsize == 4096
        &&& self.f_blocks == 100000
        &&& self.f_bfree == 50000
        &&& self.f_bavail == 40000
        &&& self.f_files == 1000
        &&& self.f_ffree == 500
        &&& self.f_fsid.val@ =~= seq![0i32, 0i32]
        &&& self.f_namelen == 255
        &&& self.f_frsize == 4096
        &&& self.f_flags == 0
        &&& self.f_spare@ =~= seq![0isize, 0isize, 0isize, 0isize, 0isize]
    }

    /// The fixed statistics.
    pub fn placeholder() -> (s: StatFs)
        ensures
            s.is_placeholder(),
    {
        let magic: u32 = FsType::EXT4_SUPER_MAGIC;
        StatFs {
            f_type: magic as isize,
            f_bsize: 4096,
            f_blocks: 100000,
            f_bfree: 50000,
            f_bavail: 40000,
            f_files: 1000,
            f_ffree: 500,
            f_fsid: FsId { val: [0, 0] },
            f_namelen: 255,
            f_frsize: 4096,
            f_flags: 0,
            f_spare: [0, 0, 0, 0, 0],
        }
    }
}

/// Whether `statfs` accepts the path: it must be readable text and resolve
/// with no directory descriptor to start from.
pub open spec fn statfs_outcome(table: &FdTable, cwd: Seq<char>, path: UserStr) -> Result<
    (),
    SysError,
> {
    match path.text() {
        Err(e) => Err(e),
        Ok(p) => match resolved_path(table, cwd, -1i32, p) {
            Err(e) => Err(e),
            Ok(_) => Ok(()),
        },
    }
}

/// `statfs`: once the path resolves, the fixed statistics are written to
/// `buf`, whatever filesystem the path lies on.
pub fn sys_statfs(table: &FdTable, cwd: &str, path: &UserStr, buf: &mut UserPtr<StatFs>) -> (r:
    Result<isize, SysError>)
    ensures
        match statfs_outcome(table, cwd@, *path) {
            Err(e) => r == Err::<isize, SysError>(e) && *final(buf) == *old(buf),
            Ok(_) => if old(buf).writable() {
                &&& r == Ok::<isize, SysError>(0)
                &&& *final(buf) is Mapped
                &&& final(buf)->Mapped_0.is_placeholder()
            } else {
                r == Err::<isize, SysError>(SysError::InvalidAddress) && *final(buf) == *old(buf)
            },
        },
{
    let p: &str = match path.get_as_str() {
        Err(e) => {
            return Err(e);
        },
        Ok(p) => p,
    };
    match handle_file_path(table, cwd, -1, p) {
        Err(e) => Err(e),
        Ok(_) => deliver(Ok(StatFs::placeholder()), buf),
    }
}

/// A set of access modes: readable, writable, executable.
#[derive(Clone, Copy, Debug, PartialEq, Eq, Structural)]
pub struct AccessFlags {
    bits: u32,
}

/// Whether `bits` holds access mode bits only.
pub open spec fn is_access_mode(bits: u32) -> bool {
    bits & !(R_OK | W_OK | X_OK) == 0
}

/// Whether permission bits let the owner read.
pub open spec fn owner_readable(perm: u16) -> bool {
    perm & 0o400 != 0
}

/// Whether permission bits let the owner write.
pub open spec fn owner_writable(perm: u16) -> bool {
    perm & 0o200 != 0
}

/// Whether permission bits let the owner execute.
pub open spec fn owner_executable(perm: u16) -> bool {
    perm & 0o100 != 0
}

/// Whether the owner's permission bits grant one of the modes asked for.
pub open spec fn grants(mode: u32, perm: u16) -> bool {
    ||| mode & R_OK == R_OK && owner_readable(perm)
    ||| mode & W_OK == W_OK && owner_writable(perm)
    ||| mode & X_OK == X_OK && owner_executable(perm)
}

impl AccessFlags {
    /// The bits of the set.
    pub closed spec fn view(&self) -> u32 {
        self.bits
    }

    /// The set that `bits` stands for; `None` where a bit is no access mode.
    pub fn from_bits(bits: u32) -> (r: Option<AccessFlags>)
        ensures
            is_access_mode(bits) ==> r.is_some() && r.unwrap()@ == bits,
            !is_access_mode(bits) ==> r.is_none(),
    {
        if bits & !(r_ok() | w_ok() | x_ok()) == 0 {
            Some(AccessFlags { bits })
        } else {
            None
        }
    }

    /// The bits of the set.
    pub fn bits(&self) -> (b: u32)
        ensures
            b == self@,
    {
        self.bits
    }

    /// The set that holds readable only.
    pub fn readable() -> (f: AccessFlags)
        ensures
            f@ == R_OK,
    {
        AccessFlags { bits: r_ok() }
    }

    /// The set that holds writable only.
    pub fn writable() -> (f: AccessFlags)
        ensures
            f@ == W_OK,
    {
        AccessFlags { bits: w_ok() }
    }

    /// The set that holds executable only.
    pub fn executable() -> (f: AccessFlags)
        ensures
            f@ == X_OK,
    {
        AccessFlags { bits: x_ok() }
    }

    /// Whether every mode of `other` is in this set.
    pub fn contains(&self, other: &AccessFlags) -> (b: bool)
        ensures
            b == (self@ & other@ == other@),
    {
        self.bits & other.bits == other.bits
    }
}

/// The owner's permission bits of a path, from the backend's answers: of the
/// regular file where it opens as one, else of the directory where it opens
/// as one, else no-such-entry. A failure to read the attributes of what was
/// opened is reported as it is.
pub open spec fn owner_permissions(probe: PathProbe) -> Result<u16, SysError> {
    match probe.as_file {
        OpenOutcome::Opened(a) => Ok(a.perm),
        OpenOutcome::AttrFailed(c) => Err(kind_of_backend(c)),
        OpenOutcome::Failed(_) => match probe.as_dir {
            OpenOutcome::Opened(a) => Ok(a.perm),
            OpenOutcome::AttrFailed(d) => Err(kind_of_backend(d)),
            OpenOutcome::Failed(_) => Err(SysError::NoSuchEntry),
        },
    }
}

/// What `faccessat2` answers. The path must be null or readable text. Mode 0
/// succeeds without a look at the path. A mode with a bit that is no access
/// mode is an invalid argument. Else the path is resolved (an absent path as
/// an empty one), and the call succeeds where the owner's permission bits
/// grant at least one of the modes asked for, and fails with
/// permission-denied where they grant none.
pub open spec fn access_outcome(
    table: &FdTable,
    cwd: Seq<char>,
    dirfd: i32,
    path: UserStr,
    mode: u32,
    probe: PathProbe,
) -> Result<isize, SysError> {
    match path.nullable_text() {
        Err(e) => Err(e),
        Ok(p) => if mode == 0 {
            Ok(0)
        } else if !is_access_mode(mode) {
            Err(SysError::InvalidArgument)
        } else {
            match resolved_path(
                table,
                cwd,
                dirfd,
                match p {
                    Some(s) => s,
                    None => Seq::<char>::empty(),
                },
            ) {
                Err(e) => Err(e),
                Ok(_) => match owner_permissions(probe) {
                    Err(e) => Err(e),
                    Ok(perm) => if grants(mode, perm) {
                        Ok(0)
                    } else {
                        Err(SysError::PermissionDenied)
                    },
                },
            }
        },
    }
}

fn probe_permissions(probe: &PathProbe) -> (r: Result<u16, SysError>)
    ensures
        r == owner_permissions(*probe),
{
    match probe.as_file {
        OpenOutcome::Opened(a) => Ok(a.perm),
        OpenOutcome::AttrFailed(c) => Err(SysError::from_backend(c)),
        OpenOutcome::Failed(_) => match probe.as_dir {
            OpenOutcome::Opened(a) => Ok(a.perm),
            OpenOutcome::AttrFailed(d) => Err(SysError::from_backend(d)),
            OpenOutcome::Failed(_) => Err(SysError::NoSuchEntry),
        },
    }
}

/// `access`: `faccessat2` from the working directory, with no flags.
pub fn sys_access(table: &FdTable, cwd: &str, path: &UserStr, mode: u32, probe: &PathProbe) -> (r:
    Result<isize, SysError>)
    ensures
        r == access_outcome(table, cwd@, AT_FDCWD, *path, mode, *probe),
{
    sys_faccessat2(table, cwd, at_fdcwd(), path, mode, 0, probe)
}

/// `faccessat2`: whether the owner's permission bits of what `dirfd` and
/// `path` name grant one of the modes in `mode`. The flags are not read.
pub fn sys_faccessat2(
    table: &FdTable,
    cwd: &str,
    dirfd: i32,
    path: &UserStr,
    mode: u32,
    _flags: u32,
    probe: &PathProbe,
) -> (r: Result<isize, SysError>)
    ensures
        r == access_outcome(table, cwd@, dirfd, *path, mode, *probe),
{
    let p: Option<&str> = match path.nullable() {
        Err(e) => {
            return Err(e);
        },
        Ok(p) => p,
    };
    if mode == 0 {
        return Ok(0);
    }
    let wanted: AccessFlags = match AccessFlags::from_bits(mode) {
        None => {
            return Err(SysError::InvalidArgument);
        },
        Some(m) => m,
    };
    let raw: &str = match p {
        Some(s) => s,
        None => "",
    };
    proof {
        reveal_strlit("");
        assert(""@ =~= Seq::<char>::empty());
    }
    match handle_file_path(table, cwd, dirfd, raw) {
        Err(e) => {
            return Err(e);
        },
        Ok(_) => {},
    }
    let perm: u16 = match probe_permissions(probe) {
        Err(e) => {
            return Err(e);
        },
        Ok(perm) => perm,
    };
    let mut access: bool = false;
    if wanted.contains(&AccessFlags::readable()) {
        access = access || (perm & 0o400 != 0);
    }
    if wanted.contains(&AccessFlags::writable()) {
        access = access || (perm & 0o200 != 0);
    }
    if wanted.contains(&AccessFlags::executable()) {
        access = access || (perm & 0o100 != 0);
    }
    if access {
        Ok(0)
    } else {
        Err(SysError::PermissionDenied)
    }
}

/// For a regular file, `stat` on its path and `fstat` on a descriptor that
/// was opened from it report the same metadata: size, mode and timestamps
/// included, in either layout.
pub proof fn stat_agrees_with_fstat(
    table: &FdTable,
    fd: i32,
    path: UserStr,
    probe: PathProbe,
    attr: FileAttr,
)
    requires
        path.text() is Ok,
        probe.as_file == OpenOutcome::Opened(attr),
        table.lookup(fd) is Some,
        table.lookup(fd).unwrap() is File,
        table.lookup(fd).unwrap().attr() == attr,
    ensures
        stat_outcome(path, probe) == query_by_descriptor(table, fd),
        stat_outcome(path, probe) is Ok,
        stat_outcome(path, probe).unwrap().size == attr.size,
        stat_outcome(path, probe).unwrap().is_regular(),
{
    crate::file::mode_tells_kind(table.lookup(fd).unwrap());
}

/// With an absent or empty path and without the flag that allows one,
/// `fstatat` and `statx` find no such entry, whatever the descriptor is.
pub proof fn empty_path_needs_flag(
    table: &FdTable,
    cwd: Seq<char>,
    dirfd: i32,
    path: UserStr,
    flags: u32,
    probe: PathProbe,
)
    requires
        path.nullable_text() is Ok,
        is_empty_path(path.nullable_text().unwrap()),
        !allows_empty_path(flags),
    ensures
        fstatat_outcome(table, cwd, dirfd, path, flags, probe) == Err::<Kstat, SysError>(
            SysError::NoSuchEntry,
        ),
{
}

/// With an absent or empty path and the flag that allows one, `fstatat`
/// finds what `fstat` finds on the descriptor.
pub proof fn empty_path_names_descriptor(
    table: &FdTable,
    cwd: Seq<char>,
    dirfd: i32,
    path: UserStr,
    flags: u32,
    probe: PathProbe,
)
    requires
        path.nullable_text() is Ok,
        is_empty_path(path.nullable_text().unwrap()),
        allows_empty_path(flags),
    ensures
        fstatat_outcome(table, cwd, dirfd, path, flags, probe) == query_by_descriptor(
            table,
            dirfd,
        ),
{
}

/// A check for no access mode at all succeeds for every path that can be
/// read from the caller's memory, whether or not it names anything.
pub proof fn access_mode_zero_succeeds(
    table: &FdTable,
    cwd: Seq<char>,
    dirfd: i32,
    path: UserStr,
    probe: PathProbe,
)
    requires
        path.nullable_text() is Ok,
    ensures
        access_outcome(table, cwd, dirfd, path, 0, probe) == Ok::<isize, SysError>(0),
{
}

/// A path that opens neither as a file nor as a directory is no entry for
/// the access check, whatever modes are asked for.
pub proof fn access_to_missing_path(
    table: &FdTable,
    cwd: Seq<char>,
    dirfd: i32,
    path: UserStr,
    mode: u32,
    probe: PathProbe,
)
    requires
        path.text() is Ok,
        resolved_path(table, cwd, dirfd, path.text().unwrap()) is Ok,
        mode != 0,
        is_access_mode(mode),
        probe.as_file is Failed,
        probe.as_dir is Failed,
    ensures
        access_outcome(table, cwd, dirfd, path, mode, probe) == Err::<isize, SysError>(
            SysError::NoSuchEntry,
        ),
{
}

} // verus!
