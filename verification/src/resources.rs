//! Per-process resource limits and the system calls that read and set them.

use vstd::prelude::*;
use crate::abi::{rlim_nlimits, RLIM_NLIMITS};
use crate::errno::SysError;
use crate::ptr::{deliver, delivered, UserConstPtr, UserPtr};

verus! {

/// A bound on the use of a resource: `soft` is enforced, `hard` is as far as
/// `soft` may be raised.
#[derive(Clone, Copy, Debug, PartialEq, Eq, Structural)]
pub struct ResourceLimit {
    pub soft: u64,
    pub hard: u64,
}

/// The value that stands for "no limit".
pub const RLIM_INFINITY: u64 = 0xffff_ffff_ffff_ffff;

/// The kinds of resource limits, in the order of their Linux numbers.
#[derive(Clone, Copy, Debug, PartialEq, Eq, Structural)]
pub enum ResourceLimitType {
    /// CPU time in seconds.
    CPU,
    /// Largest file that can be written.
    FSIZE,
    /// Size of the data segment.
    DATA,
    /// Size of the stack.
    STACK,
    /// Largest core file.
    CORE,
    /// Resident set size.
    RSS,
    /// Number of processes.
    NPROC,
    /// Number of open files.
    NOFILE,
    /// Locked-in-memory address space.
    MEMLOCK,
    /// Size of the address space.
    AS,
    /// Number of file locks.
    LOCKS,
    /// Number of pending signals.
    SIGPENDING,
    /// Bytes in message queues.
    MSGQUEUE,
    /// Ceiling of the nice priority.
    NICE,
    /// Ceiling of the real-time priority.
    RTPRIO,
    /// Real-time CPU time without a blocking call.
    RTTIME,
}

/// The kind with the given Linux number, if there is one.
pub open spec fn kind_of_number(n: int) -> Option<ResourceLimitType> {
    if n == 0 {
        Some(ResourceLimitType::CPU)
    } else if n == 1 {
        Some(ResourceLimitType::FSIZE)
    } else if n == 2 {
        Some(ResourceLimitType::DATA)
    } else if n == 3 {
        Some(ResourceLimitType::STACK)
    } else if n == 4 {
        Some(ResourceLimitType::CORE)
    } else if n == 5 {
        Some(ResourceLimitType::RSS)
    } else if n == 6 {
        Some(ResourceLimitType::NPROC)
    } else if n == 7 {
        Some(ResourceLimitType::NOFILE)
    } else if n == 8 {
        Some(ResourceLimitType::MEMLOCK)
    } else if n == 9 {
        Some(ResourceLimitType::AS)
    } else if n == 10 {
        Some(ResourceLimitType::LOCKS)
    } else if n == 11 {
        Some(ResourceLimitType::SIGPENDING)
    } else if n == 12 {
        Some(ResourceLimitType::MSGQUEUE)
    } else if n == 13 {
        Some(ResourceLimitType::NICE)
    } else if n == 14 {
        Some(ResourceLimitType::RTPRIO)
    } else if n == 15 {
        Some(ResourceLimitType::RTTIME)
    } else {
        None
    }
}

impl ResourceLimitType {
    /// The Linux number of the kind.
    pub open spec fn number(self) -> int {
        match self {
            ResourceLimitType::CPU => 0,
            ResourceLimitType::FSIZE => 1,
            ResourceLimitType::DATA => 2,
            ResourceLimitType::STACK => 3,
            ResourceLimitType::CORE => 4,
            ResourceLimitType::RSS => 5,
            ResourceLimitType::NPROC => 6,
            ResourceLimitType::NOFILE => 7,
            ResourceLimitType::MEMLOCK => 8,
            ResourceLimitType::AS => 9,
            ResourceLimitType::LOCKS => 10,
            ResourceLimitType::SIGPENDING => 11,
            ResourceLimitType::MSGQUEUE => 12,
            ResourceLimitType::NICE => 13,
            ResourceLimitType::RTPRIO => 14,
            ResourceLimitType::RTTIME => 15,
        }
    }

    /// The Linux number of the kind.
    pub fn index(&self) -> (n: usize)
        ensures
            n == self.number(),
            n < RLIM_NLIMITS,
    {
        match self {
            ResourceLimitType::CPU => 0,
            ResourceLimitType::FSIZE => 1,
            ResourceLimitType::DATA => 2,
            ResourceLimitType::STACK => 3,
            ResourceLimitType::CORE => 4,
            ResourceLimitType::RSS => 5,
            ResourceLimitType::NPROC => 6,
            ResourceLimitType::NOFILE => 7,
            ResourceLimitType::MEMLOCK => 8,
            ResourceLimitType::AS => 9,
            ResourceLimitType::LOCKS => 10,
            ResourceLimitType::SIGPENDING => 11,
            ResourceLimitType::MSGQUEUE => 12,
            ResourceLimitType::NICE => 13,
            ResourceLimitType::RTPRIO => 14,
            ResourceLimitType::RTTIME => 15,
        }
    }

    /// The kind with the given Linux number; `None` for a number that names
    /// no kind.
    pub fn from_u32(n: u32) -> (k: Option<ResourceLimitType>)
        ensures
            k == kind_of_number(n as int),
            k.is_some() <==> n < RLIM_NLIMITS,
    {
        if n >= rlim_nlimits() {
            return None;
        }
        if n == 0 {
            Some(ResourceLimitType::CPU)
        } else if n == 1 {
            Some(ResourceLimitType::FSIZE)
        } else if n == 2 {
            Some(ResourceLimitType::DATA)
        } else if n == 3 {
            Some(ResourceLimitType::STACK)
        } else if n == 4 {
            Some(ResourceLimitType::CORE)
        } else if n == 5 {
            Some(ResourceLimitType::RSS)
        } else if n == 6 {
            Some(ResourceLimitType::NPROC)
        } else if n == 7 {
            Some(ResourceLimitType::NOFILE)
        } else if n == 8 {
            Some(ResourceLimitType::MEMLOCK)
        } else if n == 9 {
            Some(ResourceLimitType::AS)
        } else if n == 10 {
            Some(ResourceLimitType::LOCKS)
        } else if n == 11 {
            Some(ResourceLimitType::SIGPENDING)
        } else if n == 12 {
            Some(ResourceLimitType::MSGQUEUE)
        } else if n == 13 {
            Some(ResourceLimitType::NICE)
        } else if n == 14 {
            Some(ResourceLimitType::RTPRIO)
        } else {
            Some(ResourceLimitType::RTTIME)
        }
    }
}

/// The kind that a system call's resource argument names.
pub open spec fn kind_of_argument(resource: i32) -> Option<ResourceLimitType> {
    kind_of_number(resource as int)
}

fn kind_from_argument(resource: i32) -> (k: Option<ResourceLimitType>)
    ensures
        k == kind_of_argument(resource),
{
    if resource < 0 {
        None
    } else {
        ResourceLimitType::from_u32(resource as u32)
    }
}

/// Whether `s` holds one bound for each kind, each with `soft <= hard`.
pub open spec fn limits_wf(s: Seq<ResourceLimit>) -> bool {
    &&& s.len() == RLIM_NLIMITS
    &&& forall|k: int| 0 <= k < s.len() ==> (#[trigger] s[k]).soft <= s[k].hard
}

/// The resource limits of one process: one bound for each kind.
#[derive(Clone, Copy, Debug)]
pub struct ResourceLimits {
    limits: [ResourceLimit; 16],
}

impl ResourceLimits {
    /// The bounds, by the number of their kind.
    pub closed spec fn view(&self) -> Seq<ResourceLimit> {
        self.limits@
    }

    /// Every bound has `soft <= hard`.
    pub open spec fn wf(&self) -> bool {
        limits_wf(self@)
    }

    /// The limits a process starts with: none.
    pub fn new() -> (l: ResourceLimits)
        ensures
            l.wf(),
            forall|k: int|
                0 <= k < RLIM_NLIMITS ==> #[trigger] l@[k] == (ResourceLimit {
                    soft: RLIM_INFINITY,
                    hard: RLIM_INFINITY,
                }),
    {
        let inf = ResourceLimit { soft: RLIM_INFINITY, hard: RLIM_INFINITY };
        ResourceLimits {
            limits: [
                inf,
                inf,
                inf,
                inf,
                inf,
                inf,
                inf,
                inf,
                inf,
                inf,
                inf,
                inf,
                inf,
                inf,
                inf,
                inf,
            ],
        }
    }

    /// The bound of `resource`.
    pub fn get(&self, resource: &ResourceLimitType) -> (l: ResourceLimit)
        ensures
            l == self@[resource.number()],
    {
        self.limits[resource.index()]
    }

    /// Sets the bound of `resource`, unless its soft value is above its hard
    /// value: then nothing changes and `false` is returned.
    pub fn set(&mut self, resource: &ResourceLimitType, limit: ResourceLimit) -> (done: bool)
        ensures
            done == (limit.soft <= limit.hard),
            done ==> final(self)@ == old(self)@.update(resource.number(), limit),
            !done ==> final(self)@ == old(self)@,
            old(self).wf() ==> final(self).wf(),
    {
        if limit.soft > limit.hard {
            return false;
        }
        let k: usize = resource.index();
        self.limits[k] = limit;
        true
    }
}

/// One process, as far as its limits go.
#[derive(Clone, Copy, Debug)]
pub struct ProcessData {
    /// The process id; never 0.
    pub pid: u32,
    /// The limits of the process.
    pub resource_limits: ResourceLimits,
}

/// The index of the first of `pids` from `from` on that is `pid`.
pub open spec fn first_index(pids: Seq<u32>, pid: u32, from: int) -> Option<int>
    decreases pids.len() - from,
{
    if from < 0 || from >= pids.len() {
        None
    } else if pids[from] == pid {
        Some(from)
    } else {
        first_index(pids, pid, from + 1)
    }
}

/// The processes that limits can be asked of, and which of them is calling.
pub struct ProcessTable {
    current: u32,
    procs: Vec<ProcessData>,
}

impl ProcessTable {
    /// The ids of the processes, in the order they were added.
    pub closed spec fn pids(&self) -> Seq<u32> {
        Seq::new(self.procs@.len(), |i: int| self.procs@[i].pid)
    }

    /// The limits of the processes, in the same order.
    pub closed spec fn limits(&self) -> Seq<Seq<ResourceLimit>> {
        Seq::new(self.procs@.len(), |i: int| self.procs@[i].resource_limits@)
    }

    /// The id of the calling process.
    pub closed spec fn current(&self) -> u32 {
        self.current
    }

    /// There is one set of limits for each process, each well-formed.
    pub open spec fn wf(&self) -> bool {
        &&& self.pids().len() == self.limits().len()
        &&& forall|i: int| 0 <= i < self.limits().len() ==> limits_wf(#[trigger] self.limits()[i])
    }

    /// Which process `pid` names: 0 names the calling process, any other
    /// number the process with that id.
    pub open spec fn resolve(&self, pid: u32) -> Option<int> {
        first_index(
            self.pids(),
            if pid == 0 {
                self.current()
            } else {
                pid
            },
            0,
        )
    }

    /// What asking for the bound of `resource` in process `pid` gives.
    pub open spec fn limit_of(&self, resource: ResourceLimitType, pid: u32) -> Result<
        ResourceLimit,
        SysError,
    > {
        match self.resolve(pid) {
            None => Err(SysError::NoSuchProcess),
            Some(i) => Ok(self.limits()[i][resource.number()]),
        }
    }

    /// What setting the bound of `resource` in process `pid` to `limit`
    /// answers: no-such-process where `pid` names none; not-permitted where
    /// the new hard value is above the current one; invalid-argument where
    /// the new soft value is above the new hard value; else 0.
    pub open spec fn set_outcome(
        &self,
        resource: ResourceLimitType,
        limit: ResourceLimit,
        pid: u32,
    ) -> Result<isize, SysError> {
        match self.resolve(pid) {
            None => Err(SysError::NoSuchProcess),
            Some(i) => if limit.hard > self.limits()[i][resource.number()].hard {
                Err(SysError::NotPermitted)
            } else if limit.soft > limit.hard {
                Err(SysError::InvalidArgument)
            } else {
                Ok(0)
            },
        }
    }

    /// The limits of all processes after that call: changed in one place
    /// where it succeeds, and not at all where it fails.
    pub open spec fn limits_after_set(
        &self,
        resource: ResourceLimitType,
        limit: ResourceLimit,
        pid: u32,
    ) -> Seq<Seq<ResourceLimit>> {
        if self.set_outcome(resource, limit, pid) is Ok {
            let i = self.resolve(pid).unwrap();
            self.limits().update(i, self.limits()[i].update(resource.number(), limit))
        } else {
            self.limits()
        }
    }

    /// A table with the calling process alone, with the limits a process
    /// starts with.
    pub fn new(current: u32) -> (t: ProcessTable)
        ensures
            t.wf(),
            t.current() == current,
            t.pids() == seq![current],
            t.limits() == seq![ResourceLimits::new_view()],
    {
        let mut procs: Vec<ProcessData> = Vec::new();
        procs.push(ProcessData { pid: current, resource_limits: ResourceLimits::new() });
        let t = ProcessTable { current, procs };
        proof {
            assert(t.pids() =~= seq![current]);
            assert(t.limits()[0] =~= ResourceLimits::new_view());
            assert(t.limits() =~= seq![ResourceLimits::new_view()]);
        }
        t
    }

    /// Adds a process with the limits a process starts with.
    pub fn add_process(&mut self, pid: u32)
        ensures
            old(self).wf() ==> final(self).wf(),
            final(self).current() == old(self).current(),
            final(self).pids() == old(self).pids().push(pid),
            final(self).limits() == old(self).limits().push(ResourceLimits::new_view()),
    {
        self.procs.push(ProcessData { pid, resource_limits: ResourceLimits::new() });
        proof {
            assert(final(self).pids() =~= old(self).pids().push(pid));
            assert(final(self).limits()[old(self).limits().len() as int]
                =~= ResourceLimits::new_view());
            assert(final(self).limits() =~= old(self).limits().push(ResourceLimits::new_view()));
        }
    }

    fn find(&self, pid: u32) -> (r: Option<usize>)
        ensures
            match r {
                Some(i) => self.resolve(pid) == Some(i as int) && i < self.procs@.len(),
                None => self.resolve(pid).is_none(),
            },
    {
        let target: u32 = if pid == 0 {
            self.current
        } else {
            pid
        };
        let mut i: usize = 0;
        while i < self.procs.len()
            invariant
                i <= self.procs@.len(),
                target == (if pid == 0 {
                    self.current
                } else {
                    pid
                }),
                self.pids().len() == self.procs@.len(),
                first_index(self.pids(), target, 0) == first_index(self.pids(), target, i as int),
            decreases self.procs@.len() - i,
        {
            assert(self.pids()[i as int] == self.procs@[i as int].pid);
            if self.procs[i].pid == target {
                return Some(i);
            }
            i = i + 1;
        }
        None
    }

    /// The bound of `resource` in process `pid`.
    pub fn do_getrlimit(&self, resource: &ResourceLimitType, pid: u32) -> (r: Result<
        ResourceLimit,
        SysError,
    >)
        ensures
            r == self.limit_of(*resource, pid),
    {
        match self.find(pid) {
            None => Err(SysError::NoSuchProcess),
            Some(i) => Ok(self.procs[i].resource_limits.get(resource)),
        }
    }

    /// Sets the bound of `resource` in process `pid`.
    pub fn do_setrlimit(&mut self, resource: &ResourceLimitType, limit: &ResourceLimit, pid: u32) -> (r:
        Result<isize, SysError>)
        ensures
            old(self).wf() ==> final(self).wf(),
            r == old(self).set_outcome(*resource, *limit, pid),
            final(self).limits() == old(self).limits_after_set(*resource, *limit, pid),
            final(self).pids() == old(self).pids(),
            final(self).current() == old(self).current(),
    {
        let i: usize = match self.find(pid) {
            None => {
                return Err(SysError::NoSuchProcess);
            },
            Some(i) => i,
        };
        let mut record: ProcessData = self.procs[i];
        let old_limit: ResourceLimit = record.resource_limits.get(resource);
        if limit.hard > old_limit.hard {
            return Err(SysError::NotPermitted);
        }
        if !record.resource_limits.set(resource, *limit) {
            return Err(SysError::InvalidArgument);
        }
        self.procs.set(i, record);
        proof {
            assert(final(self).pids() =~= old(self).pids());
            assert(final(self).limits() =~= old(self).limits_after_set(*resource, *limit, pid));
            if old(self).wf() {
                assert forall|j: int| 0 <= j < final(self).limits().len() implies limits_wf(
                    #[trigger] final(self).limits()[j],
                ) by {
                    assert(limits_wf(old(self).limits()[j]));
                }
            }
        }
        Ok(0)
    }
}

impl ResourceLimits {
    /// The limits a process starts with, as a sequence.
    pub open spec fn new_view() -> Seq<ResourceLimit> {
        Seq::new(
            RLIM_NLIMITS as nat,
            |k: int| ResourceLimit { soft: RLIM_INFINITY, hard: RLIM_INFINITY },
        )
    }
}

/// The process id that a system call's pid argument names.
pub open spec fn pid_of_argument(pid: i32) -> u32 {
    pid as u32
}

fn pid_from_argument(pid: i32) -> (p: u32)
    ensures
        p == pid_of_argument(pid),
{
    #[verifier::truncate]
    (pid as u32)
}

/// What `getrlimit` finds: the resource must name a kind; the bound is that
/// of the calling process.
pub open spec fn getrlimit_outcome(table: &ProcessTable, resource: i32) -> Result<
    ResourceLimit,
    SysError,
> {
    match kind_of_argument(resource) {
        None => Err(SysError::InvalidArgument),
        Some(k) => table.limit_of(k, 0),
    }
}

/// What `prlimit64` does to the slot for the old bound: a null slot is left
/// alone; else the bound of the process is read, which fails for a process
/// that does not exist, and written, which fails for a slot that is not
/// writable.
pub open spec fn prlimit_read(
    table: &ProcessTable,
    resource: ResourceLimitType,
    pid: u32,
    old_limit: UserPtr<ResourceLimit>,
) -> Result<UserPtr<ResourceLimit>, SysError> {
    if old_limit is Null {
        Ok(old_limit)
    } else {
        match table.limit_of(resource, pid) {
            Err(e) => Err(e),
            Ok(v) => if old_limit.writable() {
                Ok(UserPtr::Mapped(v))
            } else {
                Err(SysError::InvalidAddress)
            },
        }
    }
}

/// `prlimit64`: reads the bound of `resource` in process `pid` into
/// `old_limit`, then sets it to `new_limit`; either is left out where its
/// address is null. The old bound is read before the new one is set.
pub fn sys_prlimit64(
    table: &mut ProcessTable,
    pid: i32,
    resource: i32,
    new_limit: &UserConstPtr<ResourceLimit>,
    old_limit: &mut UserPtr<ResourceLimit>,
) -> (r: Result<isize, SysError>)
    ensures
        old(table).wf() ==> final(table).wf(),
        final(table).pids() == old(table).pids(),
        final(table).current() == old(table).current(),
        match kind_of_argument(resource) {
            None => {
                &&& r == Err::<isize, SysError>(SysError::InvalidArgument)
                &&& final(table).limits() == old(table).limits()
                &&& *final(old_limit) == *old(old_limit)
            },
            Some(k) => match prlimit_read(
                old(table),
                k,
                pid_of_argument(pid),
                *old(old_limit),
            ) {
                Err(e) => {
                    &&& r == Err::<isize, SysError>(e)
                    &&& final(table).limits() == old(table).limits()
                    &&& *final(old_limit) == *old(old_limit)
                },
                Ok(slot) => {
                    &&& *final(old_limit) == slot
                    &&& match *new_limit {
                        UserConstPtr::Null => {
                            &&& r == Ok::<isize, SysError>(0)
                            &&& final(table).limits() == old(table).limits()
                        },
                        UserConstPtr::Unmapped => {
                            &&& r == Err::<isize, SysError>(SysError::InvalidAddress)
                            &&& final(table).limits() == old(table).limits()
                        },
                        UserConstPtr::Mapped(v) => {
                            &&& r == old(table).set_outcome(k, v, pid_of_argument(pid))
                            &&& final(table).limits() == old(table).limits_after_set(
                                k,
                                v,
                                pid_of_argument(pid),
                            )
                        },
                    }
                },
            },
        },
{
    let kind: ResourceLimitType = match kind_from_argument(resource) {
        None => {
            return Err(SysError::InvalidArgument);
        },
        Some(k) => k,
    };
    let target: u32 = pid_from_argument(pid);
    if !old_limit.is_null() {
        let old_value: ResourceLimit = match table.do_getrlimit(&kind, target) {
            Err(e) => {
                return Err(e);
            },
            Ok(v) => v,
        };
        match old_limit.write(old_value) {
            Err(e) => {
                return Err(e);
            },
            Ok(()) => {},
        }
    }
    if !new_limit.is_null() {
        let new_value: &ResourceLimit = match new_limit.get_as_ref() {
            Err(e) => {
                return Err(e);
            },
            Ok(v) => v,
        };
        return table.do_setrlimit(&kind, new_value, target);
    }
    Ok(0)
}

/// `setrlimit`: sets the bound of `resource` in the calling process. The
/// resource must name a kind, else the argument is invalid; the new bound
/// must be readable, else the address is.
pub fn sys_setrlimit(
    table: &mut ProcessTable,
    resource: i32,
    resource_limit: &UserConstPtr<ResourceLimit>,
) -> (r: Result<isize, SysError>)
    ensures
        old(table).wf() ==> final(table).wf(),
        final(table).pids() == old(table).pids(),
        final(table).current() == old(table).current(),
        match kind_of_argument(resource) {
            None => {
                &&& r == Err::<isize, SysError>(SysError::InvalidArgument)
                &&& final(table).limits() == old(table).limits()
            },
            Some(k) => match *resource_limit {
                UserConstPtr::Mapped(v) => {
                    &&& r == old(table).set_outcome(k, v, 0)
                    &&& final(table).limits() == old(table).limits_after_set(k, v, 0)
                },
                _ => {
                    &&& r == Err::<isize, SysError>(SysError::InvalidAddress)
                    &&& final(table).limits() == old(table).limits()
                },
            },
        },
{
    let kind: ResourceLimitType = match kind_from_argument(resource) {
        None => {
            return Err(SysError::InvalidArgument);
        },
        Some(k) => k,
    };
    match resource_limit.get_as_ref() {
        Err(e) => Err(e),
        Ok(v) => table.do_setrlimit(&kind, v, 0),
    }
}

/// `getrlimit`: writes the bound of `resource` in the calling process to
/// `resource_limit`.
pub fn sys_getrlimit(
    table: &ProcessTable,
    resource: i32,
    resource_limit: &mut UserPtr<ResourceLimit>,
) -> (r: Result<isize, SysError>)
    ensures
        delivered(
            getrlimit_outcome(table, resource),
            *old(resource_limit),
            *final(resource_limit),
            r,
        ),
{
    let found: Result<ResourceLimit, SysError> = match kind_from_argument(resource) {
        None => Err(SysError::InvalidArgument),
        Some(k) => table.do_getrlimit(&k, 0),
    };
    deliver(found, resource_limit)
}

/// Where `first_index` finds a process, it is one of `pids` and has the id
/// asked for.
pub proof fn first_index_is_found(pids: Seq<u32>, pid: u32, from: int)
    requires
        0 <= from,
    ensures
        match first_index(pids, pid, from) {
            Some(i) => from <= i < pids.len() && pids[i] == pid,
            None => forall|j: int| from <= j < pids.len() ==> pids[j] != pid,
        },
    decreases pids.len() - from,
{
    if from < pids.len() && pids[from] != pid {
        first_index_is_found(pids, pid, from + 1);
    }
}

/// A hard bound above the current one is refused as not permitted, and no
/// limit changes.
pub proof fn raising_hard_is_refused(
    table: &ProcessTable,
    resource: ResourceLimitType,
    limit: ResourceLimit,
    pid: u32,
)
    requires
        table.resolve(pid) is Some,
        limit.hard > table.limit_of(resource, pid).unwrap().hard,
    ensures
        table.set_outcome(resource, limit, pid) == Err::<isize, SysError>(SysError::NotPermitted),
        table.limits_after_set(resource, limit, pid) == table.limits(),
{
}

/// A soft bound above the hard bound that comes with it is refused as an
/// invalid argument, and no limit changes. (Where that hard bound is above
/// the current one, the call is refused as not permitted instead.)
pub proof fn soft_above_hard_is_refused(
    table: &ProcessTable,
    resource: ResourceLimitType,
    limit: ResourceLimit,
    pid: u32,
)
    requires
        table.resolve(pid) is Some,
        limit.hard <= table.limit_of(resource, pid).unwrap().hard,
        limit.soft > limit.hard,
    ensures
        table.set_outcome(resource, limit, pid) == Err::<isize, SysError>(
            SysError::InvalidArgument,
        ),
        table.limits_after_set(resource, limit, pid) == table.limits(),
{
}

/// A bound that was set is the bound that is read afterwards, and the bounds
/// of every other kind in that process read as before.
pub proof fn set_then_get(
    before: &ProcessTable,
    after: &ProcessTable,
    resource: ResourceLimitType,
    limit: ResourceLimit,
    pid: u32,
    other: ResourceLimitType,
)
    requires
        before.wf(),
        before.set_outcome(resource, limit, pid) is Ok,
        after.pids() == before.pids(),
        after.current() == before.current(),
        after.limits() == before.limits_after_set(resource, limit, pid),
    ensures
        after.limit_of(resource, pid) == Ok::<ResourceLimit, SysError>(limit),
        other != resource ==> after.limit_of(other, pid) == before.limit_of(other, pid),
{
    let target: u32 = if pid == 0 {
        before.current()
    } else {
        pid
    };
    first_index_is_found(before.pids(), target, 0);
    let i: int = before.resolve(pid).unwrap();
    assert(limits_wf(before.limits()[i]));
}

/// Every successful change keeps `soft <= hard` in every bound.
pub proof fn set_keeps_soft_below_hard(
    before: &ProcessTable,
    resource: ResourceLimitType,
    limit: ResourceLimit,
    pid: u32,
)
    requires
        before.wf(),
    ensures
        forall|i: int|
            0 <= i < before.limits().len() ==> limits_wf(
                #[trigger] before.limits_after_set(resource, limit, pid)[i],
            ),
{
    let target: u32 = if pid == 0 {
        before.current()
    } else {
        pid
    };
    first_index_is_found(before.pids(), target, 0);
    assert forall|i: int| 0 <= i < before.limits().len() implies limits_wf(
        #[trigger] before.limits_after_set(resource, limit, pid)[i],
    ) by {
        assert(limits_wf(before.limits()[i]));
    }
}

} // verus!
