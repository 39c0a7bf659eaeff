use starry_api::abi::RLIM_NLIMITS;
use starry_api::errno::{syscall_return, SysError};
use starry_api::ptr::{UserConstPtr, UserPtr};
use starry_api::resources::{
    sys_getrlimit, sys_prlimit64, sys_setrlimit, ProcessTable, ResourceLimit, ResourceLimitType,
    ResourceLimits, RLIM_INFINITY,
};

const NOFILE: i32 = 7;

fn limit(soft: u64, hard: u64) -> ResourceLimit {
    ResourceLimit { soft, hard }
}

fn slot() -> UserPtr<ResourceLimit> {
    UserPtr::Mapped(limit(0, 0))
}

fn read(table: &ProcessTable, resource: i32) -> ResourceLimit {
    let mut out = slot();
    assert_eq!(sys_getrlimit(table, resource, &mut out), Ok(0));
    match out {
        UserPtr::Mapped(v) => v,
        _ => panic!("nothing was written"),
    }
}

#[test]
fn setrlimit_then_getrlimit_round_trips() {
    let mut table = ProcessTable::new(1);
    assert_eq!(sys_setrlimit(&mut table, NOFILE, &UserConstPtr::Mapped(limit(100, 200))), Ok(0));
    assert_eq!(read(&table, NOFILE), limit(100, 200));
    assert_eq!(read(&table, 0), limit(RLIM_INFINITY, RLIM_INFINITY));
}

#[test]
fn raising_the_hard_bound_is_not_permitted() {
    let mut table = ProcessTable::new(1);
    assert_eq!(sys_setrlimit(&mut table, NOFILE, &UserConstPtr::Mapped(limit(100, 200))), Ok(0));
    let mut old = UserPtr::Null;
    let r = sys_prlimit64(&mut table, 0, NOFILE, &UserConstPtr::Mapped(limit(100, 201)), &mut old);
    assert_eq!(r, Err(SysError::NotPermitted));
    assert_eq!(read(&table, NOFILE), limit(100, 200));
    // soft above hard as well: the hard bound is looked at first
    let r = sys_prlimit64(&mut table, 0, NOFILE, &UserConstPtr::Mapped(limit(400, 300)), &mut old);
    assert_eq!(r, Err(SysError::NotPermitted));
    assert_eq!(read(&table, NOFILE), limit(100, 200));
}

#[test]
fn soft_above_hard_is_an_invalid_argument() {
    let mut table = ProcessTable::new(1);
    assert_eq!(sys_setrlimit(&mut table, NOFILE, &UserConstPtr::Mapped(limit(100, 200))), Ok(0));
    let mut old = UserPtr::Null;
    let r = sys_prlimit64(&mut table, 0, NOFILE, &UserConstPtr::Mapped(limit(150, 120)), &mut old);
    assert_eq!(r, Err(SysError::InvalidArgument));
    assert_eq!(read(&table, NOFILE), limit(100, 200));
    assert_eq!(
        sys_setrlimit(&mut table, NOFILE, &UserConstPtr::Mapped(limit(201, 200))),
        Err(SysError::InvalidArgument)
    );
    assert_eq!(read(&table, NOFILE), limit(100, 200));
}

#[test]
fn prlimit_reads_the_old_bound_before_it_sets_the_new() {
    let mut table = ProcessTable::new(1);
    assert_eq!(sys_setrlimit(&mut table, 3, &UserConstPtr::Mapped(limit(10, 20))), Ok(0));
    let mut old = slot();
    let r = sys_prlimit64(&mut table, 1, 3, &UserConstPtr::Mapped(limit(5, 15)), &mut old);
    assert_eq!(r, Ok(0));
    assert!(matches!(old, UserPtr::Mapped(v) if v == limit(10, 20)));
    assert_eq!(read(&table, 3), limit(5, 15));
    // the old bound is written even where the new one is refused
    let mut old = slot();
    let r = sys_prlimit64(&mut table, 0, 3, &UserConstPtr::Mapped(limit(5, 16)), &mut old);
    assert_eq!(r, Err(SysError::NotPermitted));
    assert!(matches!(old, UserPtr::Mapped(v) if v == limit(5, 15)));
    // neither given
    let mut none = UserPtr::Null;
    assert_eq!(sys_prlimit64(&mut table, 0, 3, &UserConstPtr::Null, &mut none), Ok(0));
    assert_eq!(read(&table, 3), limit(5, 15));
}

#[test]
fn prlimit_reaches_other_processes_by_pid() {
    let mut table = ProcessTable::new(1);
    table.add_process(2);
    let mut old = UserPtr::Null;
    let r = sys_prlimit64(&mut table, 2, NOFILE, &UserConstPtr::Mapped(limit(1, 2)), &mut old);
    assert_eq!(r, Ok(0));
    assert_eq!(read(&table, NOFILE), limit(RLIM_INFINITY, RLIM_INFINITY));
    assert_eq!(table.do_getrlimit(&ResourceLimitType::NOFILE, 2), Ok(limit(1, 2)));
    assert_eq!(table.do_getrlimit(&ResourceLimitType::NOFILE, 1), table.do_getrlimit(&ResourceLimitType::NOFILE, 0));
    let mut out = slot();
    assert_eq!(
        sys_prlimit64(&mut table, 3, NOFILE, &UserConstPtr::Null, &mut out),
        Err(SysError::NoSuchProcess)
    );
    assert_eq!(
        sys_prlimit64(&mut table, -1, NOFILE, &UserConstPtr::Mapped(limit(1, 2)), &mut old),
        Err(SysError::NoSuchProcess)
    );
    assert_eq!(
        table.do_setrlimit(&ResourceLimitType::CPU, &limit(1, 1), 9),
        Err(SysError::NoSuchProcess)
    );
}

#[test]
fn resource_numbers_outside_the_kinds_are_invalid() {
    let mut table = ProcessTable::new(1);
    let mut out = slot();
    assert_eq!(sys_getrlimit(&table, 16, &mut out), Err(SysError::InvalidArgument));
    assert_eq!(sys_getrlimit(&table, -1, &mut out), Err(SysError::InvalidArgument));
    assert_eq!(
        sys_setrlimit(&mut table, 16, &UserConstPtr::Mapped(limit(1, 2))),
        Err(SysError::InvalidArgument)
    );
    assert_eq!(
        sys_prlimit64(&mut table, 0, 99, &UserConstPtr::Null, &mut out),
        Err(SysError::InvalidArgument)
    );
    assert_eq!(RLIM_NLIMITS, 16);
    assert_eq!(ResourceLimitType::from_u32(15), Some(ResourceLimitType::RTTIME));
    assert_eq!(ResourceLimitType::from_u32(16), None);
    assert_eq!(ResourceLimitType::from_u32(7), Some(ResourceLimitType::NOFILE));
    for n in 0..16u32 {
        assert_eq!(ResourceLimitType::from_u32(n).unwrap().index(), n as usize);
    }
}

#[test]
fn limit_addresses_are_checked() {
    let mut table = ProcessTable::new(1);
    assert_eq!(
        sys_setrlimit(&mut table, NOFILE, &UserConstPtr::Unmapped),
        Err(SysError::InvalidAddress)
    );
    assert_eq!(
        sys_setrlimit(&mut table, NOFILE, &UserConstPtr::Null),
        Err(SysError::InvalidAddress)
    );
    let mut bad = UserPtr::Unmapped;
    assert_eq!(sys_getrlimit(&table, NOFILE, &mut bad), Err(SysError::InvalidAddress));
    assert_eq!(
        sys_prlimit64(&mut table, 0, NOFILE, &UserConstPtr::Mapped(limit(1, 2)), &mut bad),
        Err(SysError::InvalidAddress)
    );
    assert_eq!(read(&table, NOFILE), limit(RLIM_INFINITY, RLIM_INFINITY));
    let mut none = UserPtr::Null;
    assert_eq!(
        sys_prlimit64(&mut table, 0, NOFILE, &UserConstPtr::Unmapped, &mut none),
        Err(SysError::InvalidAddress)
    );
}

#[test]
fn limits_table_keeps_soft_below_hard() {
    let mut l = ResourceLimits::new();
    assert!(!l.set(&ResourceLimitType::AS, limit(2, 1)));
    assert_eq!(l.get(&ResourceLimitType::AS), limit(RLIM_INFINITY, RLIM_INFINITY));
    assert!(l.set(&ResourceLimitType::AS, limit(1, 1)));
    assert_eq!(l.get(&ResourceLimitType::AS), limit(1, 1));
    assert_eq!(l.get(&ResourceLimitType::RSS), limit(RLIM_INFINITY, RLIM_INFINITY));
}

#[test]
fn errors_map_one_to_one_to_errno() {
    let all = [
        (SysError::NotPermitted, 1),
        (SysError::NoSuchEntry, 2),
        (SysError::NoSuchProcess, 3),
        (SysError::BadDescriptor, 9),
        (SysError::PermissionDenied, 13),
        (SysError::InvalidAddress, 14),
        (SysError::NotADirectory, 20),
        (SysError::IsADirectory, 21),
        (SysError::InvalidArgument, 22),
        (SysError::InvalidEncoding, 84),
        (SysError::Other(5), 5),
    ];
    for (e, n) in all {
        assert_eq!(e.code(), n);
        assert_eq!(SysError::from_errno(n), e);
        assert_eq!(syscall_return(Err(e)), -(n as i64));
        assert_eq!(axerrno::LinuxError::try_from(n).unwrap().code(), e.code());
    }
    assert_eq!(syscall_return(Ok(0)), 0);
    assert_eq!(SysError::from_converted(Some(2)), SysError::NoSuchEntry);
    assert_eq!(SysError::from_converted(None), SysError::InvalidArgument);
}

#[test]
fn addresses_are_null_unmapped_or_mapped() {
    assert!(matches!(UserConstPtr::from_address(0, 16, 8, Some(1u8)), UserConstPtr::Null));
    assert!(matches!(UserConstPtr::from_address(0x1000, 16, 8, Some(1u8)), UserConstPtr::Mapped(1)));
    assert!(matches!(UserConstPtr::from_address(0x1004, 16, 8, Some(1u8)), UserConstPtr::Unmapped));
    assert!(matches!(UserConstPtr::<u8>::from_address(0x1000, 16, 8, None), UserConstPtr::Unmapped));
    assert!(matches!(
        UserConstPtr::from_address(usize::MAX - 7, 16, 8, Some(1u8)),
        UserConstPtr::Unmapped
    ));
    assert!(matches!(UserConstPtr::from_address(usize::MAX - 15, 15, 1, Some(1u8)), UserConstPtr::Mapped(1)));
    assert!(matches!(UserConstPtr::from_address(0x1000, 16, 0, Some(1u8)), UserConstPtr::Unmapped));
    assert!(matches!(UserPtr::from_address(0, 16, 8, Some(1u8)), UserPtr::Null));
    assert!(matches!(UserPtr::from_address(0x1000, 16, 8, Some(1u8)), UserPtr::Mapped(1)));
    assert!(matches!(UserPtr::from_address(0x1001, 16, 2, Some(1u8)), UserPtr::Unmapped));
    assert!(matches!(UserPtr::<u8>::from_address(0x1000, 16, 8, None), UserPtr::Unmapped));
    assert!(UserPtr::<u8>::from_address(0, 1, 1, None).is_null());
    assert!(!UserConstPtr::from_address(8, 1, 1, Some(0u8)).is_null());
    assert_eq!(UserConstPtr::from_address(8, 1, 1, Some(7u8)).get_as_ref(), Ok(&7));
    assert_eq!(
        UserConstPtr::<u8>::from_address(0, 1, 1, None).get_as_ref(),
        Err(SysError::InvalidAddress)
    );
}
