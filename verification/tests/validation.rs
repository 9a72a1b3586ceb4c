//! The flag-consistency rules: every documented mutually exclusive pair
//! and implication pair is rejected, and consistent combinations pass.

use clone3::Clone3;
use clone3::Flags;
use clone3::Incompatibility;
use clone3::find_incompatible_flags;
use clone3::flags::CHILD_CLEARTID;
use clone3::flags::CHILD_SETTID;
use clone3::flags::CLEAR_SIGHAND;
use clone3::flags::FILES;
use clone3::flags::FS;
use clone3::flags::INTO_CGROUP;
use clone3::flags::NEWCGROUP;
use clone3::flags::NEWIPC;
use clone3::flags::NEWNS;
use clone3::flags::NEWPID;
use clone3::flags::NEWUSER;
use clone3::flags::PARENT;
use clone3::flags::PIDFD;
use clone3::flags::SIGHAND;
use clone3::flags::SYSVSEM;
use clone3::flags::THREAD;
use clone3::flags::VM;

#[test]
fn rejects_child_cleartid_with_child_settid() {
    let found = find_incompatible_flags(Flags::from_bits(CHILD_CLEARTID | CHILD_SETTID));
    assert_eq!(found, Some(Incompatibility::ChildCleartidWithChildSettid));
}

#[test]
fn rejects_clear_sighand_with_sighand() {
    let found = find_incompatible_flags(Flags::from_bits(CLEAR_SIGHAND | SIGHAND | VM));
    assert_eq!(found, Some(Incompatibility::ClearSighandWithSighand));
}

#[test]
fn rejects_into_cgroup_with_newcgroup() {
    let found = find_incompatible_flags(Flags::from_bits(INTO_CGROUP | NEWCGROUP));
    assert_eq!(found, Some(Incompatibility::IntoCgroupWithNewcgroup));
}

#[test]
fn rejects_newipc_with_sysvsem() {
    let found = find_incompatible_flags(Flags::from_bits(NEWIPC | SYSVSEM));
    assert_eq!(found, Some(Incompatibility::NewipcWithSysvsem));
}

#[test]
fn rejects_fs_with_newns() {
    let found = find_incompatible_flags(Flags::from_bits(FS | NEWNS));
    assert_eq!(found, Some(Incompatibility::FsWithNewns));
}

#[test]
fn rejects_thread_with_pidfd() {
    let found = find_incompatible_flags(Flags::from_bits(THREAD | PIDFD | SIGHAND | VM));
    assert_eq!(found, Some(Incompatibility::ThreadWithPidfd));
}

#[test]
fn rejects_newpid_with_parent() {
    let found = find_incompatible_flags(Flags::from_bits(NEWPID | PARENT));
    assert_eq!(found, Some(Incompatibility::NewpidWithParentOrThread));
}

#[test]
fn rejects_newpid_with_thread() {
    let found = find_incompatible_flags(Flags::from_bits(NEWPID | THREAD | SIGHAND | VM));
    assert_eq!(found, Some(Incompatibility::NewpidWithParentOrThread));
}

#[test]
fn rejects_newuser_with_fs() {
    let found = find_incompatible_flags(Flags::from_bits(NEWUSER | FS));
    assert_eq!(found, Some(Incompatibility::NewuserWithFsParentOrThread));
}

#[test]
fn rejects_newuser_with_parent() {
    let found = find_incompatible_flags(Flags::from_bits(NEWUSER | PARENT));
    assert_eq!(found, Some(Incompatibility::NewuserWithFsParentOrThread));
}

#[test]
fn rejects_sighand_without_vm() {
    let found = find_incompatible_flags(Flags::from_bits(SIGHAND));
    assert_eq!(found, Some(Incompatibility::SighandWithoutVm));
}

#[test]
fn rejects_thread_without_sighand() {
    let found = find_incompatible_flags(Flags::from_bits(THREAD));
    assert_eq!(found, Some(Incompatibility::ThreadWithoutSighand));
}

#[test]
fn accepts_empty_flags() {
    assert_eq!(find_incompatible_flags(Flags::empty()), None);
}

#[test]
fn accepts_thread_with_its_requirements() {
    let found = find_incompatible_flags(Flags::from_bits(THREAD | SIGHAND | VM));
    assert_eq!(found, None);
}

#[test]
fn accepts_unrelated_combination() {
    let found = find_incompatible_flags(Flags::from_bits(FILES | NEWNS | PIDFD));
    assert_eq!(found, None);
}

#[test]
fn builder_rejects_sighand_alone() {
    let mut builder = Clone3::default();
    builder.flag_sighand();
    let result = builder.checked_clone_args();
    assert_eq!(result, Err(Incompatibility::SighandWithoutVm));
}

#[test]
fn builder_rejects_thread_alone() {
    let mut builder = Clone3::default();
    builder.flag_thread();
    let result = builder.checked_clone_args();
    assert_eq!(result, Err(Incompatibility::ThreadWithoutSighand));
}

#[test]
fn builder_rejects_thread_with_pidfd() {
    let mut builder = Clone3::default();
    builder.flag_thread();
    builder.flag_sighand();
    builder.flag_vm(clone3::RawSlice { addr: 0x7000, len: 4096 });
    builder.flag_pidfd(0x6000);
    let result = builder.checked_clone_args();
    assert_eq!(result, Err(Incompatibility::ThreadWithPidfd));
}
