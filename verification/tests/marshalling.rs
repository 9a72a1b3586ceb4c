//! Marshalling a builder into the raw argument record: deterministic
//! field mapping, zero for every absent field, exact values for every
//! present one.

use clone3::Clone3;
use clone3::CloneArgs;
use clone3::RawSlice;
use clone3::flags::CHILD_CLEARTID;
use clone3::flags::INTO_CGROUP;
use clone3::flags::PARENT_SETTID;
use clone3::flags::PIDFD;
use clone3::flags::SETTLS;
use clone3::flags::VM;

#[test]
fn default_builder_marshals_to_all_zero() {
    let builder = Clone3::default();
    let args = builder.as_clone_args();
    assert_eq!(args, CloneArgs::default());
    assert_eq!(args.flags, 0);
    assert_eq!(args.pidfd, 0);
    assert_eq!(args.child_tid, 0);
    assert_eq!(args.parent_tid, 0);
    assert_eq!(args.exit_signal, 0);
    assert_eq!(args.stack, 0);
    assert_eq!(args.stack_size, 0);
    assert_eq!(args.tls, 0);
    assert_eq!(args.set_tid, 0);
    assert_eq!(args.set_tid_size, 0);
    assert_eq!(args.cgroup, 0);
}

#[test]
fn pidfd_round_trip() {
    let mut builder = Clone3::default();
    builder.flag_pidfd(0x5000);
    let args = builder.as_clone_args();
    assert_eq!(args.flags, PIDFD);
    assert_ne!(args.pidfd, 0);
    assert_eq!(args.pidfd, 0x5000);
    assert_eq!(args.child_tid, 0);
    assert_eq!(args.parent_tid, 0);
    assert_eq!(args.exit_signal, 0);
    assert_eq!(args.stack, 0);
    assert_eq!(args.stack_size, 0);
    assert_eq!(args.tls, 0);
    assert_eq!(args.set_tid, 0);
    assert_eq!(args.set_tid_size, 0);
    assert_eq!(args.cgroup, 0);
}

#[test]
fn pidfd_round_trip_passes_validation() {
    let mut builder = Clone3::default();
    builder.flag_pidfd(0x5000);
    let args = builder.as_clone_args();
    assert_eq!(builder.checked_clone_args(), Ok(args));
}

#[test]
fn populated_builder_marshals_exactly() {
    let mut builder = Clone3::default();
    builder.flag_child_cleartid(0x100);
    builder.flag_parent_settid(0x200);
    builder.flag_pidfd(0x300);
    builder.flag_settls(0xAA);
    builder.flag_into_cgroup(5);
    builder.exit_signal(17);
    builder.stack(RawSlice { addr: 0x7000, len: 4096 });
    builder.set_tid(RawSlice { addr: 0x8000, len: 3 });
    let args = builder.as_clone_args();
    assert_eq!(args.flags, CHILD_CLEARTID | PARENT_SETTID | PIDFD | SETTLS | INTO_CGROUP);
    assert_eq!(args.pidfd, 0x300);
    assert_eq!(args.child_tid, 0x100);
    assert_eq!(args.parent_tid, 0x200);
    assert_eq!(args.exit_signal, 17);
    assert_eq!(args.stack, 0x7000);
    assert_eq!(args.stack_size, 4096);
    assert_eq!(args.tls, 0xAA);
    assert_eq!(args.set_tid, 0x8000);
    assert_eq!(args.set_tid_size, 3);
    assert_eq!(args.cgroup, 5);
}

#[test]
fn marshalling_is_deterministic() {
    let mut first = Clone3::default();
    first.flag_vm(RawSlice { addr: 0x9000, len: 8192 });
    first.exit_signal(9);
    let mut second = Clone3::default();
    second.flag_vm(RawSlice { addr: 0x9000, len: 8192 });
    second.exit_signal(9);
    assert_eq!(first.as_clone_args(), second.as_clone_args());
    assert_eq!(first.as_clone_args(), first.as_clone_args());
}

#[test]
fn flag_vm_populates_stack_fields() {
    let mut builder = Clone3::default();
    builder.flag_vm(RawSlice { addr: 0x4000, len: 1024 });
    let args = builder.as_clone_args();
    assert_eq!(args.flags, VM);
    assert_eq!(args.stack, 0x4000);
    assert_eq!(args.stack_size, 1024);
}
