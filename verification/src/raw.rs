//! The raw argument record for the `clone3` system call.

use vstd::prelude::*;

verus! {

/// Arguments to the `clone3` system call, one 64-bit field per member of
/// `struct clone_args` in `/usr/include/linux/sched.h`, in the kernel's
/// order. The trailing `set_tid`, `set_tid_size` and `cgroup` fields belong
/// to later revisions of the interface; a caller targeting an earlier
/// revision passes a correspondingly shorter size to the trap and leaves
/// them zero.
///
/// The record is a pure value: absent optional inputs are represented by
/// zero, and no field is interpreted here. A caller that performs the
/// system call itself must keep every referenced location alive and
/// unaliased until the call returns.
#[derive(Clone, Copy, Debug, PartialEq, Eq, Structural)]
pub struct CloneArgs {
    /// Bit pattern of the creation flags.
    pub flags: u64,
    /// Address of the slot receiving the pid file descriptor, or 0.
    pub pidfd: u64,
    /// Address of the slot receiving or clearing the child TID, or 0.
    pub child_tid: u64,
    /// Address of the parent's slot receiving the child TID, or 0.
    pub parent_tid: u64,
    /// Signal delivered to the parent when the child exits, or 0.
    pub exit_signal: u64,
    /// Lowest address of the child's stack buffer, or 0.
    pub stack: u64,
    /// Size of the child's stack buffer in bytes, or 0.
    pub stack_size: u64,
    /// Thread-local-storage descriptor for the child, or 0.
    pub tls: u64,
    /// Address of the list of TIDs to assign in each namespace, or 0.
    pub set_tid: u64,
    /// Number of elements in the `set_tid` list, or 0.
    pub set_tid_size: u64,
    /// File descriptor of the control group to enter directly, or 0.
    pub cgroup: u64,
}

impl CloneArgs {
    /// The record with every field zero: no flags, no populated slots.
    pub open spec fn spec_default() -> CloneArgs {
        CloneArgs {
            flags: 0,
            pidfd: 0,
            child_tid: 0,
            parent_tid: 0,
            exit_signal: 0,
            stack: 0,
            stack_size: 0,
            tls: 0,
            set_tid: 0,
            set_tid_size: 0,
            cgroup: 0,
        }
    }
}

impl Default for CloneArgs {
    /// The all-zero record.
    fn default() -> (r: CloneArgs)
        ensures
            r == CloneArgs::spec_default(),
    {
        CloneArgs {
            flags: 0,
            pidfd: 0,
            child_tid: 0,
            parent_tid: 0,
            exit_signal: 0,
            stack: 0,
            stack_size: 0,
            tls: 0,
            set_tid: 0,
            set_tid_size: 0,
            cgroup: 0,
        }
    }
}

} // verus!
