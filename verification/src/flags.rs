//! The set of creation flags for the `clone3` system call.
//!
//! Each constant below is one named option, with the bit value defined in
//! `/usr/include/linux/sched.h`. [`Flags`] is a plain 64-bit set over these
//! bits: membership only, no ordering, no failure.

use vstd::prelude::*;

verus! {

/// Clear the child TID in the child's memory when the child exits.
pub const CHILD_CLEARTID: u64 = 0x0020_0000;
/// Store the child's TID at a given location in the child's memory.
pub const CHILD_SETTID: u64 = 0x0100_0000;
/// Reset all signal handlers of the child to their default dispositions.
pub const CLEAR_SIGHAND: u64 = 0x1_0000_0000;
/// Share the file descriptor table between parent and child.
pub const FILES: u64 = 0x0000_0400;
/// Share filesystem information between parent and child.
pub const FS: u64 = 0x0000_0200;
/// Place the child directly into the control group named by `cgroup`.
pub const INTO_CGROUP: u64 = 0x2_0000_0000;
/// Share the I/O context between parent and child.
pub const IO: u64 = 0x8000_0000;
/// Create the child in a new control-group namespace.
pub const NEWCGROUP: u64 = 0x0200_0000;
/// Create the child in a new IPC namespace.
pub const NEWIPC: u64 = 0x0800_0000;
/// Create the child in a new network namespace.
pub const NEWNET: u64 = 0x4000_0000;
/// Create the child in a new mount namespace.
pub const NEWNS: u64 = 0x0002_0000;
/// Create the child in a new PID namespace.
pub const NEWPID: u64 = 0x2000_0000;
/// Create the child in a new time namespace.
pub const NEWTIME: u64 = 0x0000_0080;
/// Create the child in a new user namespace.
pub const NEWUSER: u64 = 0x1000_0000;
/// Create the child in a new UTS namespace.
pub const NEWUTS: u64 = 0x0400_0000;
/// Make the caller's parent, not the caller, the parent of the child.
pub const PARENT: u64 = 0x0000_8000;
/// Store the child's TID at a given location in the parent's memory.
pub const PARENT_SETTID: u64 = 0x0010_0000;
/// Report the child through a pid file descriptor written into a slot.
pub const PIDFD: u64 = 0x0000_1000;
/// Let a tracing process keep tracing the child.
pub const PTRACE: u64 = 0x0000_2000;
/// Set the thread-local-storage descriptor of the child.
pub const SETTLS: u64 = 0x0008_0000;
/// Share signal handlers between parent and child.
pub const SIGHAND: u64 = 0x0000_0800;
/// Share System V semaphore adjustment lists between parent and child.
pub const SYSVSEM: u64 = 0x0004_0000;
/// Create a thread: share everything with the caller's thread group.
pub const THREAD: u64 = 0x0001_0000;
/// Keep a tracing process from forcing `PTRACE` on the child.
pub const UNTRACED: u64 = 0x0080_0000;
/// Suspend the caller until the child releases its virtual memory.
pub const VFORK: u64 = 0x0000_4000;
/// Share virtual memory between parent and child.
pub const VM: u64 = 0x0000_0100;

/// Every bit of `mask` is present in `bits`.
pub open spec fn spec_contains(bits: u64, mask: u64) -> bool {
    bits & mask == mask
}

/// At least one bit of `mask` is present in `bits`.
pub open spec fn spec_intersects(bits: u64, mask: u64) -> bool {
    bits & mask != 0
}

/// Flags for the `clone3` system call: a 64-bit set of the named options
/// above. A value carries exactly its bit pattern; all operations are pure
/// set algebra and none can fail.
#[derive(Clone, Copy, Debug, PartialEq, Eq, Structural)]
pub struct Flags {
    /// The raw bit pattern of the set.
    pub bits: u64,
}

impl Flags {
    /// The empty set: no option chosen.
    pub fn empty() -> (r: Flags)
        ensures
            r.bits == 0,
    {
        Flags { bits: 0 }
    }

    /// The set holding exactly the given bit pattern.
    pub fn from_bits(bits: u64) -> (r: Flags)
        ensures
            r.bits == bits,
    {
        Flags { bits }
    }

    /// The raw bit pattern of the set.
    pub fn bits(&self) -> (r: u64)
        ensures
            r == self.bits,
    {
        self.bits
    }

    /// Whether every bit of `mask` is in the set.
    pub fn contains(&self, mask: u64) -> (r: bool)
        ensures
            r == spec_contains(self.bits, mask),
    {
        self.bits & mask == mask
    }

    /// Whether at least one bit of `mask` is in the set.
    pub fn intersects(&self, mask: u64) -> (r: bool)
        ensures
            r == spec_intersects(self.bits, mask),
    {
        self.bits & mask != 0
    }

    /// Add every bit of `mask` to the set.
    pub fn insert(&mut self, mask: u64)
        ensures
            final(self).bits == old(self).bits | mask,
    {
        self.bits = self.bits | mask;
    }
}

impl Default for Flags {
    /// The empty set.
    fn default() -> (r: Flags)
        ensures
            r.bits == 0,
    {
        Flags { bits: 0 }
    }
}

/// Adding bits disjoint from `mask` changes neither containment nor
/// intersection with `mask`.
pub proof fn lemma_insert_preserves(bits: u64, add: u64, mask: u64)
    requires
        add & mask == 0,
    ensures
        spec_contains(bits | add, mask) == spec_contains(bits, mask),
        spec_intersects(bits | add, mask) == spec_intersects(bits, mask),
{
    assert(((bits | add) & mask == mask) == (bits & mask == mask)) by (bit_vector)
        requires
            add & mask == 0,
    ;
    assert((((bits | add) & mask) != 0) == ((bits & mask) != 0)) by (bit_vector)
        requires
            add & mask == 0,
    ;
}

/// Adding `add` makes the set contain `add`, and intersect every mask that
/// `add` itself intersects.
pub proof fn lemma_insert_contains(bits: u64, add: u64, mask: u64)
    ensures
        spec_contains(bits | add, add),
        add & mask != 0 ==> spec_intersects(bits | add, mask),
{
    assert((bits | add) & add == add) by (bit_vector);
    assert(add & mask != 0 ==> (bits | add) & mask != 0) by (bit_vector);
}

} // verus!
