//! Builder, validation and result interpretation for the `clone3` call.
//!
//! [`Clone3`] collects the creation flags together with the plain values
//! the argument record needs: addresses of the caller's output slots, the
//! stack region, the TID list, the thread-local-storage descriptor and the
//! control-group descriptor. Builder methods set each flag together with
//! its field, so a populated field without its flag (or the reverse) is
//! unrepresentable; only flag-against-flag conflicts remain, and
//! [`find_incompatible_flags`] rejects those before any record is
//! produced.

use vstd::prelude::*;

use crate::flags::CHILD_CLEARTID;
use crate::flags::CHILD_SETTID;
use crate::flags::CLEAR_SIGHAND;
use crate::flags::FILES;
use crate::flags::FS;
use crate::flags::IO;
use crate::flags::NEWNET;
use crate::flags::NEWTIME;
use crate::flags::NEWUTS;
use crate::flags::PARENT_SETTID;
use crate::flags::PTRACE;
use crate::flags::SETTLS;
use crate::flags::UNTRACED;
use crate::flags::VFORK;
use crate::flags::lemma_insert_contains;
use crate::flags::lemma_insert_preserves;
use crate::flags::INTO_CGROUP;
use crate::flags::NEWCGROUP;
use crate::flags::NEWIPC;
use crate::flags::NEWNS;
use crate::flags::NEWPID;
use crate::flags::NEWUSER;
use crate::flags::PARENT;
use crate::flags::PIDFD;
use crate::flags::SIGHAND;
use crate::flags::SYSVSEM;
use crate::flags::THREAD;
use crate::flags::VM;
use crate::flags::Flags;
use crate::flags::spec_contains;
use crate::flags::spec_intersects;
use crate::raw::CloneArgs;

verus! {

/// A caller-provided memory region, reduced to the plain values the
/// argument record carries: the address of its first element and its
/// length. The caller obtains the address from a live borrow, so it is
/// never null, and must keep the region alive and unaliased until the
/// trap has returned.
#[derive(Clone, Copy, Debug, PartialEq, Eq, Structural)]
pub struct RawSlice {
    /// Address of the first element.
    pub addr: u64,
    /// Number of elements.
    pub len: u64,
}

/// A system error code, read from the thread's last-error value right
/// after the trap reports failure.
#[derive(Clone, Copy, Debug, PartialEq, Eq, Structural)]
pub struct Errno(pub i32);

/// One way a flag combination can break the documented consistency rules.
/// Each variant names the rule broken, in the order the rules are checked.
#[derive(Clone, Copy, Debug, PartialEq, Eq, Structural)]
pub enum Incompatibility {
    /// `CHILD_CLEARTID` and `CHILD_SETTID` are both set.
    ChildCleartidWithChildSettid,
    /// `CLEAR_SIGHAND` and `SIGHAND` are both set.
    ClearSighandWithSighand,
    /// `INTO_CGROUP` and `NEWCGROUP` are both set.
    IntoCgroupWithNewcgroup,
    /// `NEWIPC` and `SYSVSEM` are both set.
    NewipcWithSysvsem,
    /// `FS` and `NEWNS` are both set.
    FsWithNewns,
    /// `THREAD` and `PIDFD` are both set.
    ThreadWithPidfd,
    /// `NEWPID` is set together with `PARENT` or `THREAD`.
    NewpidWithParentOrThread,
    /// `NEWUSER` is set together with `FS`, `PARENT` or `THREAD`.
    NewuserWithFsParentOrThread,
    /// `SIGHAND` is set without `VM`.
    SighandWithoutVm,
    /// `THREAD` is set without `SIGHAND`.
    ThreadWithoutSighand,
}

/// The flag bit pattern breaks none of the documented consistency rules:
/// no mutually exclusive pair is set together, and no flag is set without
/// the flag it requires.
pub open spec fn flags_compatible(bits: u64) -> bool {
    &&& !(spec_contains(bits, CHILD_CLEARTID) && spec_intersects(bits, CHILD_SETTID))
    &&& !(spec_contains(bits, CLEAR_SIGHAND) && spec_intersects(bits, SIGHAND))
    &&& !(spec_contains(bits, INTO_CGROUP) && spec_intersects(bits, NEWCGROUP))
    &&& !(spec_contains(bits, NEWIPC) && spec_intersects(bits, SYSVSEM))
    &&& !(spec_contains(bits, FS) && spec_intersects(bits, NEWNS))
    &&& !(spec_contains(bits, THREAD) && spec_intersects(bits, PIDFD))
    &&& !(spec_contains(bits, NEWPID) && spec_intersects(bits, PARENT | THREAD))
    &&& !(spec_contains(bits, NEWUSER) && spec_intersects(bits, FS | PARENT | THREAD))
    &&& (spec_contains(bits, SIGHAND) ==> spec_contains(bits, VM))
    &&& (spec_contains(bits, THREAD) ==> spec_contains(bits, SIGHAND))
}

/// The first consistency rule the bit pattern breaks, in the order the
/// rules are documented, or `None` when the pattern is compatible.
pub open spec fn spec_find_incompatible(bits: u64) -> Option<Incompatibility> {
    if spec_contains(bits, CHILD_CLEARTID) && spec_intersects(bits, CHILD_SETTID) {
        Some(Incompatibility::ChildCleartidWithChildSettid)
    } else if spec_contains(bits, CLEAR_SIGHAND) && spec_intersects(bits, SIGHAND) {
        Some(Incompatibility::ClearSighandWithSighand)
    } else if spec_contains(bits, INTO_CGROUP) && spec_intersects(bits, NEWCGROUP) {
        Some(Incompatibility::IntoCgroupWithNewcgroup)
    } else if spec_contains(bits, NEWIPC) && spec_intersects(bits, SYSVSEM) {
        Some(Incompatibility::NewipcWithSysvsem)
    } else if spec_contains(bits, FS) && spec_intersects(bits, NEWNS) {
        Some(Incompatibility::FsWithNewns)
    } else if spec_contains(bits, THREAD) && spec_intersects(bits, PIDFD) {
        Some(Incompatibility::ThreadWithPidfd)
    } else if spec_contains(bits, NEWPID) && spec_intersects(bits, PARENT | THREAD) {
        Some(Incompatibility::NewpidWithParentOrThread)
    } else if spec_contains(bits, NEWUSER) && spec_intersects(bits, FS | PARENT | THREAD) {
        Some(Incompatibility::NewuserWithFsParentOrThread)
    } else if spec_contains(bits, SIGHAND) && !spec_contains(bits, VM) {
        Some(Incompatibility::SighandWithoutVm)
    } else if spec_contains(bits, THREAD) && !spec_contains(bits, SIGHAND) {
        Some(Incompatibility::ThreadWithoutSighand)
    } else {
        None
    }
}

/// Checks the flag set against the documented consistency rules and
/// returns the first rule broken, or `None` when every rule holds.
pub fn find_incompatible_flags(flags: Flags) -> (r: Option<Incompatibility>)
    ensures
        r == spec_find_incompatible(flags.bits),
        r is None <==> flags_compatible(flags.bits),
{
    if flags.contains(CHILD_CLEARTID) && flags.intersects(CHILD_SETTID) {
        Some(Incompatibility::ChildCleartidWithChildSettid)
    } else if flags.contains(CLEAR_SIGHAND) && flags.intersects(SIGHAND) {
        Some(Incompatibility::ClearSighandWithSighand)
    } else if flags.contains(INTO_CGROUP) && flags.intersects(NEWCGROUP) {
        Some(Incompatibility::IntoCgroupWithNewcgroup)
    } else if flags.contains(NEWIPC) && flags.intersects(SYSVSEM) {
        Some(Incompatibility::NewipcWithSysvsem)
    } else if flags.contains(FS) && flags.intersects(NEWNS) {
        Some(Incompatibility::FsWithNewns)
    } else if flags.contains(THREAD) && flags.intersects(PIDFD) {
        Some(Incompatibility::ThreadWithPidfd)
    } else if flags.contains(NEWPID) && flags.intersects(PARENT | THREAD) {
        Some(Incompatibility::NewpidWithParentOrThread)
    } else if flags.contains(NEWUSER) && flags.intersects(FS | PARENT | THREAD) {
        Some(Incompatibility::NewuserWithFsParentOrThread)
    } else if flags.contains(SIGHAND) && !flags.contains(VM) {
        Some(Incompatibility::SighandWithoutVm)
    } else if flags.contains(THREAD) && !flags.contains(SIGHAND) {
        Some(Incompatibility::ThreadWithoutSighand)
    } else {
        None
    }
}

/// Setting both sides of a documented mutually exclusive pair is rejected:
/// whenever a pattern holds one side of a pair and touches the other,
/// validation reports an incompatibility, so no record reaches the trap.
pub proof fn lemma_exclusive_pairs_rejected(bits: u64)
    ensures
        spec_contains(bits, CHILD_CLEARTID) && spec_intersects(bits, CHILD_SETTID)
            ==> spec_find_incompatible(bits) is Some,
        spec_contains(bits, CLEAR_SIGHAND) && spec_intersects(bits, SIGHAND)
            ==> spec_find_incompatible(bits) is Some,
        spec_contains(bits, INTO_CGROUP) && spec_intersects(bits, NEWCGROUP)
            ==> spec_find_incompatible(bits) is Some,
        spec_contains(bits, NEWIPC) && spec_intersects(bits, SYSVSEM)
            ==> spec_find_incompatible(bits) is Some,
        spec_contains(bits, FS) && spec_intersects(bits, NEWNS)
            ==> spec_find_incompatible(bits) is Some,
        spec_contains(bits, THREAD) && spec_intersects(bits, PIDFD)
            ==> spec_find_incompatible(bits) is Some,
        spec_contains(bits, NEWPID) && spec_intersects(bits, PARENT | THREAD)
            ==> spec_find_incompatible(bits) is Some,
        spec_contains(bits, NEWUSER) && spec_intersects(bits, FS | PARENT | THREAD)
            ==> spec_find_incompatible(bits) is Some,
{
}

/// Setting the antecedent of a documented implication without its
/// consequent is rejected: `SIGHAND` without `VM`, and `THREAD` without
/// `SIGHAND`, each make validation report an incompatibility.
pub proof fn lemma_implications_rejected(bits: u64)
    ensures
        spec_contains(bits, SIGHAND) && !spec_contains(bits, VM)
            ==> spec_find_incompatible(bits) is Some,
        spec_contains(bits, THREAD) && !spec_contains(bits, SIGHAND)
            ==> spec_find_incompatible(bits) is Some,
{
}

/// Classifies the trap's return value: the sentinel `-1` is a failure
/// carrying the last-error code read right after the trap returned; any
/// other value is the call's result, `0` in the newly created context and
/// the child's identifier in the originating one.
///
/// A value outside the identifier's width (other than the sentinel) is a
/// representation fault — a broken interface assumption, not a normal
/// error — and is excluded here; a caller must treat it as fatal instead
/// of truncating it.
pub fn handle_return_value(return_value: i64, last_error: i32) -> (r: Result<i32, Errno>)
    requires
        -0x8000_0000 <= return_value <= 0x7fff_ffff,
    ensures
        return_value == -1 ==> r == Err::<i32, Errno>(Errno(last_error)),
        return_value != -1 ==> r == Ok::<i32, Errno>(return_value as i32),
{
    if return_value == -1 {
        Err(Errno(last_error))
    } else {
        Ok(return_value as i32)
    }
}

/// The abstract state of a builder: the flag bit pattern together with
/// the plain value staged for each optional record field. `None` stands
/// for an absent field, which marshals to the zero/null sentinel.
pub struct Clone3State {
    /// Bit pattern of the creation flags.
    pub flags: u64,
    /// Address of the pid-file-descriptor output slot, when populated.
    pub pidfd: Option<u64>,
    /// Address of the child-TID output slot, when populated.
    pub child_tid: Option<u64>,
    /// Address of the parent's child-TID output slot, when populated.
    pub parent_tid: Option<u64>,
    /// Signal delivered to the parent when the child exits.
    pub exit_signal: u64,
    /// The child's stack region, when populated.
    pub stack: Option<RawSlice>,
    /// The thread-local-storage descriptor, when configured.
    pub tls: Option<u64>,
    /// The list of TIDs to assign in each namespace, when populated.
    pub set_tid: Option<RawSlice>,
    /// The control-group descriptor, when configured.
    pub cgroup: Option<u64>,
}

impl Clone3State {
    /// The state of a freshly constructed builder: no flags, no populated
    /// fields, exit signal zero.
    pub open spec fn empty() -> Clone3State {
        Clone3State {
            flags: 0,
            pidfd: None,
            child_tid: None,
            parent_tid: None,
            exit_signal: 0,
            stack: None,
            tls: None,
            set_tid: None,
            cgroup: None,
        }
    }

    /// The same state with the given flag bits added.
    pub open spec fn with_flag(self, add: u64) -> Clone3State {
        Clone3State { flags: self.flags | add, ..self }
    }

    /// The same state with the pid-file-descriptor slot populated.
    pub open spec fn with_pidfd(self, addr: u64) -> Clone3State {
        Clone3State { pidfd: Some(addr), ..self }
    }

    /// The same state with the child-TID slot populated.
    pub open spec fn with_child_tid(self, addr: u64) -> Clone3State {
        Clone3State { child_tid: Some(addr), ..self }
    }

    /// The same state with the parent's child-TID slot populated.
    pub open spec fn with_parent_tid(self, addr: u64) -> Clone3State {
        Clone3State { parent_tid: Some(addr), ..self }
    }

    /// The same state with the exit signal configured.
    pub open spec fn with_exit_signal(self, sig: u64) -> Clone3State {
        Clone3State { exit_signal: sig, ..self }
    }

    /// The same state with the stack region populated.
    pub open spec fn with_stack(self, stack: RawSlice) -> Clone3State {
        Clone3State { stack: Some(stack), ..self }
    }

    /// The same state with the thread-local-storage descriptor configured.
    pub open spec fn with_tls(self, tls: u64) -> Clone3State {
        Clone3State { tls: Some(tls), ..self }
    }

    /// The same state with the TID list populated.
    pub open spec fn with_set_tid(self, list: RawSlice) -> Clone3State {
        Clone3State { set_tid: Some(list), ..self }
    }

    /// The same state with the control-group descriptor configured.
    pub open spec fn with_cgroup(self, cgroup: u64) -> Clone3State {
        Clone3State { cgroup: Some(cgroup), ..self }
    }

    /// Flag/field consistency, guaranteed by construction: every builder
    /// method sets a flag together with its field, so each output slot is
    /// populated exactly when its governing flag is set, populated
    /// addresses are non-null, and a stack is present whenever virtual
    /// memory is shared.
    pub open spec fn wf(self) -> bool {
        &&& (self.pidfd is Some <==> spec_contains(self.flags, PIDFD))
        &&& (self.child_tid is Some <==> spec_intersects(
            self.flags,
            CHILD_CLEARTID | CHILD_SETTID,
        ))
        &&& (self.parent_tid is Some <==> spec_contains(self.flags, PARENT_SETTID))
        &&& (self.tls is Some <==> spec_contains(self.flags, SETTLS))
        &&& (self.cgroup is Some <==> spec_contains(self.flags, INTO_CGROUP))
        &&& (spec_contains(self.flags, VM) ==> self.stack is Some)
        &&& (self.pidfd matches Some(a) ==> a != 0)
        &&& (self.child_tid matches Some(a) ==> a != 0)
        &&& (self.parent_tid matches Some(a) ==> a != 0)
        &&& (self.stack matches Some(s) ==> s.addr != 0)
        &&& (self.set_tid matches Some(s) ==> s.addr != 0)
    }
}

/// Adding a flag that governs no field keeps the flag/field coupling:
/// the flag bits that do govern fields are untouched.
proof fn lemma_wf_plain(s: Clone3State, add: u64)
    requires
        add & (PIDFD | CHILD_CLEARTID | CHILD_SETTID | PARENT_SETTID | SETTLS | INTO_CGROUP
            | VM) == 0,
    ensures
        s.wf() ==> s.with_flag(add).wf(),
{
    assert(add & PIDFD == 0 && add & (CHILD_CLEARTID | CHILD_SETTID) == 0 && add & PARENT_SETTID
        == 0 && add & SETTLS == 0 && add & INTO_CGROUP == 0 && add & VM == 0) by (bit_vector)
        requires
            add & (PIDFD | CHILD_CLEARTID | CHILD_SETTID | PARENT_SETTID | SETTLS | INTO_CGROUP
                | VM) == 0,
    ;
    lemma_insert_preserves(s.flags, add, PIDFD);
    lemma_insert_preserves(s.flags, add, CHILD_CLEARTID | CHILD_SETTID);
    lemma_insert_preserves(s.flags, add, PARENT_SETTID);
    lemma_insert_preserves(s.flags, add, SETTLS);
    lemma_insert_preserves(s.flags, add, INTO_CGROUP);
    lemma_insert_preserves(s.flags, add, VM);
}

/// None of the flags that govern no field overlaps a field-governing flag.
proof fn lemma_plain_flags_uncoupled()
    ensures
        CLEAR_SIGHAND & (PIDFD | CHILD_CLEARTID | CHILD_SETTID | PARENT_SETTID | SETTLS
            | INTO_CGROUP | VM) == 0,
        FILES & (PIDFD | CHILD_CLEARTID | CHILD_SETTID | PARENT_SETTID | SETTLS | INTO_CGROUP
            | VM) == 0,
        FS & (PIDFD | CHILD_CLEARTID | CHILD_SETTID | PARENT_SETTID | SETTLS | INTO_CGROUP
            | VM) == 0,
        IO & (PIDFD | CHILD_CLEARTID | CHILD_SETTID | PARENT_SETTID | SETTLS | INTO_CGROUP
            | VM) == 0,
        NEWCGROUP & (PIDFD | CHILD_CLEARTID | CHILD_SETTID | PARENT_SETTID | SETTLS | INTO_CGROUP
            | VM) == 0,
        NEWIPC & (PIDFD | CHILD_CLEARTID | CHILD_SETTID | PARENT_SETTID | SETTLS | INTO_CGROUP
            | VM) == 0,
        NEWNET & (PIDFD | CHILD_CLEARTID | CHILD_SETTID | PARENT_SETTID | SETTLS | INTO_CGROUP
            | VM) == 0,
        NEWNS & (PIDFD | CHILD_CLEARTID | CHILD_SETTID | PARENT_SETTID | SETTLS | INTO_CGROUP
            | VM) == 0,
        NEWPID & (PIDFD | CHILD_CLEARTID | CHILD_SETTID | PARENT_SETTID | SETTLS | INTO_CGROUP
            | VM) == 0,
        NEWTIME & (PIDFD | CHILD_CLEARTID | CHILD_SETTID | PARENT_SETTID | SETTLS | INTO_CGROUP
            | VM) == 0,
        NEWUSER & (PIDFD | CHILD_CLEARTID | CHILD_SETTID | PARENT_SETTID | SETTLS | INTO_CGROUP
            | VM) == 0,
        NEWUTS & (PIDFD | CHILD_CLEARTID | CHILD_SETTID | PARENT_SETTID | SETTLS | INTO_CGROUP
            | VM) == 0,
        PARENT & (PIDFD | CHILD_CLEARTID | CHILD_SETTID | PARENT_SETTID | SETTLS | INTO_CGROUP
            | VM) == 0,
        PTRACE & (PIDFD | CHILD_CLEARTID | CHILD_SETTID | PARENT_SETTID | SETTLS | INTO_CGROUP
            | VM) == 0,
        SIGHAND & (PIDFD | CHILD_CLEARTID | CHILD_SETTID | PARENT_SETTID | SETTLS | INTO_CGROUP
            | VM) == 0,
        SYSVSEM & (PIDFD | CHILD_CLEARTID | CHILD_SETTID | PARENT_SETTID | SETTLS | INTO_CGROUP
            | VM) == 0,
        THREAD & (PIDFD | CHILD_CLEARTID | CHILD_SETTID | PARENT_SETTID | SETTLS | INTO_CGROUP
            | VM) == 0,
        UNTRACED & (PIDFD | CHILD_CLEARTID | CHILD_SETTID | PARENT_SETTID | SETTLS | INTO_CGROUP
            | VM) == 0,
        VFORK & (PIDFD | CHILD_CLEARTID | CHILD_SETTID | PARENT_SETTID | SETTLS | INTO_CGROUP
            | VM) == 0,
{
    assert(CLEAR_SIGHAND & (PIDFD | CHILD_CLEARTID | CHILD_SETTID | PARENT_SETTID | SETTLS
        | INTO_CGROUP | VM) == 0 && FILES & (PIDFD | CHILD_CLEARTID | CHILD_SETTID
        | PARENT_SETTID | SETTLS | INTO_CGROUP | VM) == 0 && FS & (PIDFD | CHILD_CLEARTID
        | CHILD_SETTID | PARENT_SETTID | SETTLS | INTO_CGROUP | VM) == 0 && IO & (PIDFD
        | CHILD_CLEARTID | CHILD_SETTID | PARENT_SETTID | SETTLS | INTO_CGROUP | VM) == 0
        && NEWCGROUP & (PIDFD | CHILD_CLEARTID | CHILD_SETTID | PARENT_SETTID | SETTLS
        | INTO_CGROUP | VM) == 0 && NEWIPC & (PIDFD | CHILD_CLEARTID | CHILD_SETTID
        | PARENT_SETTID | SETTLS | INTO_CGROUP | VM) == 0 && NEWNET & (PIDFD | CHILD_CLEARTID
        | CHILD_SETTID | PARENT_SETTID | SETTLS | INTO_CGROUP | VM) == 0 && NEWNS & (PIDFD
        | CHILD_CLEARTID | CHILD_SETTID | PARENT_SETTID | SETTLS | INTO_CGROUP | VM) == 0
        && NEWPID & (PIDFD | CHILD_CLEARTID | CHILD_SETTID | PARENT_SETTID | SETTLS
        | INTO_CGROUP | VM) == 0 && NEWTIME & (PIDFD | CHILD_CLEARTID | CHILD_SETTID
        | PARENT_SETTID | SETTLS | INTO_CGROUP | VM) == 0 && NEWUSER & (PIDFD | CHILD_CLEARTID
        | CHILD_SETTID | PARENT_SETTID | SETTLS | INTO_CGROUP | VM) == 0 && NEWUTS & (PIDFD
        | CHILD_CLEARTID | CHILD_SETTID | PARENT_SETTID | SETTLS | INTO_CGROUP | VM) == 0
        && PARENT & (PIDFD | CHILD_CLEARTID | CHILD_SETTID | PARENT_SETTID | SETTLS
        | INTO_CGROUP | VM) == 0 && PTRACE & (PIDFD | CHILD_CLEARTID | CHILD_SETTID
        | PARENT_SETTID | SETTLS | INTO_CGROUP | VM) == 0 && SIGHAND & (PIDFD | CHILD_CLEARTID
        | CHILD_SETTID | PARENT_SETTID | SETTLS | INTO_CGROUP | VM) == 0 && SYSVSEM & (PIDFD
        | CHILD_CLEARTID | CHILD_SETTID | PARENT_SETTID | SETTLS | INTO_CGROUP | VM) == 0
        && THREAD & (PIDFD | CHILD_CLEARTID | CHILD_SETTID | PARENT_SETTID | SETTLS
        | INTO_CGROUP | VM) == 0 && UNTRACED & (PIDFD | CHILD_CLEARTID | CHILD_SETTID
        | PARENT_SETTID | SETTLS | INTO_CGROUP | VM) == 0 && VFORK & (PIDFD | CHILD_CLEARTID
        | CHILD_SETTID | PARENT_SETTID | SETTLS | INTO_CGROUP | VM) == 0) by (bit_vector);
}

/// No flag that governs a field overlaps the masks governing the other
/// fields, and each lies inside its own mask.
proof fn lemma_coupled_flags_layout()
    ensures
        PIDFD & (CHILD_CLEARTID | CHILD_SETTID) == 0,
        PIDFD & PARENT_SETTID == 0,
        PIDFD & SETTLS == 0,
        PIDFD & INTO_CGROUP == 0,
        PIDFD & VM == 0,
        CHILD_CLEARTID & (CHILD_CLEARTID | CHILD_SETTID) != 0,
        CHILD_CLEARTID & PIDFD == 0,
        CHILD_CLEARTID & PARENT_SETTID == 0,
        CHILD_CLEARTID & SETTLS == 0,
        CHILD_CLEARTID & INTO_CGROUP == 0,
        CHILD_CLEARTID & VM == 0,
        CHILD_SETTID & (CHILD_CLEARTID | CHILD_SETTID) != 0,
        CHILD_SETTID & PIDFD == 0,
        CHILD_SETTID & PARENT_SETTID == 0,
        CHILD_SETTID & SETTLS == 0,
        CHILD_SETTID & INTO_CGROUP == 0,
        CHILD_SETTID & VM == 0,
        PARENT_SETTID & PIDFD == 0,
        PARENT_SETTID & (CHILD_CLEARTID | CHILD_SETTID) == 0,
        PARENT_SETTID & SETTLS == 0,
        PARENT_SETTID & INTO_CGROUP == 0,
        PARENT_SETTID & VM == 0,
        SETTLS & PIDFD == 0,
        SETTLS & (CHILD_CLEARTID | CHILD_SETTID) == 0,
        SETTLS & PARENT_SETTID == 0,
        SETTLS & INTO_CGROUP == 0,
        SETTLS & VM == 0,
        INTO_CGROUP & PIDFD == 0,
        INTO_CGROUP & (CHILD_CLEARTID | CHILD_SETTID) == 0,
        INTO_CGROUP & PARENT_SETTID == 0,
        INTO_CGROUP & SETTLS == 0,
        INTO_CGROUP & VM == 0,
        VM & PIDFD == 0,
        VM & (CHILD_CLEARTID | CHILD_SETTID) == 0,
        VM & PARENT_SETTID == 0,
        VM & SETTLS == 0,
        VM & INTO_CGROUP == 0,
{
    assert(PIDFD & (CHILD_CLEARTID | CHILD_SETTID) == 0 && PIDFD & PARENT_SETTID == 0 && PIDFD
        & SETTLS == 0 && PIDFD & INTO_CGROUP == 0 && PIDFD & VM == 0 && CHILD_CLEARTID
        & (CHILD_CLEARTID | CHILD_SETTID) != 0 && CHILD_CLEARTID & PIDFD == 0 && CHILD_CLEARTID
        & PARENT_SETTID == 0 && CHILD_CLEARTID & SETTLS == 0 && CHILD_CLEARTID & INTO_CGROUP
        == 0 && CHILD_CLEARTID & VM == 0 && CHILD_SETTID & (CHILD_CLEARTID | CHILD_SETTID) != 0
        && CHILD_SETTID & PIDFD == 0 && CHILD_SETTID & PARENT_SETTID == 0 && CHILD_SETTID
        & SETTLS == 0 && CHILD_SETTID & INTO_CGROUP == 0 && CHILD_SETTID & VM == 0
        && PARENT_SETTID & PIDFD == 0 && PARENT_SETTID & (CHILD_CLEARTID | CHILD_SETTID) == 0
        && PARENT_SETTID & SETTLS == 0 && PARENT_SETTID & INTO_CGROUP == 0 && PARENT_SETTID
        & VM == 0 && SETTLS & PIDFD == 0 && SETTLS & (CHILD_CLEARTID | CHILD_SETTID) == 0
        && SETTLS & PARENT_SETTID == 0 && SETTLS & INTO_CGROUP == 0 && SETTLS & VM == 0
        && INTO_CGROUP & PIDFD == 0 && INTO_CGROUP & (CHILD_CLEARTID | CHILD_SETTID) == 0
        && INTO_CGROUP & PARENT_SETTID == 0 && INTO_CGROUP & SETTLS == 0 && INTO_CGROUP & VM
        == 0 && VM & PIDFD == 0 && VM & (CHILD_CLEARTID | CHILD_SETTID) == 0 && VM
        & PARENT_SETTID == 0 && VM & SETTLS == 0 && VM & INTO_CGROUP == 0) by (bit_vector);
}

/// The record field standing for an optional output slot: the slot's
/// address when it is populated, the null sentinel otherwise.
pub open spec fn spec_addr_or_null(o: Option<u64>) -> u64 {
    match o {
        Some(a) => a,
        None => 0,
    }
}

/// The address field standing for an optional region: the region's start
/// address when it is populated, the null sentinel otherwise.
pub open spec fn spec_slice_addr(o: Option<RawSlice>) -> u64 {
    match o {
        Some(s) => s.addr,
        None => 0,
    }
}

/// The length field standing for an optional region: its element count
/// when it is populated, zero otherwise.
pub open spec fn spec_slice_len(o: Option<RawSlice>) -> u64 {
    match o {
        Some(s) => s.len,
        None => 0,
    }
}

/// The record a builder state marshals to: a deterministic, total mapping
/// from the state to the fixed field layout. The flags field is the bit
/// pattern itself; every absent optional field becomes zero/null; every
/// present one becomes the exact staged address, length or value.
pub open spec fn spec_clone_args(s: Clone3State) -> CloneArgs {
    CloneArgs {
        flags: s.flags,
        pidfd: spec_addr_or_null(s.pidfd),
        child_tid: spec_addr_or_null(s.child_tid),
        parent_tid: spec_addr_or_null(s.parent_tid),
        exit_signal: s.exit_signal,
        stack: spec_slice_addr(s.stack),
        stack_size: spec_slice_len(s.stack),
        tls: spec_addr_or_null(s.tls),
        set_tid: spec_slice_addr(s.set_tid),
        set_tid_size: spec_slice_len(s.set_tid),
        cgroup: spec_addr_or_null(s.cgroup),
    }
}

/// The address for an optional mutable output slot: the staged address,
/// or null (0) when the slot is absent.
pub fn option_as_mut_ptr(o: &Option<u64>) -> (r: u64)
    ensures
        r == spec_addr_or_null(*o),
{
    match o {
        Some(addr) => *addr,
        None => 0,
    }
}

/// The address for an optional read-only region: its start address, or
/// null (0) when the region is absent.
pub fn option_slice_as_ptr(o: &Option<RawSlice>) -> (r: u64)
    ensures
        r == spec_slice_addr(*o),
{
    match o {
        Some(s) => s.addr,
        None => 0,
    }
}

/// The address for an optional mutable region: its start address, or
/// null (0) when the region is absent.
pub fn option_slice_as_mut_ptr(o: &Option<RawSlice>) -> (r: u64)
    ensures
        r == spec_slice_addr(*o),
{
    match o {
        Some(s) => s.addr,
        None => 0,
    }
}

/// Builder for one `clone3` call attempt.
///
/// Construct it with `Clone3::default()`, which sets no flags and no exit
/// signal. Builder methods add flags; each method whose option needs a
/// record field takes the field's plain value along with it — for an
/// output slot, the address of the caller's borrowed location, which the
/// caller must keep alive and unaliased until the trap has returned.
/// [`checked_clone_args`](Self::checked_clone_args) validates the flag
/// combination and marshals the builder into the raw record.
pub struct Clone3 {
    flags: Flags,
    pidfd: Option<u64>,
    child_tid: Option<u64>,
    parent_tid: Option<u64>,
    exit_signal: u64,
    stack: Option<RawSlice>,
    tls: Option<u64>,
    set_tid: Option<RawSlice>,
    cgroup: Option<u64>,
}

impl View for Clone3 {
    type V = Clone3State;

    closed spec fn view(&self) -> Clone3State {
        Clone3State {
            flags: self.flags.bits,
            pidfd: self.pidfd,
            child_tid: self.child_tid,
            parent_tid: self.parent_tid,
            exit_signal: self.exit_signal,
            stack: self.stack,
            tls: self.tls,
            set_tid: self.set_tid,
            cgroup: self.cgroup,
        }
    }
}

impl Default for Clone3 {
    /// A builder with no flags, no populated fields and exit signal zero.
    fn default() -> (r: Clone3)
        ensures
            r@ == Clone3State::empty(),
            r@.wf(),
    {
        proof {
            assert(0u64 & PIDFD != PIDFD && 0u64 & (CHILD_CLEARTID | CHILD_SETTID) == 0 && 0u64
                & PARENT_SETTID != PARENT_SETTID && 0u64 & SETTLS != SETTLS && 0u64
                & INTO_CGROUP != INTO_CGROUP && 0u64 & VM != VM) by (bit_vector);
        }
        Clone3 {
            flags: Flags::empty(),
            pidfd: None,
            child_tid: None,
            parent_tid: None,
            exit_signal: 0,
            stack: None,
            tls: None,
            set_tid: None,
            cgroup: None,
        }
    }
}

impl Clone3 {
    /// Set `CHILD_CLEARTID` and populate the child-TID slot with the
    /// address of the caller's borrowed location.
    pub fn flag_child_cleartid(&mut self, child_tid: u64)
        requires
            child_tid != 0,
        ensures
            final(self)@ == old(self)@.with_flag(CHILD_CLEARTID).with_child_tid(child_tid),
            old(self)@.wf() ==> final(self)@.wf(),
    {
        proof {
            lemma_coupled_flags_layout();
            lemma_insert_contains(self@.flags, CHILD_CLEARTID, CHILD_CLEARTID | CHILD_SETTID);
            lemma_insert_preserves(self@.flags, CHILD_CLEARTID, PIDFD);
            lemma_insert_preserves(self@.flags, CHILD_CLEARTID, PARENT_SETTID);
            lemma_insert_preserves(self@.flags, CHILD_CLEARTID, SETTLS);
            lemma_insert_preserves(self@.flags, CHILD_CLEARTID, INTO_CGROUP);
            lemma_insert_preserves(self@.flags, CHILD_CLEARTID, VM);
        }
        self.flags.insert(CHILD_CLEARTID);
        self.child_tid = Some(child_tid);
    }

    /// Set `CHILD_SETTID` and populate the child-TID slot with the
    /// address of the caller's borrowed location.
    pub fn flag_child_settid(&mut self, child_tid: u64)
        requires
            child_tid != 0,
        ensures
            final(self)@ == old(self)@.with_flag(CHILD_SETTID).with_child_tid(child_tid),
            old(self)@.wf() ==> final(self)@.wf(),
    {
        proof {
            lemma_coupled_flags_layout();
            lemma_insert_contains(self@.flags, CHILD_SETTID, CHILD_CLEARTID | CHILD_SETTID);
            lemma_insert_preserves(self@.flags, CHILD_SETTID, PIDFD);
            lemma_insert_preserves(self@.flags, CHILD_SETTID, PARENT_SETTID);
            lemma_insert_preserves(self@.flags, CHILD_SETTID, SETTLS);
            lemma_insert_preserves(self@.flags, CHILD_SETTID, INTO_CGROUP);
            lemma_insert_preserves(self@.flags, CHILD_SETTID, VM);
        }
        self.flags.insert(CHILD_SETTID);
        self.child_tid = Some(child_tid);
    }

    /// Set `CLEAR_SIGHAND`.
    pub fn flag_clear_sighand(&mut self)
        ensures
            final(self)@ == old(self)@.with_flag(CLEAR_SIGHAND),
            old(self)@.wf() ==> final(self)@.wf(),
    {
        proof {
            lemma_plain_flags_uncoupled();
            lemma_wf_plain(self@, CLEAR_SIGHAND);
        }
        self.flags.insert(CLEAR_SIGHAND);
    }

    /// Set `FILES`.
    pub fn flag_files(&mut self)
        ensures
            final(self)@ == old(self)@.with_flag(FILES),
            old(self)@.wf() ==> final(self)@.wf(),
    {
        proof {
            lemma_plain_flags_uncoupled();
            lemma_wf_plain(self@, FILES);
        }
        self.flags.insert(FILES);
    }

    /// Set `FS`.
    pub fn flag_fs(&mut self)
        ensures
            final(self)@ == old(self)@.with_flag(FS),
            old(self)@.wf() ==> final(self)@.wf(),
    {
        proof {
            lemma_plain_flags_uncoupled();
            lemma_wf_plain(self@, FS);
        }
        self.flags.insert(FS);
    }

    /// Set `INTO_CGROUP` and configure the control-group descriptor.
    pub fn flag_into_cgroup(&mut self, cgroup: u64)
        ensures
            final(self)@ == old(self)@.with_flag(INTO_CGROUP).with_cgroup(cgroup),
            old(self)@.wf() ==> final(self)@.wf(),
    {
        proof {
            lemma_coupled_flags_layout();
            lemma_insert_contains(self@.flags, INTO_CGROUP, INTO_CGROUP);
            lemma_insert_preserves(self@.flags, INTO_CGROUP, PIDFD);
            lemma_insert_preserves(self@.flags, INTO_CGROUP, CHILD_CLEARTID | CHILD_SETTID);
            lemma_insert_preserves(self@.flags, INTO_CGROUP, PARENT_SETTID);
            lemma_insert_preserves(self@.flags, INTO_CGROUP, SETTLS);
            lemma_insert_preserves(self@.flags, INTO_CGROUP, VM);
        }
        self.flags.insert(INTO_CGROUP);
        self.cgroup = Some(cgroup);
    }

    /// Set `IO`.
    pub fn flag_io(&mut self)
        ensures
            final(self)@ == old(self)@.with_flag(IO),
            old(self)@.wf() ==> final(self)@.wf(),
    {
        proof {
            lemma_plain_flags_uncoupled();
            lemma_wf_plain(self@, IO);
        }
        self.flags.insert(IO);
    }

    /// Set `NEWCGROUP`.
    pub fn flag_newcgroup(&mut self)
        ensures
            final(self)@ == old(self)@.with_flag(NEWCGROUP),
            old(self)@.wf() ==> final(self)@.wf(),
    {
        proof {
            lemma_plain_flags_uncoupled();
            lemma_wf_plain(self@, NEWCGROUP);
        }
        self.flags.insert(NEWCGROUP);
    }

    /// Set `NEWIPC`.
    pub fn flag_newipc(&mut self)
        ensures
            final(self)@ == old(self)@.with_flag(NEWIPC),
            old(self)@.wf() ==> final(self)@.wf(),
    {
        proof {
            lemma_plain_flags_uncoupled();
            lemma_wf_plain(self@, NEWIPC);
        }
        self.flags.insert(NEWIPC);
    }

    /// Set `NEWNET`.
    pub fn flag_newnet(&mut self)
        ensures
            final(self)@ == old(self)@.with_flag(NEWNET),
            old(self)@.wf() ==> final(self)@.wf(),
    {
        proof {
            lemma_plain_flags_uncoupled();
            lemma_wf_plain(self@, NEWNET);
        }
        self.flags.insert(NEWNET);
    }

    /// Set `NEWNS`.
    pub fn flag_newns(&mut self)
        ensures
            final(self)@ == old(self)@.with_flag(NEWNS),
            old(self)@.wf() ==> final(self)@.wf(),
    {
        proof {
            lemma_plain_flags_uncoupled();
            lemma_wf_plain(self@, NEWNS);
        }
        self.flags.insert(NEWNS);
    }

    /// Set `NEWPID`.
    pub fn flag_newpid(&mut self)
        ensures
            final(self)@ == old(self)@.with_flag(NEWPID),
            old(self)@.wf() ==> final(self)@.wf(),
    {
        proof {
            lemma_plain_flags_uncoupled();
            lemma_wf_plain(self@, NEWPID);
        }
        self.flags.insert(NEWPID);
    }

    /// Set `NEWTIME`.
    pub fn flag_newtime(&mut self)
        ensures
            final(self)@ == old(self)@.with_flag(NEWTIME),
            old(self)@.wf() ==> final(self)@.wf(),
    {
        proof {
            lemma_plain_flags_uncoupled();
            lemma_wf_plain(self@, NEWTIME);
        }
        self.flags.insert(NEWTIME);
    }

    /// Set `NEWUSER`.
    pub fn flag_newuser(&mut self)
        ensures
            final(self)@ == old(self)@.with_flag(NEWUSER),
            old(self)@.wf() ==> final(self)@.wf(),
    {
        proof {
            lemma_plain_flags_uncoupled();
            lemma_wf_plain(self@, NEWUSER);
        }
        self.flags.insert(NEWUSER);
    }

    /// Set `NEWUTS`.
    pub fn flag_newuts(&mut self)
        ensures
            final(self)@ == old(self)@.with_flag(NEWUTS),
            old(self)@.wf() ==> final(self)@.wf(),
    {
        proof {
            lemma_plain_flags_uncoupled();
            lemma_wf_plain(self@, NEWUTS);
        }
        self.flags.insert(NEWUTS);
    }

    /// Set `PARENT`.
    pub fn flag_parent(&mut self)
        ensures
            final(self)@ == old(self)@.with_flag(PARENT),
            old(self)@.wf() ==> final(self)@.wf(),
    {
        proof {
            lemma_plain_flags_uncoupled();
            lemma_wf_plain(self@, PARENT);
        }
        self.flags.insert(PARENT);
    }

    /// Set `PARENT_SETTID` and populate the parent's child-TID slot with
    /// the address of the caller's borrowed location.
    pub fn flag_parent_settid(&mut self, parent_tid: u64)
        requires
            parent_tid != 0,
        ensures
            final(self)@ == old(self)@.with_flag(PARENT_SETTID).with_parent_tid(parent_tid),
            old(self)@.wf() ==> final(self)@.wf(),
    {
        proof {
            lemma_coupled_flags_layout();
            lemma_insert_contains(self@.flags, PARENT_SETTID, PARENT_SETTID);
            lemma_insert_preserves(self@.flags, PARENT_SETTID, PIDFD);
            lemma_insert_preserves(self@.flags, PARENT_SETTID, CHILD_CLEARTID | CHILD_SETTID);
            lemma_insert_preserves(self@.flags, PARENT_SETTID, SETTLS);
            lemma_insert_preserves(self@.flags, PARENT_SETTID, INTO_CGROUP);
            lemma_insert_preserves(self@.flags, PARENT_SETTID, VM);
        }
        self.flags.insert(PARENT_SETTID);
        self.parent_tid = Some(parent_tid);
    }

    /// Set `PIDFD` and populate the pid-file-descriptor slot with the
    /// address of the caller's borrowed location.
    pub fn flag_pidfd(&mut self, pidfd: u64)
        requires
            pidfd != 0,
        ensures
            final(self)@ == old(self)@.with_flag(PIDFD).with_pidfd(pidfd),
            old(self)@.wf() ==> final(self)@.wf(),
    {
        proof {
            lemma_coupled_flags_layout();
            lemma_insert_contains(self@.flags, PIDFD, PIDFD);
            lemma_insert_preserves(self@.flags, PIDFD, CHILD_CLEARTID | CHILD_SETTID);
            lemma_insert_preserves(self@.flags, PIDFD, PARENT_SETTID);
            lemma_insert_preserves(self@.flags, PIDFD, SETTLS);
            lemma_insert_preserves(self@.flags, PIDFD, INTO_CGROUP);
            lemma_insert_preserves(self@.flags, PIDFD, VM);
        }
        self.flags.insert(PIDFD);
        self.pidfd = Some(pidfd);
    }

    /// Set `PTRACE`.
    pub fn flag_ptrace(&mut self)
        ensures
            final(self)@ == old(self)@.with_flag(PTRACE),
            old(self)@.wf() ==> final(self)@.wf(),
    {
        proof {
            lemma_plain_flags_uncoupled();
            lemma_wf_plain(self@, PTRACE);
        }
        self.flags.insert(PTRACE);
    }

    /// Set `SETTLS` and configure the thread-local-storage descriptor.
    pub fn flag_settls(&mut self, tls: u64)
        ensures
            final(self)@ == old(self)@.with_flag(SETTLS).with_tls(tls),
            old(self)@.wf() ==> final(self)@.wf(),
    {
        proof {
            lemma_coupled_flags_layout();
            lemma_insert_contains(self@.flags, SETTLS, SETTLS);
            lemma_insert_preserves(self@.flags, SETTLS, PIDFD);
            lemma_insert_preserves(self@.flags, SETTLS, CHILD_CLEARTID | CHILD_SETTID);
            lemma_insert_preserves(self@.flags, SETTLS, PARENT_SETTID);
            lemma_insert_preserves(self@.flags, SETTLS, INTO_CGROUP);
            lemma_insert_preserves(self@.flags, SETTLS, VM);
        }
        self.flags.insert(SETTLS);
        self.tls = Some(tls);
    }

    /// Set `SIGHAND`.
    pub fn flag_sighand(&mut self)
        ensures
            final(self)@ == old(self)@.with_flag(SIGHAND),
            old(self)@.wf() ==> final(self)@.wf(),
    {
        proof {
            lemma_plain_flags_uncoupled();
            lemma_wf_plain(self@, SIGHAND);
        }
        self.flags.insert(SIGHAND);
    }

    /// Set `SYSVSEM`.
    pub fn flag_sysvsem(&mut self)
        ensures
            final(self)@ == old(self)@.with_flag(SYSVSEM),
            old(self)@.wf() ==> final(self)@.wf(),
    {
        proof {
            lemma_plain_flags_uncoupled();
            lemma_wf_plain(self@, SYSVSEM);
        }
        self.flags.insert(SYSVSEM);
    }

    /// Set `THREAD`.
    pub fn flag_thread(&mut self)
        ensures
            final(self)@ == old(self)@.with_flag(THREAD),
            old(self)@.wf() ==> final(self)@.wf(),
    {
        proof {
            lemma_plain_flags_uncoupled();
            lemma_wf_plain(self@, THREAD);
        }
        self.flags.insert(THREAD);
    }

    /// Set `UNTRACED`.
    pub fn flag_untraced(&mut self)
        ensures
            final(self)@ == old(self)@.with_flag(UNTRACED),
            old(self)@.wf() ==> final(self)@.wf(),
    {
        proof {
            lemma_plain_flags_uncoupled();
            lemma_wf_plain(self@, UNTRACED);
        }
        self.flags.insert(UNTRACED);
    }

    /// Set `VFORK`.
    pub fn flag_vfork(&mut self)
        ensures
            final(self)@ == old(self)@.with_flag(VFORK),
            old(self)@.wf() ==> final(self)@.wf(),
    {
        proof {
            lemma_plain_flags_uncoupled();
            lemma_wf_plain(self@, VFORK);
        }
        self.flags.insert(VFORK);
    }

    /// Set `VM` and populate the stack region the child will run on.
    pub fn flag_vm(&mut self, stack: RawSlice)
        requires
            stack.addr != 0,
        ensures
            final(self)@ == old(self)@.with_flag(VM).with_stack(stack),
            old(self)@.wf() ==> final(self)@.wf(),
    {
        proof {
            lemma_coupled_flags_layout();
            lemma_insert_contains(self@.flags, VM, VM);
            lemma_insert_preserves(self@.flags, VM, PIDFD);
            lemma_insert_preserves(self@.flags, VM, CHILD_CLEARTID | CHILD_SETTID);
            lemma_insert_preserves(self@.flags, VM, PARENT_SETTID);
            lemma_insert_preserves(self@.flags, VM, SETTLS);
            lemma_insert_preserves(self@.flags, VM, INTO_CGROUP);
        }
        self.flags.insert(VM);
        self.stack = Some(stack);
    }

    /// Configure the signal delivered to the parent when the child exits.
    pub fn exit_signal(&mut self, exit_signal: u64)
        ensures
            final(self)@ == old(self)@.with_exit_signal(exit_signal),
            old(self)@.wf() ==> final(self)@.wf(),
    {
        self.exit_signal = exit_signal;
    }

    /// Populate the stack region the child will run on, without touching
    /// the flags.
    pub fn stack(&mut self, stack: RawSlice)
        requires
            stack.addr != 0,
        ensures
            final(self)@ == old(self)@.with_stack(stack),
            old(self)@.wf() ==> final(self)@.wf(),
    {
        self.stack = Some(stack);
    }

    /// Populate the list of TIDs to assign to the child, one per
    /// namespace level.
    pub fn set_tid(&mut self, set_tid: RawSlice)
        requires
            set_tid.addr != 0,
        ensures
            final(self)@ == old(self)@.with_set_tid(set_tid),
            old(self)@.wf() ==> final(self)@.wf(),
    {
        self.set_tid = Some(set_tid);
    }

    /// Marshals the builder into the raw argument record: a pure, total
    /// mapping with no validation. Perform it only immediately before the
    /// trap, since the record captures addresses of caller-owned memory
    /// that must stay valid and unaliased until the trap returns.
    pub fn as_clone_args(&self) -> (r: CloneArgs)
        ensures
            r == spec_clone_args(self@),
    {
        CloneArgs {
            flags: self.flags.bits(),
            pidfd: option_as_mut_ptr(&self.pidfd),
            child_tid: option_as_mut_ptr(&self.child_tid),
            parent_tid: option_as_mut_ptr(&self.parent_tid),
            exit_signal: self.exit_signal,
            stack: option_slice_as_mut_ptr(&self.stack),
            stack_size: match &self.stack {
                Some(s) => s.len,
                None => 0,
            },
            tls: match &self.tls {
                Some(tls) => *tls,
                None => 0,
            },
            set_tid: option_slice_as_ptr(&self.set_tid),
            set_tid_size: match &self.set_tid {
                Some(s) => s.len,
                None => 0,
            },
            cgroup: match &self.cgroup {
                Some(cgroup) => *cgroup,
                None => 0,
            },
        }
    }

    /// Validates the flag combination and, only when every consistency
    /// rule holds, marshals the builder into the raw argument record; a
    /// broken rule is returned instead, so an inconsistent configuration
    /// can never reach the trap.
    pub fn checked_clone_args(&self) -> (r: Result<CloneArgs, Incompatibility>)
        ensures
            flags_compatible(self@.flags) ==> r == Ok::<CloneArgs, Incompatibility>(
                spec_clone_args(self@),
            ),
            !flags_compatible(self@.flags) ==> r == Err::<CloneArgs, Incompatibility>(
                spec_find_incompatible(self@.flags)->Some_0,
            ),
    {
        match find_incompatible_flags(self.flags) {
            Some(incompatibility) => Err(incompatibility),
            None => Ok(self.as_clone_args()),
        }
    }
}

/// Marshalling preserves the flag/field coupling: in a well-formed
/// builder state the record's output-pointer fields are non-null exactly
/// when their governing flags are set, and the stack fields are non-null
/// whenever virtual memory is shared.
pub proof fn lemma_wf_record_slots(s: Clone3State)
    requires
        s.wf(),
    ensures
        spec_clone_args(s).pidfd != 0 <==> spec_contains(s.flags, PIDFD),
        spec_clone_args(s).child_tid != 0 <==> spec_intersects(
            s.flags,
            CHILD_CLEARTID | CHILD_SETTID,
        ),
        spec_clone_args(s).parent_tid != 0 <==> spec_contains(s.flags, PARENT_SETTID),
        spec_contains(s.flags, VM) ==> spec_clone_args(s).stack != 0,
{
}

/// Round trip for the pid-descriptor request: a builder state holding
/// only the "report via pid file descriptor" option and a populated
/// output slot is well formed, passes validation, and marshals to a
/// record whose flags field has exactly that bit, whose pidfd field is
/// the slot's non-null address, and whose other fields are all zero.
pub proof fn lemma_pidfd_round_trip(s: Clone3State, addr: u64)
    requires
        addr != 0,
        s == Clone3State::empty().with_flag(PIDFD).with_pidfd(addr),
    ensures
        s.wf(),
        spec_find_incompatible(s.flags) is None,
        spec_clone_args(s).flags == PIDFD,
        spec_clone_args(s).pidfd == addr && addr != 0,
        spec_clone_args(s).child_tid == 0,
        spec_clone_args(s).parent_tid == 0,
        spec_clone_args(s).exit_signal == 0,
        spec_clone_args(s).stack == 0,
        spec_clone_args(s).stack_size == 0,
        spec_clone_args(s).tls == 0,
        spec_clone_args(s).set_tid == 0,
        spec_clone_args(s).set_tid_size == 0,
        spec_clone_args(s).cgroup == 0,
{
    assert(0u64 | PIDFD == PIDFD) by (bit_vector);
    assert(PIDFD & PIDFD == PIDFD && PIDFD & (CHILD_CLEARTID | CHILD_SETTID) == 0 && PIDFD
        & PARENT_SETTID != PARENT_SETTID && PIDFD & SETTLS != SETTLS && PIDFD & INTO_CGROUP
        != INTO_CGROUP && PIDFD & VM != VM && PIDFD & CHILD_CLEARTID != CHILD_CLEARTID && PIDFD
        & CLEAR_SIGHAND != CLEAR_SIGHAND && PIDFD & NEWIPC != NEWIPC && PIDFD & FS != FS
        && PIDFD & THREAD != THREAD && PIDFD & NEWPID != NEWPID && PIDFD & NEWUSER != NEWUSER
        && PIDFD & SIGHAND != SIGHAND) by (bit_vector);
}

} // verus!
