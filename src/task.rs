//! The per-task trap-handling state machine and the per-core slot that
//! holds the active address space.

use crate::context::{create_user_context, UserContext, ENTRY_POINT};
use crate::space::{
    bytes_at, contains, lemma_buffer_in_range, lemma_one_bad_byte_denies_access, permits, range_accessible,
    range_end, space_wf, Access, AddressSpace, MappingView,
};
use crate::syscall::{handle_syscall, utf8_valid, SyscallOutcome, EFAULT_RET, EINVAL_RET, ENOSYS_RET, SYS_EXIT,
    SYS_WRITE};
use std::sync::Arc;
use vstd::prelude::*;

verus! {

/// The per-core slot that binds at most one address space to the core.
pub struct CoreSlot {
    active: Option<Arc<AddressSpace>>,
}

impl CoreSlot {
    /// A slot with no active space.
    pub fn new() -> (r: CoreSlot)
        ensures
            r.active() is None,
    {
        CoreSlot { active: None }
    }

    /// The space bound to the core, if any.
    pub closed spec fn active(&self) -> Option<Arc<AddressSpace>> {
        self.active
    }

    /// Binds `space` to the core; the space bound before, if any, is
    /// thereby deactivated.
    pub fn activate(&mut self, space: Arc<AddressSpace>)
        ensures
            final(self).active() == Some(space),
    {
        self.active = Some(space);
    }

    /// Whether some space is bound to the core.
    pub fn has_active(&self) -> (r: bool)
        ensures
            r == self.active() is Some,
    {
        self.active.is_some()
    }
}

/// Why control came back from user mode.
#[derive(Debug, Clone, Copy, PartialEq, Eq, Structural)]
pub enum ReturnReason {
    UserSyscall,
    UserException,
    KernelEvent,
}

/// The life cycle of a user task.
#[derive(Debug, Clone, Copy, PartialEq, Eq, Structural)]
pub enum TaskState {
    /// Context initialized, user mode not yet entered.
    Ready,
    /// Inside user mode.
    Running,
    /// Back in the kernel for this cause, handled, ready to re-enter.
    Trapped(ReturnReason),
    /// Ended by `exit` with this status.
    Exited(u64),
    /// Ended by a CPU exception that the kernel does not handle.
    Faulted,
}

/// What the caller of the state machine must do after a trap.
#[derive(Debug)]
pub enum TrapAction {
    /// Re-enter user mode.
    Resume,
    /// Print these bytes on the console, then re-enter user mode.
    Print(Vec<u8>),
    /// Halt the machine, reporting success.
    HaltSuccess,
    /// Reclaim the task; it never runs again.
    Reclaim,
}

/// A terminal state: the task never enters user mode again.
pub open spec fn is_terminal(s: TaskState) -> bool {
    s is Exited || s is Faulted
}

/// One user program: its registers, its state, and the address space it
/// runs in.
pub struct UserTask {
    state: TaskState,
    user_context: UserContext,
    vm_space: Arc<AddressSpace>,
}

impl UserTask {
    pub closed spec fn state(&self) -> TaskState {
        self.state
    }

    pub closed spec fn context(&self) -> UserContext {
        self.user_context
    }

    pub closed spec fn space(&self) -> AddressSpace {
        *self.vm_space
    }

    pub open spec fn wf(&self) -> bool {
        self.space().wf()
    }

    /// The current state.
    pub fn current_state(&self) -> (r: TaskState)
        ensures
            r == self.state(),
    {
        self.state
    }

    /// The current registers.
    pub fn user_context(&self) -> (r: UserContext)
        ensures
            r == self.context(),
    {
        self.user_context
    }

    /// Leaves `Ready` or a handled trap for `Running` and hands out the
    /// registers to enter user mode with. A running or ended task is left
    /// as it is and yields nothing.
    pub fn enter(&mut self) -> (r: Option<UserContext>)
        ensures
            final(self).context() == old(self).context(),
            final(self).space() == old(self).space(),
            (old(self).state() is Ready || old(self).state() is Trapped) ==> r == Some(
                old(self).context(),
            ) && final(self).state() == TaskState::Running,
            !(old(self).state() is Ready || old(self).state() is Trapped) ==> r is None
                && final(self).state() == old(self).state(),
            is_terminal(old(self).state()) ==> r is None && final(self).state() == old(self).state(),
    {
        match self.state {
            TaskState::Ready | TaskState::Trapped(_) => {
                self.state = TaskState::Running;
                Some(self.user_context)
            },
            _ => None,
        }
    }

    /// Takes the registers that user mode returned with and handles the
    /// trap, with `vm_space` as the active address space: see
    /// `trap_handled`. An `exit` ends the task and halts the machine with
    /// success; a failed syscall leaves its error code in `a0` and resumes
    /// the program; an exception ends the task alone.
    pub fn on_return_in(&mut self, reason: ReturnReason, regs: UserContext, vm_space: &AddressSpace) -> (r: TrapAction)
        requires
            vm_space.wf(),
            old(self).state() == TaskState::Running,
        ensures
            final(self).space() == old(self).space(),
            trap_handled(reason, regs, vm_space@, r, final(self).state(), final(self).context()),
    {
        self.user_context = regs;
        match reason {
            ReturnReason::UserSyscall => {
                let outcome = handle_syscall(&mut self.user_context, vm_space);
                match outcome {
                    SyscallOutcome::Exit(code) => {
                        self.state = TaskState::Exited(code);
                        TrapAction::HaltSuccess
                    },
                    SyscallOutcome::Console(bytes) => {
                        self.state = TaskState::Trapped(ReturnReason::UserSyscall);
                        TrapAction::Print(bytes)
                    },
                    SyscallOutcome::Failed(_) => {
                        self.state = TaskState::Trapped(ReturnReason::UserSyscall);
                        TrapAction::Resume
                    },
                }
            },
            ReturnReason::UserException => {
                self.state = TaskState::Faulted;
                TrapAction::Reclaim
            },
            ReturnReason::KernelEvent => {
                self.state = TaskState::Trapped(ReturnReason::KernelEvent);
                TrapAction::Resume
            },
        }
    }

    /// Handles a trap against the task's own address space.
    pub fn on_return(&mut self, reason: ReturnReason, regs: UserContext) -> (r: TrapAction)
        requires
            old(self).wf(),
            old(self).state() == TaskState::Running,
        ensures
            final(self).wf(),
            final(self).space() == old(self).space(),
            trap_handled(reason, regs, old(self).space()@, r, final(self).state(), final(self).context()),
    {
        let vm_space = self.vm_space.clone();
        self.on_return_in(reason, regs, &*vm_space)
    }
}

/// The result `r`, new state `st` and new registers `c` of handling a trap
/// for `reason` with registers `regs`, in a space that maps `s`.
pub open spec fn trap_handled(
    reason: ReturnReason,
    regs: UserContext,
    s: Seq<MappingView>,
    r: TrapAction,
    st: TaskState,
    c: UserContext,
) -> bool {
    let ok = range_accessible(s, regs.a1 as int, regs.a2 as int, Access::Read);
    let b = bytes_at(s, regs.a1 as int, regs.a2 as nat);
    let resumed = st == TaskState::Trapped(ReturnReason::UserSyscall);
    match reason {
        ReturnReason::UserSyscall => {
            if regs.a7 == SYS_EXIT {
                r is HaltSuccess && st == TaskState::Exited(regs.a0) && c == regs
            } else if regs.a7 == SYS_WRITE && !ok {
                r is Resume && resumed && c == regs.with_a0(EFAULT_RET)
            } else if regs.a7 == SYS_WRITE && utf8_valid(b) {
                (r matches TrapAction::Print(v) && v@ == b) && resumed && c == regs.with_a0(regs.a2)
            } else if regs.a7 == SYS_WRITE {
                r is Resume && resumed && c == regs.with_a0(EINVAL_RET)
            } else {
                r is Resume && resumed && c == regs.with_a0(ENOSYS_RET)
            }
        },
        ReturnReason::UserException => r is Reclaim && st == TaskState::Faulted && c == regs,
        ReturnReason::KernelEvent => r is Resume && st == TaskState::Trapped(ReturnReason::KernelEvent)
            && c == regs,
    }
}

/// A task in state `Ready` that will run the program of `vm_space` from
/// its entry point.
pub fn create_user_task(vm_space: Arc<AddressSpace>) -> (r: UserTask)
    requires
        vm_space.wf(),
    ensures
        r.wf(),
        r.state() == TaskState::Ready,
        r.context() == (UserContext { ip: ENTRY_POINT, a0: 0, a1: 0, a2: 0, a3: 0, a4: 0, a5: 0, a6: 0, a7: 0 }),
        r.space() == *vm_space,
{
    UserTask { state: TaskState::Ready, user_context: create_user_context(), vm_space }
}

/// `exit`, whatever its status, halts the machine with success and leaves
/// the task in a terminal state, from which `enter` never runs it again.
pub proof fn lemma_exit_is_terminal(
    regs: UserContext,
    s: Seq<MappingView>,
    r: TrapAction,
    st: TaskState,
    c: UserContext,
)
    requires
        regs.a7 == SYS_EXIT,
        trap_handled(ReturnReason::UserSyscall, regs, s, r, st, c),
    ensures
        r is HaltSuccess,
        is_terminal(st),
        st == TaskState::Exited(regs.a0),
{
}

/// An unknown syscall number is answered with `ENOSYS_RET` in `a0` and the
/// program resumes: the task does not end.
pub proof fn lemma_unknown_syscall_resumes(
    regs: UserContext,
    s: Seq<MappingView>,
    r: TrapAction,
    st: TaskState,
    c: UserContext,
)
    requires
        regs.a7 != SYS_WRITE,
        regs.a7 != SYS_EXIT,
        trap_handled(ReturnReason::UserSyscall, regs, s, r, st, c),
    ensures
        r is Resume,
        !is_terminal(st),
        c == regs.with_a0(ENOSYS_RET),
{
}

/// A `write` of `N = a2` bytes of text lying wholly inside one readable
/// range returns `N` in `a0` and prints exactly the bytes resident there.
pub proof fn lemma_write_in_range_prints_resident_bytes(
    regs: UserContext,
    s: Seq<MappingView>,
    i: int,
    r: TrapAction,
    st: TaskState,
    c: UserContext,
)
    requires
        space_wf(s),
        0 <= i < s.len(),
        s[i].flags.read,
        s[i].base <= regs.a1,
        regs.a1 + regs.a2 <= range_end(s[i]),
        utf8_valid(s[i].bytes.subrange(regs.a1 - s[i].base, regs.a1 - s[i].base + regs.a2)),
        regs.a7 == SYS_WRITE,
        trap_handled(ReturnReason::UserSyscall, regs, s, r, st, c),
    ensures
        c.a0 == regs.a2,
        c == regs.with_a0(regs.a2),
        r matches TrapAction::Print(v) && v@ == s[i].bytes.subrange(regs.a1 - s[i].base, regs.a1 - s[i].base + regs.a2),
        !is_terminal(st),
{
    lemma_buffer_in_range(s, i, regs.a1 as int, regs.a2 as nat);
}

/// A `write` whose buffer has one byte that is unmapped or not readable
/// fails with `EFAULT_RET` in `a0`, changes no other register, and resumes
/// the program.
pub proof fn lemma_write_outside_faults(
    regs: UserContext,
    s: Seq<MappingView>,
    a: int,
    r: TrapAction,
    st: TaskState,
    c: UserContext,
)
    requires
        regs.a1 <= a < regs.a1 + regs.a2,
        forall|k: int| 0 <= k < s.len() ==> !(contains(#[trigger] s[k], a) && permits(s[k].flags, Access::Read)),
        regs.a7 == SYS_WRITE,
        trap_handled(ReturnReason::UserSyscall, regs, s, r, st, c),
    ensures
        r is Resume,
        c == regs.with_a0(EFAULT_RET),
        st == TaskState::Trapped(ReturnReason::UserSyscall),
{
    lemma_one_bad_byte_denies_access(s, regs.a1 as int, regs.a2 as int, Access::Read, a);
}

} // verus!
