//! The register snapshot used to enter and resume user mode.

use vstd::prelude::*;

verus! {

/// The entry point of a statically linked program mapped at the load
/// address.
pub const ENTRY_POINT: u64 = 0x120000078;

/// User-mode register state: the instruction pointer and the argument
/// registers `a0` to `a7` of the syscall convention.
#[derive(Debug, Clone, Copy, PartialEq, Eq, Structural)]
pub struct UserContext {
    pub ip: u64,
    pub a0: u64,
    pub a1: u64,
    pub a2: u64,
    pub a3: u64,
    pub a4: u64,
    pub a5: u64,
    pub a6: u64,
    pub a7: u64,
}

impl UserContext {
    /// All registers zero, the instruction pointer at `entry_point`.
    pub fn new(entry_point: u64) -> (r: UserContext)
        ensures
            r == (UserContext { ip: entry_point, a0: 0, a1: 0, a2: 0, a3: 0, a4: 0, a5: 0, a6: 0, a7: 0 }),
    {
        UserContext { ip: entry_point, a0: 0, a1: 0, a2: 0, a3: 0, a4: 0, a5: 0, a6: 0, a7: 0 }
    }

    /// The context with `a0` replaced by `v`.
    pub open spec fn with_a0(self, v: u64) -> UserContext {
        UserContext { a0: v, ..self }
    }

    pub fn instruction_pointer(&self) -> (r: u64)
        ensures
            r == self.ip,
    {
        self.ip
    }

    pub fn set_instruction_pointer(&mut self, v: u64)
        ensures
            *final(self) == (UserContext { ip: v, ..*old(self) }),
    {
        self.ip = v;
    }

    pub fn a0(&self) -> (r: u64)
        ensures
            r == self.a0,
    {
        self.a0
    }

    pub fn a1(&self) -> (r: u64)
        ensures
            r == self.a1,
    {
        self.a1
    }

    pub fn a2(&self) -> (r: u64)
        ensures
            r == self.a2,
    {
        self.a2
    }

    pub fn a7(&self) -> (r: u64)
        ensures
            r == self.a7,
    {
        self.a7
    }

    pub fn set_a0(&mut self, v: u64)
        ensures
            *final(self) == old(self).with_a0(v),
    {
        self.a0 = v;
    }
}

/// The context a program starts in: everything zero, the instruction
/// pointer at `ENTRY_POINT`.
pub fn create_user_context() -> (r: UserContext)
    ensures
        r == (UserContext { ip: ENTRY_POINT, a0: 0, a1: 0, a2: 0, a3: 0, a4: 0, a5: 0, a6: 0, a7: 0 }),
{
    let mut user_ctx = UserContext::new(0);
    user_ctx.set_instruction_pointer(ENTRY_POINT);
    user_ctx
}

} // verus!
