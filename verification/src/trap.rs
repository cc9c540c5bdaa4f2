//! The saved user context and the causes of a trap into the kernel.
use vstd::prelude::*;
use crate::config::TRAMPOLINE;

verus! {

/// Bit of `sstatus` that records the privilege level the trap came from
/// (set: supervisor, clear: user).
pub const SSTATUS_SPP: usize = 0x100;

/// Register `x[2]` is the stack pointer.
pub const REG_SP: usize = 2;
/// Register `x[10]` (`a0`) carries the first argument and the return value.
pub const REG_A0: usize = 10;

/// The user context saved on a trap.
#[derive(Clone, Copy, Debug, PartialEq, Eq)]
pub struct TrapContext {
    /// General-purpose registers `x0` to `x31`.
    pub x: [usize; 32],
    /// The saved `sstatus` register, as raw bits.
    pub sstatus: usize,
    /// The program counter to return to.
    pub sepc: usize,
    pub kernel_satp: usize,
    pub kernel_sp: usize,
    pub trap_handler: usize,
}

impl TrapContext {
    /// Sets the user stack pointer.
    pub fn set_sp(&mut self, sp: usize)
        ensures
            final(self).x@ == old(self).x@.update(REG_SP as int, sp),
            final(self).sstatus == old(self).sstatus,
            final(self).sepc == old(self).sepc,
            final(self).kernel_satp == old(self).kernel_satp,
            final(self).kernel_sp == old(self).kernel_sp,
            final(self).trap_handler == old(self).trap_handler,
    {
        self.x[REG_SP] = sp;
    }

    /// The context in which an application starts: all registers zero but
    /// the stack pointer, the return address at `entry`, and `sstatus` taken
    /// from `sstatus` with the previous privilege set to user.
    pub fn app_init_context(
        entry: usize,
        sp: usize,
        kernel_satp: usize,
        kernel_sp: usize,
        trap_handler: usize,
        sstatus: usize,
    ) -> (cx: Self)
        ensures
            forall|i: int| 0 <= i < 32 && i != REG_SP ==> cx.x@[i] == 0,
            cx.x@[REG_SP as int] == sp,
            cx.x@.len() == 32,
            cx.sstatus == sstatus & !SSTATUS_SPP,
            cx.sepc == entry,
            cx.kernel_satp == kernel_satp,
            cx.kernel_sp == kernel_sp,
            cx.trap_handler == trap_handler,
    {
        let mut cx = Self {
            x: [0; 32],
            sstatus: sstatus & !SSTATUS_SPP,
            sepc: entry,
            kernel_satp,
            kernel_sp,
            trap_handler,
        };
        cx.set_sp(sp);
        cx
    }

    /// Stores a system call's return value in `a0`.
    pub fn set_return(&mut self, value: usize)
        ensures
            final(self).x@ == old(self).x@.update(REG_A0 as int, value),
            final(self).sstatus == old(self).sstatus,
            final(self).sepc == old(self).sepc,
            final(self).kernel_satp == old(self).kernel_satp,
            final(self).kernel_sp == old(self).kernel_sp,
            final(self).trap_handler == old(self).trap_handler,
    {
        self.x[REG_A0] = value;
    }
}

/// The cause of a trap, as read from `scause`.
#[derive(Clone, Copy, Debug, PartialEq, Eq, Structural)]
pub enum TrapCause {
    UserEnvCall,
    StoreFault,
    StorePageFault,
    InstructionFault,
    InstructionPageFault,
    LoadFault,
    LoadPageFault,
    IllegalInstruction,
    SupervisorTimer,
    /// Any other exception or interrupt.
    Other,
}

/// What kind of event a trap is, as far as the kernel handles it.
#[derive(Clone, Copy, Debug, PartialEq, Eq, Structural)]
pub enum TrapKind {
    /// A system call from the application.
    EnvCall,
    /// A load, store or instruction-fetch fault: the application is killed.
    MemoryFault,
    /// An illegal instruction: the application is killed.
    IllegalInstruction,
    /// The timer fired: the application gives up the processor.
    Timer,
}

/// Exit code given to an application killed by a memory fault.
pub const EXIT_MEMORY_FAULT: i32 = -2;
/// Exit code given to an application killed by an illegal instruction.
pub const EXIT_ILLEGAL_INSTRUCTION: i32 = -3;

/// How the kernel classifies a trap cause; `None` for a cause it does not
/// handle (the kernel stops).
pub open spec fn trap_kind_spec(cause: TrapCause) -> Option<TrapKind> {
    match cause {
        TrapCause::UserEnvCall => Some(TrapKind::EnvCall),
        TrapCause::StoreFault | TrapCause::StorePageFault | TrapCause::InstructionFault
        | TrapCause::InstructionPageFault | TrapCause::LoadFault | TrapCause::LoadPageFault => Some(
            TrapKind::MemoryFault,
        ),
        TrapCause::IllegalInstruction => Some(TrapKind::IllegalInstruction),
        TrapCause::SupervisorTimer => Some(TrapKind::Timer),
        TrapCause::Other => None,
    }
}

/// Classifies a trap cause.
pub fn trap_kind(cause: TrapCause) -> (r: Option<TrapKind>)
    ensures
        r == trap_kind_spec(cause),
{
    match cause {
        TrapCause::UserEnvCall => Some(TrapKind::EnvCall),
        TrapCause::StoreFault | TrapCause::StorePageFault | TrapCause::InstructionFault
        | TrapCause::InstructionPageFault | TrapCause::LoadFault | TrapCause::LoadPageFault => Some(
            TrapKind::MemoryFault,
        ),
        TrapCause::IllegalInstruction => Some(TrapKind::IllegalInstruction),
        TrapCause::SupervisorTimer => Some(TrapKind::Timer),
        TrapCause::Other => None,
    }
}

/// The virtual address, in the trampoline page, of the context-restoring
/// routine that starts `restore - alltraps` bytes after the trap entry in the
/// kernel image.
pub fn restore_va(restore: usize, alltraps: usize) -> (va: usize)
    requires
        alltraps <= restore,
        restore - alltraps + TRAMPOLINE <= usize::MAX,
    ensures
        va == restore - alltraps + TRAMPOLINE,
{
    restore - alltraps + TRAMPOLINE
}

} // verus!
