//! The architecture-specific part of the interface between the kernel and
//! processes. On the emulated board processes run on the host, so there is
//! no stack to set up and no context to switch: each operation declines.
//!
//! Stack pointers are addresses, carried as `usize`.

use vstd::prelude::*;

verus! {

/// The system-call boundary of the emulated board. It holds no state.
#[derive(Clone, Copy, Debug, PartialEq, Eq, Structural)]
pub struct SysCall();

/// Why control came back from a process.
#[derive(Clone, Copy, Debug, PartialEq, Eq, Structural)]
pub enum ContextSwitchReason {
    /// The process made a system call.
    SyscallFired,
    /// The process faulted.
    Fault,
    /// An interrupt stopped the process.
    Interrupted,
}

/// A function to run in a process: its entry point and four arguments.
#[derive(Clone, Copy, Debug, PartialEq, Eq, Structural)]
pub struct FunctionCall {
    pub pc: usize,
    pub argument0: usize,
    pub argument1: usize,
    pub argument2: usize,
    pub argument3: usize,
}

impl SysCall {
    pub fn new() -> (boundary: SysCall)
        ensures
            boundary == SysCall(),
    {
        SysCall()
    }

    /// Sets up the stack of a new process; the emulated board cannot.
    pub fn initialize_process(
        &self,
        stack_pointer: usize,
        stack_size: usize,
        state: &mut (),
    ) -> (r: Result<usize, ()>)
        ensures
            r is Err,
    {
        Err(())
    }

    /// Stores the value that a system call returns to the process; the
    /// emulated board answers on the process's channel instead, so nothing
    /// is stored.
    pub fn set_syscall_return_value(&self, stack_pointer: usize, state: &mut (), return_value: isize) {
    }

    /// Runs the process until it yields control; on the emulated board this
    /// reports a fault at once, with the stack pointer unchanged.
    pub fn switch_to_process(&self, stack_pointer: usize, state: &mut ()) -> (r: (
        usize,
        ContextSwitchReason,
    ))
        ensures
            r == (stack_pointer, ContextSwitchReason::Fault),
    {
        (stack_pointer, ContextSwitchReason::Fault)
    }

    /// Arranges for the process to run `callback` next; the emulated board
    /// cannot, and hands back the stack pointer unchanged as the error.
    pub fn set_process_function(
        &self,
        stack_pointer: usize,
        remaining_stack_memory: usize,
        state: &mut (),
        callback: FunctionCall,
    ) -> (r: Result<usize, usize>)
        ensures
            r == Err::<usize, usize>(stack_pointer),
    {
        Err(stack_pointer)
    }
}

} // verus!
