//! A minimal single-program kernel core: loading a program image into an
//! isolated address space, checked cross-space access, syscall dispatch and
//! the per-task trap-handling state machine.

pub mod mm;
pub mod space;
pub mod loader;
pub mod context;
pub mod syscall;
pub mod task;
