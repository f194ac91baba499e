//! A policy-driven sandbox for file-opening syscalls.
//!
//! The library holds the verified core of a tracer that supervises one child
//! process: the open-mode and policy model, the word-aligned codec for the
//! child's memory, the syscall descriptors, the argument parser, and the
//! decision logic applied at every trapped open call.

pub mod args;
pub mod bytes;
pub mod codec;
pub mod err;
pub mod policy;
pub mod syscall;
pub mod tracer;
pub mod types;

pub use args::parse;
pub use args::usage;
pub use args::Args;
pub use args::Parsed;
pub use err::ArgReason;
pub use err::Error;
pub use err::SeccompPhase;
pub use policy::Policy;
pub use syscall::sys_to_name;
pub use tracer::dispatch_event;
pub use tracer::handle_open;
pub use tracer::log_line;
pub use tracer::plan_open;
pub use tracer::read_open_path;
pub use tracer::Event;
pub use tracer::OpenPlan;
pub use tracer::OpenVerdict;
pub use tracer::Step;
pub use syscall::Regs;
pub use syscall::Syscall;
pub use types::check_open;
pub use types::Action;
pub use types::OpenType;
