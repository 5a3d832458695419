//! Core of a single-threaded, cooperative asynchronous I/O runtime over the
//! Linux `io_uring` submission/completion interface.
//!
//! The crate verifies the three subsystems that carry the correctness burden:
//! the operation lifecycle manager (a slab of per-operation state machines),
//! the driver that tags submission entries and dispatches completion events,
//! and the cooperative executor's scheduling policy.  The unverifiable edges
//! (system calls, ring memory, thread locals, wakers) live with the binary
//! that embeds this core; every decision those edges act on is taken here,
//! under contract.

pub mod driver;
pub mod executor;
pub mod fd;
pub mod injector;
pub mod lifecycle;
pub mod slab;
pub mod uring;

pub use driver::Completion;
pub use driver::CqEvent;
pub use driver::DriverState;
pub use driver::Op;
pub use driver::OpPoll;
pub use driver::Reaped;
pub use driver::SubmitOutcome;
pub use lifecycle::CompleteAction;
pub use lifecycle::Lifecycle;
pub use slab::Slab;
