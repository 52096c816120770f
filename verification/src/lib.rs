//! The decisions of a Unix socket library, verified.
//!
//! Nothing in this crate enters the kernel.  Every operation on a
//! [`Socket`](socket::Socket) is a small state machine: it hands out the next
//! [`Request`](syscall::Request) to perform, takes the
//! [`Reply`](syscall::Reply) back, and ends in a result.  Whoever owns the
//! system calls runs the loop.
//!
//! What the C library fixes for a platform (option numbers, error codes, the
//! shape of an address) is a [`Target`](target::Target), so the operations are
//! verified for every platform at once.

pub mod accept;
pub mod addr;
pub mod calls;
pub mod cast;
pub mod connect;
pub mod duplicate;
pub mod error;
pub mod flags;
pub mod kind;
pub mod laws;
pub mod ledger;
pub mod linux;
pub mod making;
pub mod marks;
pub mod open;
pub mod options;
pub mod pair;
pub mod patience;
pub mod reaching;
pub mod read;
pub mod readback;
pub mod settings;
pub mod socket;
pub mod syscall;
pub mod talk;
pub mod target;
pub mod time;
pub mod values;
