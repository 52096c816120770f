# socket2

The decisions of a Unix socket library, verified with Verus.

An operation on a socket is a small state machine. It hands out the next request
to the system, takes the reply back, and ends in a result. Whoever owns the
system calls runs the loop. What the C library fixes for a platform is a value,
the target, so that the operations are verified for every platform at once.

- `src/` is the verified library.
  - `target`, `linux`: a platform, and Linux as the `libc` crate describes it.
  - `cast`, `time`, `addr`, `kind`, `error`: the values that cross the border.
  - `syscall`: requests, replies, and what an operation is.
  - `socket`, `flags`, `open`, `pair`, `duplicate`, `accept`, `connect`,
    `options`, `read`: the operations.
  - `laws`, `readback`, `ledger`, `marks`, `patience`: what holds of them. Every
    descriptor that was opened is handed out or closed; what is handed out is
    marked to be closed on execution; connecting waits for what is left of its
    time; options read back as they were set.
- `app/` performs the requests with system calls and offers the sockets as
  `std` would.
- `tests/` runs the operations against systems that exist in memory.
