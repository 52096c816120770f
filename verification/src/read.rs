//! Operations that end with the first reply: how each is read.

use libc::c_int;
use vstd::prelude::*;

use crate::addr::{addr_of, from_s_addr, Ipv4Addr, SockAddr};
use crate::cast::{int_to_u32, int_to_usize, isize_to_usize, u32_of, usize_of};
use crate::error::Error;
use crate::syscall::{code_of, opt_of, OptValue, Operation, Reply, Step};
use crate::target::Target;
use crate::time::{linger2dur, linger_time, readable, timeout_of, timeval2dur, Duration};

verus! {

/// `reply` is that of an option that was read as an integer.
pub open spec fn is_int(reply: Reply) -> bool {
    reply matches Reply::Opt(r) && (r matches Ok(value) ==> value is Int)
}

/// The integer that an option was read as.
pub open spec fn int_in(reply: Reply) -> Result<c_int, c_int> {
    match reply->Opt_0 {
        Ok(value) => Ok(value->Int_0),
        Err(e) => Err(e),
    }
}

/// Reads an option as an integer.
pub(crate) fn int_of_opt(reply: Reply) -> (r: Result<c_int, c_int>)
    requires
        is_int(reply),
    ensures
        r == int_in(reply),
{
    match opt_of(reply) {
        Ok(OptValue::Int(raw)) => Ok(raw),
        Ok(_) => Err(0),
        Err(e) => Err(e),
    }
}

/// A call that only succeeds or fails.
#[derive(Clone, Copy, Debug)]
pub struct ReadNothing;

impl<'a> Operation<'a> for ReadNothing {
    type Output = ();

    open spec fn accepts(self, reply: Reply) -> bool {
        reply is Code
    }

    open spec fn next(self, target: Target, reply: Reply) -> Step<'a, Self, ()> {
        match reply->Code_0 {
            Ok(_) => Step::Done(Ok(())),
            Err(e) => Step::Done(Err(Error::Os(e))),
        }
    }

    fn resume(self, target: &Target, reply: Reply) -> (step: Step<'a, Self, ()>) {
        match code_of(reply) {
            Ok(_) => Step::Done(Ok(())),
            Err(e) => Step::Done(Err(Error::Os(e))),
        }
    }
}

/// An option that holds a number.
#[derive(Clone, Copy, Debug)]
pub struct ReadU32;

impl<'a> Operation<'a> for ReadU32 {
    type Output = u32;

    open spec fn accepts(self, reply: Reply) -> bool {
        is_int(reply)
    }

    open spec fn next(self, target: Target, reply: Reply) -> Step<'a, Self, u32> {
        match int_in(reply) {
            Ok(raw) => Step::Done(Ok(u32_of(raw as int))),
            Err(e) => Step::Done(Err(Error::Os(e))),
        }
    }

    fn resume(self, target: &Target, reply: Reply) -> (step: Step<'a, Self, u32>) {
        match int_of_opt(reply) {
            Ok(raw) => Step::Done(Ok(int_to_u32(raw))),
            Err(e) => Step::Done(Err(Error::Os(e))),
        }
    }
}

/// An option that is on or off.
#[derive(Clone, Copy, Debug)]
pub struct ReadBool;

impl<'a> Operation<'a> for ReadBool {
    type Output = bool;

    open spec fn accepts(self, reply: Reply) -> bool {
        is_int(reply)
    }

    open spec fn next(self, target: Target, reply: Reply) -> Step<'a, Self, bool> {
        match int_in(reply) {
            Ok(raw) => Step::Done(Ok(raw != 0)),
            Err(e) => Step::Done(Err(Error::Os(e))),
        }
    }

    fn resume(self, target: &Target, reply: Reply) -> (step: Step<'a, Self, bool>) {
        match int_of_opt(reply) {
            Ok(raw) => Step::Done(Ok(raw != 0)),
            Err(e) => Step::Done(Err(Error::Os(e))),
        }
    }
}

/// An option that holds a size.
#[derive(Clone, Copy, Debug)]
pub struct ReadUsize;

impl<'a> Operation<'a> for ReadUsize {
    type Output = usize;

    open spec fn accepts(self, reply: Reply) -> bool {
        is_int(reply)
    }

    open spec fn next(self, target: Target, reply: Reply) -> Step<'a, Self, usize> {
        match int_in(reply) {
            Ok(raw) => Step::Done(Ok(usize_of(raw as int))),
            Err(e) => Step::Done(Err(Error::Os(e))),
        }
    }

    fn resume(self, target: &Target, reply: Reply) -> (step: Step<'a, Self, usize>) {
        match int_of_opt(reply) {
            Ok(raw) => Step::Done(Ok(int_to_usize(raw))),
            Err(e) => Step::Done(Err(Error::Os(e))),
        }
    }
}

/// The option that holds an error of the system, or none.
#[derive(Clone, Copy, Debug)]
pub struct ReadError;

impl<'a> Operation<'a> for ReadError {
    type Output = Option<Error>;

    open spec fn accepts(self, reply: Reply) -> bool {
        is_int(reply)
    }

    open spec fn next(self, target: Target, reply: Reply) -> Step<'a, Self, Option<Error>> {
        match int_in(reply) {
            Ok(raw) => Step::Done(Ok(if raw == 0 { None } else { Some(Error::Os(raw)) })),
            Err(e) => Step::Done(Err(Error::Os(e))),
        }
    }

    fn resume(self, target: &Target, reply: Reply) -> (step: Step<'a, Self, Option<Error>>) {
        match int_of_opt(reply) {
            Ok(raw) => Step::Done(Ok(if raw == 0 { None } else { Some(Error::Os(raw)) })),
            Err(e) => Step::Done(Err(Error::Os(e))),
        }
    }
}

/// An option that holds a timeout, or none.
#[derive(Clone, Copy, Debug)]
pub struct ReadTimeout;

impl<'a> Operation<'a> for ReadTimeout {
    type Output = Option<Duration>;

    open spec fn accepts(self, reply: Reply) -> bool {
        reply matches Reply::Opt(r) && (r matches Ok(value) ==> value matches OptValue::Timeval(raw)
            && readable(raw))
    }

    open spec fn next(self, target: Target, reply: Reply) -> Step<'a, Self, Option<Duration>> {
        match reply->Opt_0 {
            Ok(value) => Step::Done(Ok(timeout_of(value->Timeval_0))),
            Err(e) => Step::Done(Err(Error::Os(e))),
        }
    }

    fn resume(self, target: &Target, reply: Reply) -> (step: Step<'a, Self, Option<Duration>>) {
        match opt_of(reply) {
            Ok(OptValue::Timeval(raw)) => Step::Done(Ok(timeval2dur(raw))),
            Ok(_) => Step::Done(Ok(None)),
            Err(e) => Step::Done(Err(Error::Os(e))),
        }
    }
}

/// The option that holds how long to linger, or not.
#[derive(Clone, Copy, Debug)]
pub struct ReadLinger;

impl<'a> Operation<'a> for ReadLinger {
    type Output = Option<Duration>;

    open spec fn accepts(self, reply: Reply) -> bool {
        reply matches Reply::Opt(r) && (r matches Ok(value) ==> value is Linger)
    }

    open spec fn next(self, target: Target, reply: Reply) -> Step<'a, Self, Option<Duration>> {
        match reply->Opt_0 {
            Ok(value) => Step::Done(Ok(linger_time(value->Linger_0))),
            Err(e) => Step::Done(Err(Error::Os(e))),
        }
    }

    fn resume(self, target: &Target, reply: Reply) -> (step: Step<'a, Self, Option<Duration>>) {
        match opt_of(reply) {
            Ok(OptValue::Linger(raw)) => Step::Done(Ok(linger2dur(raw))),
            Ok(_) => Step::Done(Ok(None)),
            Err(e) => Step::Done(Err(Error::Os(e))),
        }
    }
}

/// An option that holds an IPv4 address.
#[derive(Clone, Copy, Debug)]
pub struct ReadIpv4;

impl<'a> Operation<'a> for ReadIpv4 {
    type Output = Ipv4Addr;

    open spec fn accepts(self, reply: Reply) -> bool {
        reply matches Reply::Opt(r) && (r matches Ok(value) ==> value is InAddr)
    }

    open spec fn next(self, target: Target, reply: Reply) -> Step<'a, Self, Ipv4Addr> {
        match reply->Opt_0 {
            Ok(value) => Step::Done(Ok(addr_of(target.endian, value->InAddr_0))),
            Err(e) => Step::Done(Err(Error::Os(e))),
        }
    }

    fn resume(self, target: &Target, reply: Reply) -> (step: Step<'a, Self, Ipv4Addr>) {
        match opt_of(reply) {
            Ok(OptValue::InAddr(raw)) => Step::Done(Ok(from_s_addr(target, raw))),
            Ok(_) => Step::Done(Ok(from_s_addr(target, 0))),
            Err(e) => Step::Done(Err(Error::Os(e))),
        }
    }
}

/// A number of bytes.
#[derive(Clone, Copy, Debug)]
pub struct ReadCount;

impl<'a> Operation<'a> for ReadCount {
    type Output = usize;

    open spec fn accepts(self, reply: Reply) -> bool {
        reply is Count
    }

    open spec fn next(self, target: Target, reply: Reply) -> Step<'a, Self, usize> {
        match reply->Count_0 {
            Ok(n) => Step::Done(Ok(usize_of(n as int))),
            Err(e) => Step::Done(Err(Error::Os(e))),
        }
    }

    fn resume(self, target: &Target, reply: Reply) -> (step: Step<'a, Self, usize>) {
        match reply {
            Reply::Count(Ok(n)) => Step::Done(Ok(isize_to_usize(n))),
            Reply::Count(Err(e)) => Step::Done(Err(Error::Os(e))),
            _ => Step::Done(Err(Error::Os(0))),
        }
    }
}

/// A number of bytes, and the address that they came from.
#[derive(Clone, Copy, Debug)]
pub struct ReadCountFrom;

impl<'a> Operation<'a> for ReadCountFrom {
    type Output = (usize, SockAddr);

    open spec fn accepts(self, reply: Reply) -> bool {
        reply is CountFrom
    }

    open spec fn next(self, target: Target, reply: Reply) -> Step<'a, Self, (usize, SockAddr)> {
        match reply->CountFrom_0 {
            Ok((n, addr)) => Step::Done(Ok((usize_of(n as int), addr))),
            Err(e) => Step::Done(Err(Error::Os(e))),
        }
    }

    fn resume(self, target: &Target, reply: Reply) -> (step: Step<'a, Self, (usize, SockAddr)>) {
        match reply {
            Reply::CountFrom(Ok((n, addr))) => Step::Done(Ok((isize_to_usize(n), addr))),
            Reply::CountFrom(Err(e)) => Step::Done(Err(Error::Os(e))),
            _ => Step::Done(Err(Error::Os(0))),
        }
    }
}

/// An address.
#[derive(Clone, Copy, Debug)]
pub struct ReadAddr;

impl<'a> Operation<'a> for ReadAddr {
    type Output = SockAddr;

    open spec fn accepts(self, reply: Reply) -> bool {
        reply is Addr
    }

    open spec fn next(self, target: Target, reply: Reply) -> Step<'a, Self, SockAddr> {
        match reply->Addr_0 {
            Ok(addr) => Step::Done(Ok(addr)),
            Err(e) => Step::Done(Err(Error::Os(e))),
        }
    }

    fn resume(self, target: &Target, reply: Reply) -> (step: Step<'a, Self, SockAddr>) {
        match reply {
            Reply::Addr(Ok(addr)) => Step::Done(Ok(addr)),
            Reply::Addr(Err(e)) => Step::Done(Err(Error::Os(e))),
            _ => Step::Done(Err(Error::Os(0))),
        }
    }
}

/// A call whose failure is of no consequence.
#[derive(Clone, Copy, Debug)]
pub struct Ignore;

impl<'a> Operation<'a> for Ignore {
    type Output = ();

    open spec fn accepts(self, reply: Reply) -> bool {
        reply is Code
    }

    open spec fn next(self, target: Target, reply: Reply) -> Step<'a, Self, ()> {
        Step::Done(Ok(()))
    }

    fn resume(self, target: &Target, reply: Reply) -> (step: Step<'a, Self, ()>) {
        Step::Done(Ok(()))
    }
}

} // verus!
