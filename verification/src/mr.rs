//! Registered memory regions.

use vstd::prelude::*;
use crate::error::{is_rdma_error, RdmaError, Result};
use crate::qp::MrRef;
use crate::text::{int_decimal, with_number};

verus! {

/// What the verbs library reports of a registered region.
#[derive(Debug, Clone, Copy, PartialEq, Eq)]
pub struct MrInfo {
    pub addr: u64,
    pub length: usize,
    pub lkey: u32,
    pub rkey: u32,
}

impl MrInfo {
    /// The key under which remote peers reach the region.
    pub fn rkey(&self) -> (k: u32)
        ensures
            k == self.rkey,
    {
        self.rkey
    }

    /// The key under which local work requests reach the region.
    pub fn lkey(&self) -> (k: u32)
        ensures
            k == self.lkey,
    {
        self.lkey
    }

    /// The start address of the region.
    pub fn addr(&self) -> (a: u64)
        ensures
            a == self.addr,
    {
        self.addr
    }

    /// The length of the region in bytes.
    pub fn len(&self) -> (n: usize)
        ensures
            n == self.length,
    {
        self.length
    }

    /// What a work request reads of the region.
    pub fn as_ref(&self) -> (r: MrRef)
        ensures
            r == (MrRef { addr: self.addr, lkey: self.lkey }),
    {
        MrRef { addr: self.addr, lkey: self.lkey }
    }
}

/// The kinds of registration.
#[derive(Debug, Clone, Copy, PartialEq, Eq)]
pub enum Registration {
    /// Host memory owned by the region.
    Host,
    /// A DMA buffer given by its file descriptor.
    DmaBuf,
    /// Memory that the caller mapped.
    User,
}

/// The text that a failed registration's error starts with.
pub open spec fn registration_prefix(kind: Registration) -> Seq<char> {
    match kind {
        Registration::Host => "Failed to register MR: errno "@,
        Registration::DmaBuf => "Failed to register dmabuf MR: errno "@,
        Registration::User => "Failed to register external MR: errno "@,
    }
}

/// The outcome of a registration: `registered` tells whether the call
/// gave a region, `errno` is the error code read when it did not.
pub fn registration_result(kind: Registration, registered: bool, errno: i32) -> (r: Result<()>)
    ensures
        registered ==> r is Ok,
        !registered ==> (r matches Err(e) && is_rdma_error(
            e,
            registration_prefix(kind) + int_decimal(errno as int),
        )),
{
    if !registered {
        let msg = match kind {
            Registration::Host => with_number("Failed to register MR: errno ", errno as i64),
            Registration::DmaBuf => with_number("Failed to register dmabuf MR: errno ", errno as i64),
            Registration::User => with_number("Failed to register external MR: errno ", errno as i64),
        };
        return Err(RdmaError::Rdma(msg));
    }
    Ok(())
}

} // verus!
