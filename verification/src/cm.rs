//! Connection-manager identifiers and event channels.

use vstd::prelude::*;
use crate::error::{is_rdma_error, RdmaError, Result};
use crate::text::{int_decimal, with_number, with_ret_and_errno};

verus! {

/// How long address and route resolution may take, in milliseconds.
pub const RESOLVE_TIMEOUT_MS: i32 = 2000;

/// What to do after `rdma_get_cm_event` returned.
#[derive(Debug)]
pub enum GetEventStep {
    /// An event was fetched: hand it out.
    Deliver,
    /// No event yet: wait until the channel is readable, clear its
    /// readiness, and fetch again.
    Wait,
    /// Give up.
    Fail(RdmaError),
}

/// The decision after fetching a connection-manager event: `ret` is the
/// call's return code and `errno` the error code read after it; `eagain`
/// and `ewouldblock` are the codes of a fetch that found nothing.
pub fn get_event_step(ret: i32, errno: i32, eagain: i32, ewouldblock: i32) -> (s: GetEventStep)
    ensures
        ret == 0 ==> s is Deliver,
        ret != 0 && (errno == eagain || errno == ewouldblock) ==> s is Wait,
        ret != 0 && errno != eagain && errno != ewouldblock ==> (s matches GetEventStep::Fail(e)
            && is_rdma_error(e, "Failed to get CM event: "@ + int_decimal(errno as int))),
{
    if ret == 0 {
        GetEventStep::Deliver
    } else if errno == eagain || errno == ewouldblock {
        GetEventStep::Wait
    } else {
        GetEventStep::Fail(RdmaError::Rdma(with_number("Failed to get CM event: ", errno as i64)))
    }
}

/// The operations on a connection-manager identifier.
#[derive(Debug, Clone, Copy, PartialEq, Eq)]
pub enum CmOp {
    Bind,
    Listen,
    ResolveAddr,
    ResolveRoute,
    Connect,
    Accept,
    /// Moving an identifier to another event channel.
    Migrate,
}

/// The text that a failed operation's error starts with.
pub open spec fn cm_op_prefix(op: CmOp) -> Seq<char> {
    match op {
        CmOp::Bind => "Failed to bind CM ID: "@,
        CmOp::Listen => "Failed to listen on CM ID: "@,
        CmOp::ResolveAddr => "Failed to resolve CM addr: "@,
        CmOp::ResolveRoute => "Failed to resolve CM route: "@,
        CmOp::Connect => "Failed to connect CM ID: "@,
        CmOp::Accept => "Failed to accept CM ID: "@,
        CmOp::Migrate => "Failed to migrate CM ID: "@,
    }
}

/// The outcome of an operation, from its return code `ret` and the
/// error code `errno` read after it.
pub fn cm_result(op: CmOp, ret: i32, errno: i32) -> (r: Result<()>)
    ensures
        ret == 0 ==> r is Ok,
        ret != 0 ==> (r matches Err(e) && is_rdma_error(
            e,
            cm_op_prefix(op) + int_decimal(ret as int) + " (errno "@ + int_decimal(errno as int)
                + ")"@,
        )),
{
    if ret != 0 {
        let msg = match op {
            CmOp::Bind => with_ret_and_errno("Failed to bind CM ID: ", ret, errno),
            CmOp::Listen => with_ret_and_errno("Failed to listen on CM ID: ", ret, errno),
            CmOp::ResolveAddr => with_ret_and_errno("Failed to resolve CM addr: ", ret, errno),
            CmOp::ResolveRoute => with_ret_and_errno("Failed to resolve CM route: ", ret, errno),
            CmOp::Connect => with_ret_and_errno("Failed to connect CM ID: ", ret, errno),
            CmOp::Accept => with_ret_and_errno("Failed to accept CM ID: ", ret, errno),
            CmOp::Migrate => with_ret_and_errno("Failed to migrate CM ID: ", ret, errno),
        };
        return Err(RdmaError::Rdma(msg));
    }
    Ok(())
}

/// The numeric fields of `rdma_conn_param` (no private data, no shared
/// receive queue).
#[derive(Debug, Clone, Copy, PartialEq, Eq)]
pub struct ConnParam {
    pub responder_resources: u8,
    pub initiator_depth: u8,
    pub flow_control: u8,
    pub retry_count: u8,
    pub rnr_retry_count: u8,
    pub srq: u8,
    pub qp_num: u32,
}

/// The parameters of an active connect: one outstanding read each way
/// and seven retries.
pub fn connect_param() -> (p: ConnParam)
    ensures
        p == (ConnParam {
            responder_resources: 1,
            initiator_depth: 1,
            flow_control: 0,
            retry_count: 7,
            rnr_retry_count: 0,
            srq: 0,
            qp_num: 0,
        }),
{
    ConnParam {
        responder_resources: 1,
        initiator_depth: 1,
        flow_control: 0,
        retry_count: 7,
        rnr_retry_count: 0,
        srq: 0,
        qp_num: 0,
    }
}

/// The parameters of accepting a connection: one outstanding read each
/// way.
pub fn accept_param() -> (p: ConnParam)
    ensures
        p == (ConnParam {
            responder_resources: 1,
            initiator_depth: 1,
            flow_control: 0,
            retry_count: 0,
            rnr_retry_count: 0,
            srq: 0,
            qp_num: 0,
        }),
{
    ConnParam {
        responder_resources: 1,
        initiator_depth: 1,
        flow_control: 0,
        retry_count: 0,
        rnr_retry_count: 0,
        srq: 0,
        qp_num: 0,
    }
}

} // verus!
