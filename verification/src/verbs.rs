//! Numeric values of the verbs and connection-manager enumerations that
//! the library uses, as `rdma-core`'s headers define them.

use vstd::prelude::*;

verus! {

/// `IBV_QPT_RC`: reliable connected queue pair.
pub const IBV_QPT_RC: u32 = 2;

/// `IBV_QPS_INIT`.
pub const IBV_QPS_INIT: u32 = 1;
/// `IBV_QPS_RTR`: ready to receive.
pub const IBV_QPS_RTR: u32 = 2;
/// `IBV_QPS_RTS`: ready to send.
pub const IBV_QPS_RTS: u32 = 3;

/// `IBV_MTU_1024`.
pub const IBV_MTU_1024: u32 = 3;

/// `IBV_ACCESS_LOCAL_WRITE`.
pub const IBV_ACCESS_LOCAL_WRITE: u32 = 1;
/// `IBV_ACCESS_REMOTE_WRITE`.
pub const IBV_ACCESS_REMOTE_WRITE: u32 = 2;
/// `IBV_ACCESS_REMOTE_READ`.
pub const IBV_ACCESS_REMOTE_READ: u32 = 4;

/// `IBV_QP_STATE`.
pub const IBV_QP_STATE: u32 = 1;
/// `IBV_QP_ACCESS_FLAGS`.
pub const IBV_QP_ACCESS_FLAGS: u32 = 8;
/// `IBV_QP_PKEY_INDEX`.
pub const IBV_QP_PKEY_INDEX: u32 = 16;
/// `IBV_QP_PORT`.
pub const IBV_QP_PORT: u32 = 32;
/// `IBV_QP_AV`.
pub const IBV_QP_AV: u32 = 128;
/// `IBV_QP_PATH_MTU`.
pub const IBV_QP_PATH_MTU: u32 = 256;
/// `IBV_QP_TIMEOUT`.
pub const IBV_QP_TIMEOUT: u32 = 512;
/// `IBV_QP_RETRY_CNT`.
pub const IBV_QP_RETRY_CNT: u32 = 1024;
/// `IBV_QP_RNR_RETRY`.
pub const IBV_QP_RNR_RETRY: u32 = 2048;
/// `IBV_QP_RQ_PSN`.
pub const IBV_QP_RQ_PSN: u32 = 4096;
/// `IBV_QP_MAX_QP_RD_ATOMIC`.
pub const IBV_QP_MAX_QP_RD_ATOMIC: u32 = 8192;
/// `IBV_QP_MIN_RNR_TIMER`.
pub const IBV_QP_MIN_RNR_TIMER: u32 = 32768;
/// `IBV_QP_SQ_PSN`.
pub const IBV_QP_SQ_PSN: u32 = 65536;
/// `IBV_QP_MAX_DEST_RD_ATOMIC`.
pub const IBV_QP_MAX_DEST_RD_ATOMIC: u32 = 131072;
/// `IBV_QP_DEST_QPN`.
pub const IBV_QP_DEST_QPN: u32 = 1048576;

/// `IBV_WR_RDMA_WRITE`.
pub const IBV_WR_RDMA_WRITE: u32 = 0;
/// `IBV_WR_SEND`.
pub const IBV_WR_SEND: u32 = 2;
/// `IBV_WR_RDMA_READ`.
pub const IBV_WR_RDMA_READ: u32 = 4;

/// `IBV_SEND_SIGNALED`.
pub const IBV_SEND_SIGNALED: u32 = 2;

/// `RDMA_PS_TCP`.
pub const RDMA_PS_TCP: u32 = 0x0106;

/// `RDMA_CM_EVENT_ADDR_RESOLVED`.
pub const RDMA_CM_EVENT_ADDR_RESOLVED: u32 = 0;
/// `RDMA_CM_EVENT_ROUTE_RESOLVED`.
pub const RDMA_CM_EVENT_ROUTE_RESOLVED: u32 = 2;
/// `RDMA_CM_EVENT_CONNECT_REQUEST`.
pub const RDMA_CM_EVENT_CONNECT_REQUEST: u32 = 4;
/// `RDMA_CM_EVENT_ESTABLISHED`.
pub const RDMA_CM_EVENT_ESTABLISHED: u32 = 9;

} // verus!
