//! Verified core of an RDMA connection library: the decisions, request
//! layouts and bookkeeping that sit between an application and the
//! verbs / connection-manager calls of `rdma-core`.

pub mod error;
pub mod text;
pub mod utils;
pub mod verbs;
pub mod qp;
pub mod registry;
pub mod setup;
pub mod cq;
pub mod cm;
pub mod stream;
pub mod device;
pub mod mr;
