//! Queue-pair attributes and work requests.
//!
//! The verbs calls themselves are made by the caller; this module fixes
//! what is handed to them: the attributes of each state transition, the
//! creation attributes, and the scatter/gather layout of posted requests.

use vstd::prelude::*;
use crate::error::{is_rdma_error, RdmaError, Result};
use crate::text::{int_decimal, with_number};
use crate::verbs::{
    IBV_ACCESS_LOCAL_WRITE, IBV_ACCESS_REMOTE_READ, IBV_ACCESS_REMOTE_WRITE, IBV_MTU_1024, IBV_QPS_INIT, IBV_QPS_RTR, IBV_QPS_RTS, IBV_QPT_RC, IBV_QP_ACCESS_FLAGS, IBV_QP_AV, IBV_QP_DEST_QPN, IBV_QP_MAX_DEST_RD_ATOMIC, IBV_QP_MAX_QP_RD_ATOMIC, IBV_QP_MIN_RNR_TIMER, IBV_QP_PATH_MTU, IBV_QP_PKEY_INDEX, IBV_QP_PORT, IBV_QP_RETRY_CNT, IBV_QP_RNR_RETRY, IBV_QP_RQ_PSN, IBV_QP_SQ_PSN, IBV_QP_STATE, IBV_QP_TIMEOUT, IBV_SEND_SIGNALED, IBV_WR_SEND,
};

verus! {

/// Creation attributes of a queue pair (the completion queues are
/// supplied by the caller).
#[derive(Debug, Clone, Copy, PartialEq, Eq)]
pub struct QpCreateAttr {
    pub qp_type: u32,
    pub sq_sig_all: i32,
    pub max_send_wr: u32,
    pub max_recv_wr: u32,
    pub max_send_sge: u32,
    pub max_recv_sge: u32,
}

/// The creation attributes of every queue pair: reliable connected, no
/// implicit signalling, 128 outstanding requests and one scatter/gather
/// element each way.
pub fn create_attr() -> (a: QpCreateAttr)
    ensures
        a == (QpCreateAttr {
            qp_type: IBV_QPT_RC,
            sq_sig_all: 0,
            max_send_wr: 128,
            max_recv_wr: 128,
            max_send_sge: 1,
            max_recv_sge: 1,
        }),
{
    QpCreateAttr {
        qp_type: IBV_QPT_RC,
        sq_sig_all: 0,
        max_send_wr: 128,
        max_recv_wr: 128,
        max_send_sge: 1,
        max_recv_sge: 1,
    }
}

/// The outcome of creating a queue pair through the connection manager,
/// from the call's return code.
pub fn create_result(ret: i32) -> (r: Result<()>)
    ensures
        ret == 0 ==> r is Ok,
        ret != 0 ==> (r matches Err(e) && is_rdma_error(
            e,
            "Failed to create CM QP: "@ + int_decimal(ret as int),
        )),
{
    if ret != 0 {
        return Err(RdmaError::Rdma(with_number("Failed to create CM QP: ", ret as i64)));
    }
    Ok(())
}

/// The address vector of a queue-pair attribute set.
#[derive(Debug, Clone, Copy, PartialEq, Eq)]
pub struct AddressVector {
    pub dlid: u16,
    pub sl: u8,
    pub src_path_bits: u8,
    pub port_num: u8,
    pub is_global: u8,
    pub dgid: [u8; 16],
    pub sgid_index: u8,
    pub hop_limit: u8,
}

/// The fields of `ibv_qp_attr` that the transitions set; all others are
/// zero.
#[derive(Debug, Clone, Copy, PartialEq, Eq)]
pub struct QpAttr {
    pub qp_state: u32,
    pub pkey_index: u16,
    pub port_num: u8,
    pub qp_access_flags: u32,
    pub path_mtu: u32,
    pub dest_qp_num: u32,
    pub rq_psn: u32,
    pub max_dest_rd_atomic: u8,
    pub min_rnr_timer: u8,
    pub ah_attr: AddressVector,
    pub timeout: u8,
    pub retry_cnt: u8,
    pub rnr_retry: u8,
    pub sq_psn: u32,
    pub max_rd_atomic: u8,
}

/// A state transition: the attributes and the mask of those that apply.
#[derive(Debug, Clone, Copy, PartialEq, Eq)]
pub struct QpModify {
    pub attr: QpAttr,
    pub mask: u32,
}

/// The all-zero address vector.
pub open spec fn zero_av() -> AddressVector {
    AddressVector {
        dlid: 0,
        sl: 0,
        src_path_bits: 0,
        port_num: 0,
        is_global: 0,
        dgid: [0u8, 0u8, 0u8, 0u8, 0u8, 0u8, 0u8, 0u8, 0u8, 0u8, 0u8, 0u8, 0u8, 0u8, 0u8, 0u8],
        sgid_index: 0,
        hop_limit: 0,
    }
}

/// The all-zero attribute set.
pub open spec fn zero_attr() -> QpAttr {
    QpAttr {
        qp_state: 0,
        pkey_index: 0,
        port_num: 0,
        qp_access_flags: 0,
        path_mtu: 0,
        dest_qp_num: 0,
        rq_psn: 0,
        max_dest_rd_atomic: 0,
        min_rnr_timer: 0,
        ah_attr: zero_av(),
        timeout: 0,
        retry_cnt: 0,
        rnr_retry: 0,
        sq_psn: 0,
        max_rd_atomic: 0,
    }
}

fn zeroed_attr() -> (a: QpAttr)
    ensures
        a == zero_attr(),
{
    QpAttr {
        qp_state: 0,
        pkey_index: 0,
        port_num: 0,
        qp_access_flags: 0,
        path_mtu: 0,
        dest_qp_num: 0,
        rq_psn: 0,
        max_dest_rd_atomic: 0,
        min_rnr_timer: 0,
        ah_attr: AddressVector {
            dlid: 0,
            sl: 0,
            src_path_bits: 0,
            port_num: 0,
            is_global: 0,
            dgid: [0u8, 0u8, 0u8, 0u8, 0u8, 0u8, 0u8, 0u8, 0u8, 0u8, 0u8, 0u8, 0u8, 0u8, 0u8, 0u8],
            sgid_index: 0,
            hop_limit: 0,
        },
        timeout: 0,
        retry_cnt: 0,
        rnr_retry: 0,
        sq_psn: 0,
        max_rd_atomic: 0,
    }
}

/// The transition to INIT on port `port_num`, with local write, remote
/// read and remote write access.
pub fn to_init(port_num: u8) -> (m: QpModify)
    ensures
        m.attr == (QpAttr {
            qp_state: IBV_QPS_INIT,
            pkey_index: 0,
            port_num: port_num,
            qp_access_flags: IBV_ACCESS_LOCAL_WRITE | IBV_ACCESS_REMOTE_READ
                | IBV_ACCESS_REMOTE_WRITE,
            ..zero_attr()
        }),
        m.mask == IBV_QP_STATE | IBV_QP_PKEY_INDEX | IBV_QP_PORT | IBV_QP_ACCESS_FLAGS,
{
    let mut attr = zeroed_attr();
    attr.qp_state = IBV_QPS_INIT;
    attr.pkey_index = 0;
    attr.port_num = port_num;
    attr.qp_access_flags = IBV_ACCESS_LOCAL_WRITE | IBV_ACCESS_REMOTE_READ
        | IBV_ACCESS_REMOTE_WRITE;
    let mask: u32 = IBV_QP_STATE | IBV_QP_PKEY_INDEX | IBV_QP_PORT | IBV_QP_ACCESS_FLAGS;
    QpModify { attr, mask }
}

/// The address vector towards a peer: local identifier `dest_lid` over
/// port `port_num`, routed globally to `dest_gid` when one is given.
pub open spec fn rtr_av(dest_lid: u16, port_num: u8, dest_gid: Option<[u8; 16]>) -> AddressVector {
    match dest_gid {
        Some(gid) => AddressVector {
            dlid: dest_lid,
            port_num: port_num,
            is_global: 1,
            dgid: gid,
            sgid_index: 0,
            hop_limit: 1,
            ..zero_av()
        },
        None => AddressVector { dlid: dest_lid, port_num: port_num, ..zero_av() },
    }
}

/// Whatever the route, the address vector of an RTR transition leads to
/// the caller's destination LID over the caller's port, and it is global
/// exactly when a GID is given, with that GID as destination.
pub proof fn lemma_rtr_av_targets_destination(dest_lid: u16, port_num: u8, dest_gid: Option<[u8; 16]>)
    ensures
        rtr_av(dest_lid, port_num, dest_gid).dlid == dest_lid,
        rtr_av(dest_lid, port_num, dest_gid).port_num == port_num,
        (rtr_av(dest_lid, port_num, dest_gid).is_global == 1) == (dest_gid is Some),
        dest_gid matches Some(g) ==> rtr_av(dest_lid, port_num, dest_gid).dgid == g,
{
}

/// The transition to RTR towards queue pair `dest_qpn` of the peer,
/// with a 1024-byte path MTU, one outstanding read and a minimum RNR
/// timer of 12.
pub fn to_rtr(dest_qpn: u32, dest_lid: u16, port_num: u8, dest_psn: u32, dest_gid: Option<[u8; 16]>) -> (m: QpModify)
    ensures
        m.attr == (QpAttr {
            qp_state: IBV_QPS_RTR,
            path_mtu: IBV_MTU_1024,
            dest_qp_num: dest_qpn,
            rq_psn: dest_psn,
            max_dest_rd_atomic: 1,
            min_rnr_timer: 12,
            ah_attr: rtr_av(dest_lid, port_num, dest_gid),
            ..zero_attr()
        }),
        m.mask == IBV_QP_STATE | IBV_QP_AV | IBV_QP_PATH_MTU | IBV_QP_DEST_QPN | IBV_QP_RQ_PSN
            | IBV_QP_MAX_DEST_RD_ATOMIC | IBV_QP_MIN_RNR_TIMER,
        m.attr.ah_attr.dlid == dest_lid,
        m.attr.ah_attr.port_num == port_num,
        m.attr.ah_attr.sl == 0,
        m.attr.ah_attr.src_path_bits == 0,
        m.attr.ah_attr.sgid_index == 0,
        dest_gid matches Some(g) ==> m.attr.ah_attr.is_global == 1 && m.attr.ah_attr.dgid == g
            && m.attr.ah_attr.hop_limit == 1,
        dest_gid is None ==> m.attr.ah_attr.is_global == 0 && m.attr.ah_attr.hop_limit == 0,
{
    let mut attr = zeroed_attr();
    attr.qp_state = IBV_QPS_RTR;
    attr.path_mtu = IBV_MTU_1024;
    attr.dest_qp_num = dest_qpn;
    attr.rq_psn = dest_psn;
    attr.max_dest_rd_atomic = 1;
    attr.min_rnr_timer = 12;
    attr.ah_attr.dlid = dest_lid;
    attr.ah_attr.sl = 0;
    attr.ah_attr.src_path_bits = 0;
    attr.ah_attr.port_num = port_num;
    match dest_gid {
        Some(gid) => {
            attr.ah_attr.is_global = 1;
            attr.ah_attr.dgid = gid;
            attr.ah_attr.sgid_index = 0;
            attr.ah_attr.hop_limit = 1;
        },
        None => {
            attr.ah_attr.is_global = 0;
        },
    }
    let mask: u32 = IBV_QP_STATE | IBV_QP_AV | IBV_QP_PATH_MTU | IBV_QP_DEST_QPN | IBV_QP_RQ_PSN
        | IBV_QP_MAX_DEST_RD_ATOMIC | IBV_QP_MIN_RNR_TIMER;
    QpModify { attr, mask }
}

/// The transition to RTS with send sequence number `my_psn`, timeout 14,
/// seven retries (also on RNR) and one outstanding read.
pub fn to_rts(my_psn: u32) -> (m: QpModify)
    ensures
        m.attr == (QpAttr {
            qp_state: IBV_QPS_RTS,
            timeout: 14,
            retry_cnt: 7,
            rnr_retry: 7,
            sq_psn: my_psn,
            max_rd_atomic: 1,
            ..zero_attr()
        }),
        m.mask == IBV_QP_STATE | IBV_QP_TIMEOUT | IBV_QP_RETRY_CNT | IBV_QP_RNR_RETRY
            | IBV_QP_SQ_PSN | IBV_QP_MAX_QP_RD_ATOMIC,
{
    let mut attr = zeroed_attr();
    attr.qp_state = IBV_QPS_RTS;
    attr.timeout = 14;
    attr.retry_cnt = 7;
    attr.rnr_retry = 7;
    attr.sq_psn = my_psn;
    attr.max_rd_atomic = 1;
    let mask: u32 = IBV_QP_STATE | IBV_QP_TIMEOUT | IBV_QP_RETRY_CNT | IBV_QP_RNR_RETRY
        | IBV_QP_SQ_PSN | IBV_QP_MAX_QP_RD_ATOMIC;
    QpModify { attr, mask }
}

/// The state transitions of a queue pair.
#[derive(Debug, Clone, Copy, PartialEq, Eq)]
pub enum Transition {
    Init,
    Rtr,
    Rts,
}

/// The text that a failed transition's error starts with.
pub open spec fn modify_prefix(t: Transition) -> Seq<char> {
    match t {
        Transition::Init => "Failed to modify QP to INIT: "@,
        Transition::Rtr => "Failed to modify QP to RTR: "@,
        Transition::Rts => "Failed to modify QP to RTS: "@,
    }
}

/// The outcome of a transition, from `ibv_modify_qp`'s return code.
pub fn modify_result(t: Transition, ret: i32) -> (r: Result<()>)
    ensures
        ret == 0 ==> r is Ok,
        ret != 0 ==> (r matches Err(e) && is_rdma_error(e, modify_prefix(t) + int_decimal(ret as int))),
{
    if ret != 0 {
        let msg = match t {
            Transition::Init => with_number("Failed to modify QP to INIT: ", ret as i64),
            Transition::Rtr => with_number("Failed to modify QP to RTR: ", ret as i64),
            Transition::Rts => with_number("Failed to modify QP to RTS: ", ret as i64),
        };
        return Err(RdmaError::Rdma(msg));
    }
    Ok(())
}

/// What a work request reads of a registered memory region: its start
/// address and local key.
#[derive(Debug, Clone, Copy, PartialEq, Eq)]
pub struct MrRef {
    pub addr: u64,
    pub lkey: u32,
}

/// A scatter/gather element.
#[derive(Debug, Clone, Copy, PartialEq, Eq)]
pub struct Sge {
    pub addr: u64,
    pub length: u32,
    pub lkey: u32,
}

/// A receive work request.
#[derive(Debug)]
pub struct RecvWr {
    pub wr_id: u64,
    pub sg_list: Vec<Sge>,
    pub num_sge: i32,
}

/// A send work request (a send, or an RDMA read or write).
#[derive(Debug)]
pub struct SendWr {
    pub wr_id: u64,
    pub sg_list: Vec<Sge>,
    pub num_sge: i32,
    pub opcode: u32,
    pub send_flags: u32,
    pub remote_addr: u64,
    pub rkey: u32,
}

/// The element that describes `len` bytes at `offset` in a region.
pub open spec fn sge_of(r: (MrRef, u64, u32)) -> Sge {
    Sge { addr: (r.0.addr + r.1) as u64, length: r.2, lkey: r.0.lkey }
}

/// Whether a list of (region, offset, length) requests can be laid out:
/// no address overflows and the count fits the request's `num_sge`.
pub open spec fn requests_fit(reqs: Seq<(MrRef, u64, u32)>) -> bool {
    &&& reqs.len() <= i32::MAX
    &&& forall|i: int| 0 <= i < reqs.len() ==> #[trigger] reqs[i].0.addr + reqs[i].1 <= u64::MAX
}

/// Each element of a laid-out list describes its request: its address is
/// the region's start address plus the offset (a sum, not any other
/// combination of the two), its length and key are the request's.
pub proof fn lemma_sg_layout_adds_offsets(reqs: Seq<(MrRef, u64, u32)>)
    requires
        requests_fit(reqs),
    ensures
        ({
            let laid = reqs.map_values(|r: (MrRef, u64, u32)| sge_of(r));
            &&& laid.len() == reqs.len()
            &&& forall|i: int|
                #![trigger laid[i]]
                0 <= i < reqs.len() ==> laid[i].addr == reqs[i].0.addr + reqs[i].1
                    && laid[i].length == reqs[i].2 && laid[i].lkey == reqs[i].0.lkey
        }),
{
    let laid = reqs.map_values(|r: (MrRef, u64, u32)| sge_of(r));
    assert forall|i: int| 0 <= i < reqs.len() implies laid[i].addr == reqs[i].0.addr + reqs[i].1
        && laid[i].length == reqs[i].2 && laid[i].lkey == reqs[i].0.lkey by {
        assert(reqs[i].0.addr + reqs[i].1 <= u64::MAX);
    }
}

/// The send flags of a request: signalled or none.
pub open spec fn flags_of(signaled: bool) -> u32 {
    if signaled { IBV_SEND_SIGNALED } else { 0 }
}

/// One scatter/gather element per request, in order.
pub fn build_sg_list(reqs: &Vec<(MrRef, u64, u32)>) -> (sges: Vec<Sge>)
    requires
        requests_fit(reqs@),
    ensures
        sges@ == reqs@.map_values(|r: (MrRef, u64, u32)| sge_of(r)),
        sges@.len() == reqs@.len(),
        forall|i: int|
            #![trigger sges@[i]]
            0 <= i < reqs@.len() ==> sges@[i].addr == reqs@[i].0.addr + reqs@[i].1 && sges@[i].length
                == reqs@[i].2 && sges@[i].lkey == reqs@[i].0.lkey,
{
    let mut sges: Vec<Sge> = Vec::new();
    let mut i: usize = 0;
    while i < reqs.len()
        invariant
            i <= reqs.len(),
            requests_fit(reqs@),
            sges@ == reqs@.subrange(0, i as int).map_values(|r: (MrRef, u64, u32)| sge_of(r)),
        decreases reqs.len() - i,
    {
        let (mr, offset, len) = reqs[i];
        assert(reqs@[i as int].0.addr + reqs@[i as int].1 <= u64::MAX);
        sges.push(Sge { addr: mr.addr + offset, length: len, lkey: mr.lkey });
        i = i + 1;
        assert(reqs@.subrange(0, i as int) =~= reqs@.subrange(0, i - 1).push(reqs@[i - 1]));
    }
    assert(reqs@.subrange(0, i as int) =~= reqs@);
    proof {
        lemma_sg_layout_adds_offsets(reqs@);
    }
    sges
}

/// The receive request for `reqs` under `wr_id`.
pub fn recv_request(reqs: &Vec<(MrRef, u64, u32)>, wr_id: u64) -> (wr: RecvWr)
    requires
        requests_fit(reqs@),
    ensures
        wr.wr_id == wr_id,
        wr.sg_list@ == reqs@.map_values(|r: (MrRef, u64, u32)| sge_of(r)),
        wr.sg_list@.len() == reqs@.len(),
        forall|i: int|
            #![trigger wr.sg_list@[i]]
            0 <= i < reqs@.len() ==> wr.sg_list@[i].addr == reqs@[i].0.addr + reqs@[i].1 && wr.sg_list@[i].length
                == reqs@[i].2 && wr.sg_list@[i].lkey == reqs@[i].0.lkey,
        wr.num_sge == reqs@.len(),
{
    let sg_list = build_sg_list(reqs);
    let num_sge: i32 = sg_list.len() as i32;
    RecvWr { wr_id, sg_list, num_sge }
}

/// The send request for `reqs` under `wr_id`, signalled when asked.
pub fn send_request(reqs: &Vec<(MrRef, u64, u32)>, wr_id: u64, signaled: bool) -> (wr: SendWr)
    requires
        requests_fit(reqs@),
    ensures
        wr.wr_id == wr_id,
        wr.sg_list@ == reqs@.map_values(|r: (MrRef, u64, u32)| sge_of(r)),
        wr.sg_list@.len() == reqs@.len(),
        forall|i: int|
            #![trigger wr.sg_list@[i]]
            0 <= i < reqs@.len() ==> wr.sg_list@[i].addr == reqs@[i].0.addr + reqs@[i].1 && wr.sg_list@[i].length
                == reqs@[i].2 && wr.sg_list@[i].lkey == reqs@[i].0.lkey,
        wr.num_sge == reqs@.len(),
        wr.opcode == IBV_WR_SEND,
        wr.send_flags == flags_of(signaled),
        wr.remote_addr == 0,
        wr.rkey == 0,
{
    let sg_list = build_sg_list(reqs);
    let num_sge: i32 = sg_list.len() as i32;
    let send_flags: u32 = if signaled { IBV_SEND_SIGNALED } else { 0 };
    SendWr { wr_id, sg_list, num_sge, opcode: IBV_WR_SEND, send_flags, remote_addr: 0, rkey: 0 }
}

/// The RDMA request with opcode `op` for `reqs` under `wr_id`, against
/// remote memory at `remote_addr` with key `rkey`.
pub fn rdma_request(
    reqs: &Vec<(MrRef, u64, u32)>,
    op: u32,
    wr_id: u64,
    signaled: bool,
    remote_addr: u64,
    rkey: u32,
) -> (wr: SendWr)
    requires
        requests_fit(reqs@),
    ensures
        wr.wr_id == wr_id,
        wr.sg_list@ == reqs@.map_values(|r: (MrRef, u64, u32)| sge_of(r)),
        wr.sg_list@.len() == reqs@.len(),
        forall|i: int|
            #![trigger wr.sg_list@[i]]
            0 <= i < reqs@.len() ==> wr.sg_list@[i].addr == reqs@[i].0.addr + reqs@[i].1 && wr.sg_list@[i].length
                == reqs@[i].2 && wr.sg_list@[i].lkey == reqs@[i].0.lkey,
        wr.num_sge == reqs@.len(),
        wr.opcode == op,
        wr.send_flags == flags_of(signaled),
        wr.remote_addr == remote_addr,
        wr.rkey == rkey,
{
    let sg_list = build_sg_list(reqs);
    let num_sge: i32 = sg_list.len() as i32;
    let send_flags: u32 = if signaled { IBV_SEND_SIGNALED } else { 0 };
    SendWr { wr_id, sg_list, num_sge, opcode: op, send_flags, remote_addr, rkey }
}

/// The kinds of posted requests.
#[derive(Debug, Clone, Copy, PartialEq, Eq)]
pub enum PostKind {
    Recv,
    Send,
    Rdma,
}

/// The text that a failed post's error starts with.
pub open spec fn post_prefix(k: PostKind) -> Seq<char> {
    match k {
        PostKind::Recv => "Failed to post recv : "@,
        PostKind::Send => "Failed to post send: "@,
        PostKind::Rdma => "Failed to post rdma: "@,
    }
}

/// The outcome of posting a request, from the post call's return code.
pub fn post_result(k: PostKind, ret: i32) -> (r: Result<()>)
    ensures
        ret == 0 ==> r is Ok,
        ret != 0 ==> (r matches Err(e) && is_rdma_error(e, post_prefix(k) + int_decimal(ret as int))),
{
    if ret != 0 {
        let msg = match k {
            PostKind::Recv => with_number("Failed to post recv : ", ret as i64),
            PostKind::Send => with_number("Failed to post send: ", ret as i64),
            PostKind::Rdma => with_number("Failed to post rdma: ", ret as i64),
        };
        return Err(RdmaError::Rdma(msg));
    }
    Ok(())
}

} // verus!
