//! The contexts that the driver hands the NIC when it creates a queue: the
//! event, completion, send and receive queue contexts, the transport
//! interface send context and the work queue description. Each is held as
//! the values of its fields (the reserved bytes between them are zero).

use vstd::prelude::*;
use crate::mlx_ethernet::queues::{SendQueueState, ReceiveQueueState};

verus! {

/// Mask of a UAR page number.
pub const UAR_MASK: u32 = 0xFF_FFFF;
/// Mask of a logarithm of a queue size.
pub const LOG_QUEUE_SIZE_MASK: u32 = 0x1F;
/// Mask of a completion queue number.
pub const CQN_MASK: u32 = 0xFF_FFFF;
/// Place of the logarithm of a queue size in its field.
pub const LOG_QUEUE_SIZE_SHIFT: u32 = 24;
/// Place of the logarithm of a page size in its field.
pub const LOG_PAGE_SIZE_SHIFT: u32 = 24;
/// Size in bytes of an event queue entry.
pub const EQE_SIZE: u32 = 64;
/// Size in bytes of a completion queue entry.
pub const CQE_SIZE: u32 = 64;
/// Size in bytes of a send work queue entry.
pub const SEND_WQE_SIZE: u32 = 64;
/// Size in bytes of a receive work queue entry.
pub const RECEIVE_WQE_SIZE: u32 = 16;
/// Mask of the state in a send or receive queue context.
pub const STATE_MASK: u32 = 0xF0_0000;
/// Place of the state in a send or receive queue context.
pub const STATE_SHIFT: u32 = 20;

/// The base 2 logarithm of `x`, rounded down; 0 for 0 and 1.
pub open spec fn floor_log2(x: nat) -> nat
    decreases x,
{
    if x <= 1 {
        0
    } else {
        1 + floor_log2(x / 2)
    }
}

/// Returns the base 2 logarithm of `x`, rounded down (0 for 0).
pub fn log2_u32(x: u32) -> (r: u32)
    ensures
        r == floor_log2(x as nat),
        r <= 31,
{
    let mut v = x;
    let mut r: u32 = 0;
    proof {
        lemma_floor_log2_u32(x as nat);
    }
    while v > 1
        invariant
            floor_log2(x as nat) == r + floor_log2(v as nat),
            r + floor_log2(v as nat) <= 31,
            v <= x,
        decreases v,
    {
        v = v / 2;
        r = r + 1;
    }
    proof {
        lemma_floor_log2_u32(x as nat);
    }
    r
}

/// The logarithm of a value below 2^32 is at most 31.
proof fn lemma_floor_log2_bound(x: nat, k: nat)
    requires
        x < pow2_nat(k),
        k >= 1,
    ensures
        floor_log2(x) <= k - 1,
    decreases x,
{
    if x > 1 {
        assert(x / 2 < pow2_nat((k - 1) as nat));
        if k - 1 >= 1 {
            lemma_floor_log2_bound(x / 2, (k - 1) as nat);
        }
    }
}

/// 2 to the power `k`.
pub open spec fn pow2_nat(k: nat) -> nat
    decreases k,
{
    if k == 0 {
        1
    } else {
        2 * pow2_nat((k - 1) as nat)
    }
}

proof fn lemma_floor_log2_u32(x: nat)
    requires
        x <= u32::MAX,
    ensures
        floor_log2(x) <= 31,
{
    assert(pow2_nat(32) == 0x1_0000_0000) by {
        reveal_with_fuel(pow2_nat, 33);
    }
    lemma_floor_log2_bound(x, 32);
}

/// The logarithm of the number of 4 KiB pages that `num_bytes` span, in
/// whole pages (0 for no bytes).
pub open spec fn log_page_size_spec(num_bytes: u32) -> nat {
    floor_log2(((num_bytes + 4095) / 4096) as nat)
}

/// The page size, in units of 4 KiB pages as a base 2 logarithm, of a buffer
/// of `num_bytes` bytes: the logarithm of the number of pages it spans.
pub fn log_page_size(num_bytes: u32) -> (r: u32)
    ensures
        r == log_page_size_spec(num_bytes),
        r <= 31,
{
    let pages = ((num_bytes as u64 + 4095) / 4096) as u32;
    log2_u32(pages)
}

/// The event queue context (PRM 8.19.2.1), by its fields.
#[derive(Debug, Clone, Copy, PartialEq, Eq, Structural)]
pub struct EventQueueContext {
    pub status: u32,
    pub page_offset: u32,
    pub uar_log_eq_size: u32,
    pub intr: u32,
    pub log_pg_size: u32,
    pub consumer_counter: u32,
    pub producer_counter: u32,
}

/// `log2(size)` in the queue-size field, next to the UAR page.
pub open spec fn uar_and_log_size(uar_page: u32, size: u32) -> u32 {
    (uar_page & UAR_MASK) | (((floor_log2(size as nat) as u32) & LOG_QUEUE_SIZE_MASK) << LOG_QUEUE_SIZE_SHIFT)
}

fn uar_and_log_size_of(uar_page: u32, size: u32) -> (r: u32)
    ensures
        r == uar_and_log_size(uar_page, size),
{
    let l = log2_u32(size);
    (uar_page & UAR_MASK) | ((l & LOG_QUEUE_SIZE_MASK) << LOG_QUEUE_SIZE_SHIFT)
}

/// The context of an event queue of `eq_size` entries reached through the
/// UAR page `uar_page`: the UAR page with the logarithm of the size, and the
/// logarithm of the pages that the entries span.
pub open spec fn event_queue_context(uar_page: u32, eq_size: u32) -> EventQueueContext {
    EventQueueContext {
        status: 0,
        page_offset: 0,
        uar_log_eq_size: uar_and_log_size(uar_page, eq_size),
        intr: 0,
        log_pg_size: ((log_page_size_spec((eq_size * EQE_SIZE) as u32) as u32) << LOG_PAGE_SIZE_SHIFT),
        consumer_counter: 0,
        producer_counter: 0,
    }
}

impl EventQueueContext {
    /// The context of an event queue of `eq_size` entries reached through
    /// the UAR page `uar_page`.
    pub fn init(uar_page: u32, eq_size: u32) -> (r: EventQueueContext)
        requires
            eq_size * EQE_SIZE <= u32::MAX,
        ensures
            r == event_queue_context(uar_page, eq_size),
    {
        let pg = log_page_size(eq_size * EQE_SIZE);
        EventQueueContext {
            status: 0,
            page_offset: 0,
            uar_log_eq_size: uar_and_log_size_of(uar_page, eq_size),
            intr: 0,
            log_pg_size: pg << LOG_PAGE_SIZE_SHIFT,
            consumer_counter: 0,
            producer_counter: 0,
        }
    }

    /// The offset of the context in its mailbox.
    pub fn mailbox_offset() -> (r: usize)
        ensures
            r == 0,
    {
        0
    }
}

/// The completion queue context (PRM 8.18.10), by its fields.
#[derive(Debug, Clone, Copy, PartialEq, Eq, Structural)]
pub struct CompletionQueueContext {
    pub status: u32,
    pub page_offset: u32,
    pub uar_log_cq_size: u32,
    pub cq_max_count_period: u32,
    pub c_eqn: u32,
    pub log_page_size: u32,
    pub last_notified_index: u32,
    pub last_solicit_index: u32,
    pub consumer_counter: u32,
    pub producer_counter: u32,
    pub dbr_addr_h: u32,
    pub dbr_addr_l: u32,
}

/// Collapse all completion entries into the first.
pub const COLLAPSE_CQE: u32 = 0x10_0000;
/// Let entries be overwritten rather than report an overrun.
pub const OVERRUN_IGNORE: u32 = 0x2_0000;

/// The context of a completion queue: overrun ignored (and entries
/// collapsed where asked), the UAR page with the logarithm of the size, the
/// event queue, the logarithm of the pages that the entries span and the
/// doorbell record's address.
pub open spec fn completion_queue_context(
    uar_page: u32,
    cq_size: u32,
    c_eqn: u8,
    db_addr: u64,
    collapsed: bool,
) -> CompletionQueueContext {
    CompletionQueueContext {
        status: if collapsed {
            OVERRUN_IGNORE | COLLAPSE_CQE
        } else {
            OVERRUN_IGNORE
        },
        page_offset: 0,
        uar_log_cq_size: uar_and_log_size(uar_page, cq_size),
        cq_max_count_period: 0,
        c_eqn: c_eqn as u32,
        log_page_size: ((log_page_size_spec((cq_size * CQE_SIZE) as u32) as u32) << LOG_PAGE_SIZE_SHIFT),
        last_notified_index: 0,
        last_solicit_index: 0,
        consumer_counter: 0,
        producer_counter: 0,
        dbr_addr_h: (db_addr >> 32) as u32,
        dbr_addr_l: db_addr as u32,
    }
}

impl CompletionQueueContext {
    /// The context of a completion queue of `cq_size` entries, reached
    /// through the UAR page `uar_page`, reporting to the event queue `c_eqn`,
    /// with its doorbell record at `db_addr`.
    pub fn init(uar_page: u32, cq_size: u32, c_eqn: u8, db_addr: u64, collapsed: bool) -> (r:
        CompletionQueueContext)
        requires
            cq_size * CQE_SIZE <= u32::MAX,
        ensures
            r == completion_queue_context(uar_page, cq_size, c_eqn, db_addr, collapsed),
    {
        let status = if collapsed {
            OVERRUN_IGNORE | COLLAPSE_CQE
        } else {
            OVERRUN_IGNORE
        };
        let pg = log_page_size(cq_size * CQE_SIZE);
        CompletionQueueContext {
            status,
            page_offset: 0,
            uar_log_cq_size: uar_and_log_size_of(uar_page, cq_size),
            cq_max_count_period: 0,
            c_eqn: c_eqn as u32,
            log_page_size: pg << LOG_PAGE_SIZE_SHIFT,
            last_notified_index: 0,
            last_solicit_index: 0,
            consumer_counter: 0,
            producer_counter: 0,
            dbr_addr_h: (db_addr >> 32) as u32,
            dbr_addr_l: db_addr as u32,
        }
    }

    /// The offset of the context in its mailbox.
    pub fn mailbox_offset() -> (r: usize)
        ensures
            r == 0,
    {
        0
    }
}

/// The transport interface send context, by its fields.
#[derive(Debug, Clone, Copy, PartialEq, Eq, Structural)]
pub struct TransportInterfaceSendContext {
    pub prio_or_sl: u32,
    pub transport_domain: u32,
    pub pd: u32,
}

impl TransportInterfaceSendContext {
    /// The context of a TIS of the transport domain `td`.
    pub fn init(td: u32) -> (r: TransportInterfaceSendContext)
        ensures
            r == (TransportInterfaceSendContext { prio_or_sl: 0, transport_domain: td, pd: 0 }),
    {
        TransportInterfaceSendContext { prio_or_sl: 0, transport_domain: td, pd: 0 }
    }

    /// The offset of the context in its mailbox.
    pub fn mailbox_offset() -> (r: usize)
        ensures
            r == 0x10,
    {
        0x10
    }
}

/// `word` with its state bits replaced by `state`.
pub open spec fn with_state(word: u32, state: u8) -> u32 {
    (word & !STATE_MASK) | ((state as u32) << STATE_SHIFT)
}

/// The state bits of `word`.
pub open spec fn state_bits(word: u32) -> u32 {
    (word & STATE_MASK) >> STATE_SHIFT
}

/// The send queue context (PRM 8.15.1), by its fields.
#[derive(Debug, Clone, Copy, PartialEq, Eq, Structural)]
pub struct SendQueueContext {
    pub rlky_state: u32,
    pub user_index: u32,
    pub cqn: u32,
    pub hairpin_peer_rq: u32,
    pub hairpin_peer_vhca: u32,
    pub packet_pacing_rate_limit_index: u32,
    pub tis_lst_sz: u32,
    pub tis_num_0: u32,
}

/// The reserved LKey may be used, fast register WQEs are supported, WQEs are
/// flushed on error and one header is inlined.
pub const SQ_CONTEXT_FLAGS: u32 = 0xB100_0000;

impl SendQueueContext {
    /// All fields zero.
    pub fn zeroed() -> (r: SendQueueContext)
        ensures
            r == (SendQueueContext {
                rlky_state: 0,
                user_index: 0,
                cqn: 0,
                hairpin_peer_rq: 0,
                hairpin_peer_vhca: 0,
                packet_pacing_rate_limit_index: 0,
                tis_lst_sz: 0,
                tis_num_0: 0,
            }),
    {
        SendQueueContext {
            rlky_state: 0,
            user_index: 0,
            cqn: 0,
            hairpin_peer_rq: 0,
            hairpin_peer_vhca: 0,
            packet_pacing_rate_limit_index: 0,
            tis_lst_sz: 0,
            tis_num_0: 0,
        }
    }

    /// The context of a send queue that reports to the completion queue
    /// `cqn` and uses the single TIS `tisn`.
    pub fn init(cqn: u32, tisn: u32) -> (r: SendQueueContext)
        ensures
            r == (SendQueueContext {
                rlky_state: SQ_CONTEXT_FLAGS,
                user_index: 0,
                cqn: cqn & CQN_MASK,
                hairpin_peer_rq: 0,
                hairpin_peer_vhca: 0,
                packet_pacing_rate_limit_index: 0,
                tis_lst_sz: 0x1_0000,
                tis_num_0: tisn & 0xFF_FFFF,
            }),
    {
        SendQueueContext {
            rlky_state: SQ_CONTEXT_FLAGS,
            user_index: 0,
            cqn: cqn & CQN_MASK,
            hairpin_peer_rq: 0,
            hairpin_peer_vhca: 0,
            packet_pacing_rate_limit_index: 0,
            tis_lst_sz: 0x1_0000,
            tis_num_0: tisn & 0xFF_FFFF,
        }
    }

    /// Sets the state of the send queue, leaving the other bits alone.
    pub fn set_state(&mut self, next_state: SendQueueState)
        ensures
            *final(self) == (SendQueueContext {
                rlky_state: with_state(old(self).rlky_state, next_state.code()),
                ..*old(self)
            }),
    {
        let state = self.rlky_state & !STATE_MASK;
        self.rlky_state = state | ((next_state.value() as u32) << STATE_SHIFT);
    }

    /// The state of the send queue, where its bits name one.
    pub fn get_state(&self) -> (r: Result<SendQueueState, &'static str>)
        ensures
            match r {
                Ok(s) => s.code() == state_bits(self.rlky_state),
                Err(e) => e == "Invalid value in the SQ state" && forall|s: SendQueueState|
                    s.code() != state_bits(self.rlky_state),
            },
    {
        let w = self.rlky_state;
        let state = (w & STATE_MASK) >> STATE_SHIFT;
        assert(state <= 0xF) by (bit_vector)
            requires
                state == (w & 0xF0_0000u32) >> 20u32,
        ;
        match SendQueueState::from_value(state as u8) {
            Some(s) => Ok(s),
            None => Err("Invalid value in the SQ state"),
        }
    }

    /// The offset of the context in its mailbox.
    pub fn mailbox_offset() -> (r: usize)
        ensures
            r == 0x10,
    {
        0x10
    }
}

/// The receive queue context (PRM 8.16.1), by its fields.
#[derive(Debug, Clone, Copy, PartialEq, Eq, Structural)]
pub struct ReceiveQueueContext {
    pub rlky_state: u32,
    pub user_index: u32,
    pub cqn: u32,
    pub counter_set_id: u32,
    pub rmpn: u32,
    pub hairpin_peer_sq: u32,
    pub hairpin_peer_vhca: u32,
}

/// The reserved LKey may be used and VLAN headers are not stripped.
pub const RQ_CONTEXT_FLAGS: u32 = 0x9000_0000;

impl ReceiveQueueContext {
    /// All fields zero.
    pub fn zeroed() -> (r: ReceiveQueueContext)
        ensures
            r == (ReceiveQueueContext {
                rlky_state: 0,
                user_index: 0,
                cqn: 0,
                counter_set_id: 0,
                rmpn: 0,
                hairpin_peer_sq: 0,
                hairpin_peer_vhca: 0,
            }),
    {
        ReceiveQueueContext {
            rlky_state: 0,
            user_index: 0,
            cqn: 0,
            counter_set_id: 0,
            rmpn: 0,
            hairpin_peer_sq: 0,
            hairpin_peer_vhca: 0,
        }
    }

    /// The context of a receive queue that reports to the completion queue
    /// `cqn`.
    pub fn init(cqn: u32) -> (r: ReceiveQueueContext)
        ensures
            r == (ReceiveQueueContext {
                rlky_state: RQ_CONTEXT_FLAGS,
                user_index: 0,
                cqn: cqn & CQN_MASK,
                counter_set_id: 0,
                rmpn: 0,
                hairpin_peer_sq: 0,
                hairpin_peer_vhca: 0,
            }),
    {
        ReceiveQueueContext {
            rlky_state: RQ_CONTEXT_FLAGS,
            user_index: 0,
            cqn: cqn & CQN_MASK,
            counter_set_id: 0,
            rmpn: 0,
            hairpin_peer_sq: 0,
            hairpin_peer_vhca: 0,
        }
    }

    /// Sets the state of the receive queue, leaving the other bits alone.
    pub fn set_state(&mut self, next_state: ReceiveQueueState)
        ensures
            *final(self) == (ReceiveQueueContext {
                rlky_state: with_state(old(self).rlky_state, next_state.code()),
                ..*old(self)
            }),
    {
        let state = self.rlky_state & !STATE_MASK;
        self.rlky_state = state | ((next_state.value() as u32) << STATE_SHIFT);
    }

    /// The state of the receive queue, where its bits name one.
    pub fn get_state(&self) -> (r: Result<ReceiveQueueState, &'static str>)
        ensures
            match r {
                Ok(s) => s.code() == state_bits(self.rlky_state),
                Err(e) => e == "Invalid value in the RQ state" && forall|s: ReceiveQueueState|
                    s.code() != state_bits(self.rlky_state),
            },
    {
        let w = self.rlky_state;
        let state = (w & STATE_MASK) >> STATE_SHIFT;
        assert(state <= 0xF) by (bit_vector)
            requires
                state == (w & 0xF0_0000u32) >> 20u32,
        ;
        match ReceiveQueueState::from_value(state as u8) {
            Some(s) => Ok(s),
            None => Err("Invalid value in the RQ state"),
        }
    }

    /// The offset of the context in its mailbox.
    pub fn mailbox_offset() -> (r: usize)
        ensures
            r == 0x10,
    {
        0x10
    }
}

/// The description of a work queue (PRM table 109), by its fields.
#[derive(Debug, Clone, Copy, PartialEq, Eq, Structural)]
pub struct WorkQueue {
    pub wq_type_signature: u32,
    pub page_offset_lwm: u32,
    pub pd: u32,
    pub uar_page: u32,
    pub dbr_addr_h: u32,
    pub dbr_addr_l: u32,
    pub hw_counter: u32,
    pub sw_counter: u32,
    pub log_wq_stride_pg_sz_sz: u32,
    pub single_stride_log_num_of_bytes: u32,
}

/// The work queue type `Cyclic`, in its place.
pub const WQ_TYPE_CYCLIC: u32 = 0x1000_0000;

/// The packed logarithms of a work queue of `wq_size` entries of
/// `wqe_size` bytes: the stride, the page size and the queue size.
pub open spec fn wq_log_sizes(wq_size: u32, wqe_size: u32) -> u32 {
    ((floor_log2(wqe_size as nat) as u32) << 16u32) | ((log_page_size_spec(
        (wq_size * wqe_size) as u32,
    ) as u32) << 8u32) | (floor_log2(wq_size as nat) as u32)
}

impl WorkQueue {
    /// The description of a cyclic work queue of `wq_size` entries of
    /// `wqe_size_in_bytes` bytes in the protection domain `pd`, with its
    /// doorbell record at `db_addr`.
    pub fn init(pd: u32, db_addr: u64, wq_size: u32, wqe_size_in_bytes: u32) -> (r: WorkQueue)
        requires
            wq_size * wqe_size_in_bytes <= u32::MAX,
        ensures
            r == (WorkQueue {
                wq_type_signature: WQ_TYPE_CYCLIC,
                page_offset_lwm: 0,
                pd: pd & 0xFF_FFFF,
                uar_page: 0,
                dbr_addr_h: (db_addr >> 32) as u32,
                dbr_addr_l: db_addr as u32,
                hw_counter: 0,
                sw_counter: 0,
                log_wq_stride_pg_sz_sz: wq_log_sizes(wq_size, wqe_size_in_bytes),
                single_stride_log_num_of_bytes: 0,
            }),
    {
        let log_wq_stride = log2_u32(wqe_size_in_bytes);
        let log_wq_size = log2_u32(wq_size);
        let log_wq_page_size = log_page_size(wq_size * wqe_size_in_bytes);
        WorkQueue {
            wq_type_signature: WQ_TYPE_CYCLIC,
            page_offset_lwm: 0,
            pd: pd & 0xFF_FFFF,
            uar_page: 0,
            dbr_addr_h: (db_addr >> 32) as u32,
            dbr_addr_l: db_addr as u32,
            hw_counter: 0,
            sw_counter: 0,
            log_wq_stride_pg_sz_sz: (log_wq_stride << 16u32) | (log_wq_page_size << 8u32)
                | log_wq_size,
            single_stride_log_num_of_bytes: 0,
        }
    }

    /// The work queue of a send queue, which also names its UAR page.
    pub fn init_sq(pd: u32, uar_page: u32, db_addr: u64, wq_size: u32) -> (r: WorkQueue)
        requires
            wq_size * SEND_WQE_SIZE <= u32::MAX,
        ensures
            r == (WorkQueue {
                uar_page: uar_page & 0xFF_FFFF,
                ..WorkQueue::init_spec(pd, db_addr, wq_size, SEND_WQE_SIZE)
            }),
    {
        let mut wq = Self::init(pd, db_addr, wq_size, SEND_WQE_SIZE);
        wq.uar_page = uar_page & 0xFF_FFFF;
        wq
    }

    /// The work queue of a receive queue.
    pub fn init_rq(pd: u32, db_addr: u64, wq_size: u32) -> (r: WorkQueue)
        requires
            wq_size * RECEIVE_WQE_SIZE <= u32::MAX,
        ensures
            r == WorkQueue::init_spec(pd, db_addr, wq_size, RECEIVE_WQE_SIZE),
    {
        Self::init(pd, db_addr, wq_size, RECEIVE_WQE_SIZE)
    }

    /// What `init` gives.
    pub open spec fn init_spec(pd: u32, db_addr: u64, wq_size: u32, wqe_size: u32) -> WorkQueue {
        WorkQueue {
            wq_type_signature: WQ_TYPE_CYCLIC,
            page_offset_lwm: 0,
            pd: pd & 0xFF_FFFF,
            uar_page: 0,
            dbr_addr_h: (db_addr >> 32) as u32,
            dbr_addr_l: db_addr as u32,
            hw_counter: 0,
            sw_counter: 0,
            log_wq_stride_pg_sz_sz: wq_log_sizes(wq_size, wqe_size),
            single_stride_log_num_of_bytes: 0,
        }
    }

    /// The offset of the description in its mailbox, after the queue context.
    pub fn mailbox_offset() -> (r: usize)
        ensures
            r == 0x40,
    {
        0x40
    }
}


/// The state bits of a word hold what was last written to them, and writing
/// them leaves every other bit of the word alone.
proof fn lemma_state_round_trip(w: u32, code: u8)
    requires
        code <= 0xF,
    ensures
        state_bits(with_state(w, code)) == code as u32,
        with_state(w, code) & !STATE_MASK == w & !STATE_MASK,
{
    let c = code as u32;
    assert(((w & !0xF0_0000u32) | (c << 20u32)) & 0xF0_0000u32 == c << 20u32) by (bit_vector)
        requires
            c <= 0xF,
    ;
    assert(((c << 20u32) >> 20u32) == c) by (bit_vector)
        requires
            c <= 0xF,
    ;
    assert(((w & !0xF0_0000u32) | (c << 20u32)) & !0xF0_0000u32 == w & !0xF0_0000u32) by (bit_vector)
        requires
            c <= 0xF,
    ;
}

/// A send queue context's state reads back as the state last set, setting
/// it changes no other bit of its word, and a new context is in `Reset`.
pub proof fn law_send_queue_state_round_trip(w: u32, s: SendQueueState)
    ensures
        state_bits(with_state(w, s.code())) == s.code() as u32,
        with_state(w, s.code()) & !STATE_MASK == w & !STATE_MASK,
        state_bits(SQ_CONTEXT_FLAGS) == SendQueueState::Reset.code() as u32,
{
    lemma_state_round_trip(w, s.code());
    assert((0xB100_0000u32 & 0xF0_0000u32) >> 20u32 == 0u32) by (bit_vector);
}

/// A receive queue context's state reads back as the state last set,
/// setting it changes no other bit of its word, and a new context is in
/// `Reset`.
pub proof fn law_receive_queue_state_round_trip(w: u32, s: ReceiveQueueState)
    ensures
        state_bits(with_state(w, s.code())) == s.code() as u32,
        with_state(w, s.code()) & !STATE_MASK == w & !STATE_MASK,
        state_bits(RQ_CONTEXT_FLAGS) == ReceiveQueueState::Reset.code() as u32,
{
    lemma_state_round_trip(w, s.code());
    assert((0x9000_0000u32 & 0xF0_0000u32) >> 20u32 == 0u32) by (bit_vector);
}

} // verus!
