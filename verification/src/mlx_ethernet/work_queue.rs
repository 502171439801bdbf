//! Work queue entries (WQEs) that software posts to the send and receive
//! queues, completion queue entries that the device writes back, and the
//! bookkeeping of the send, receive and completion queues: which
//! descriptor is used next, the counter written to the doorbell record and
//! the doorbell register that is rung. Each entry is held as the values of
//! its 32-bit words (stored big-endian on the device).

use vstd::prelude::*;
use crate::mlx_ethernet::command_entry::{high_word, low_word};
use crate::mlx_ethernet::queues::CurrentUARDoorbell;

verus! {

/// The operation a send WQE asks of the device.
#[derive(Debug, Clone, Copy, PartialEq, Eq, Structural)]
pub enum WQEOpcode {
    /// Creates a completion, but does nothing else
    Nop,
    SndInv,
    RDMAWrite,
    RDMAWriteWithImmediate,
    Send,
    SendWithImmediate,
    LargeSendOffload,
    Wait,
    RDMARead,
    AtomicCompareAndSwap,
    AtomicFetchAndAdd,
    AtomicMaskedCompareAndSwap,
    AtomicMaskedFetchAndAdd,
    ReceiveEn,
    SendEn,
    SetPsv,
    Dump,
    Umr,
}

impl WQEOpcode {
    /// The value that encodes this opcode.
    pub open spec fn code(self) -> u8 {
        match self {
            WQEOpcode::Nop => 0x0,
            WQEOpcode::SndInv => 0x1,
            WQEOpcode::RDMAWrite => 0x8,
            WQEOpcode::RDMAWriteWithImmediate => 0x9,
            WQEOpcode::Send => 0xA,
            WQEOpcode::SendWithImmediate => 0xB,
            WQEOpcode::LargeSendOffload => 0xE,
            WQEOpcode::Wait => 0xF,
            WQEOpcode::RDMARead => 0x10,
            WQEOpcode::AtomicCompareAndSwap => 0x11,
            WQEOpcode::AtomicFetchAndAdd => 0x12,
            WQEOpcode::AtomicMaskedCompareAndSwap => 0x14,
            WQEOpcode::AtomicMaskedFetchAndAdd => 0x15,
            WQEOpcode::ReceiveEn => 0x16,
            WQEOpcode::SendEn => 0x17,
            WQEOpcode::SetPsv => 0x20,
            WQEOpcode::Dump => 0x23,
            WQEOpcode::Umr => 0x25,
        }
    }

    /// Returns the value that encodes this opcode.
    pub fn value(&self) -> (r: u8)
        ensures
            r == self.code(),
    {
        match self {
            WQEOpcode::Nop => 0x0,
            WQEOpcode::SndInv => 0x1,
            WQEOpcode::RDMAWrite => 0x8,
            WQEOpcode::RDMAWriteWithImmediate => 0x9,
            WQEOpcode::Send => 0xA,
            WQEOpcode::SendWithImmediate => 0xB,
            WQEOpcode::LargeSendOffload => 0xE,
            WQEOpcode::Wait => 0xF,
            WQEOpcode::RDMARead => 0x10,
            WQEOpcode::AtomicCompareAndSwap => 0x11,
            WQEOpcode::AtomicFetchAndAdd => 0x12,
            WQEOpcode::AtomicMaskedCompareAndSwap => 0x14,
            WQEOpcode::AtomicMaskedFetchAndAdd => 0x15,
            WQEOpcode::ReceiveEn => 0x16,
            WQEOpcode::SendEn => 0x17,
            WQEOpcode::SetPsv => 0x20,
            WQEOpcode::Dump => 0x23,
            WQEOpcode::Umr => 0x25,
        }
    }

    /// Returns the opcode that `v` encodes, if any.
    pub fn from_value(v: u8) -> (r: Option<WQEOpcode>)
        ensures
            r matches Some(op) ==> op.code() == v,
            r is None ==> forall|op: WQEOpcode| op.code() != v,
    {
        let r = if v == 0x0 {
            Some(WQEOpcode::Nop)
        } else if v == 0x1 {
            Some(WQEOpcode::SndInv)
        } else if v == 0x8 {
            Some(WQEOpcode::RDMAWrite)
        } else if v == 0x9 {
            Some(WQEOpcode::RDMAWriteWithImmediate)
        } else if v == 0xA {
            Some(WQEOpcode::Send)
        } else if v == 0xB {
            Some(WQEOpcode::SendWithImmediate)
        } else if v == 0xE {
            Some(WQEOpcode::LargeSendOffload)
        } else if v == 0xF {
            Some(WQEOpcode::Wait)
        } else if v == 0x10 {
            Some(WQEOpcode::RDMARead)
        } else if v == 0x11 {
            Some(WQEOpcode::AtomicCompareAndSwap)
        } else if v == 0x12 {
            Some(WQEOpcode::AtomicFetchAndAdd)
        } else if v == 0x14 {
            Some(WQEOpcode::AtomicMaskedCompareAndSwap)
        } else if v == 0x15 {
            Some(WQEOpcode::AtomicMaskedFetchAndAdd)
        } else if v == 0x16 {
            Some(WQEOpcode::ReceiveEn)
        } else if v == 0x17 {
            Some(WQEOpcode::SendEn)
        } else if v == 0x20 {
            Some(WQEOpcode::SetPsv)
        } else if v == 0x23 {
            Some(WQEOpcode::Dump)
        } else if v == 0x25 {
            Some(WQEOpcode::Umr)
        } else {
            None
        };
        proof {
            if r is None {
                assert forall|op: WQEOpcode| op.code() != v by {
                    match op {
                        WQEOpcode::Nop => {},
                        WQEOpcode::SndInv => {},
                        WQEOpcode::RDMAWrite => {},
                        WQEOpcode::RDMAWriteWithImmediate => {},
                        WQEOpcode::Send => {},
                        WQEOpcode::SendWithImmediate => {},
                        WQEOpcode::LargeSendOffload => {},
                        WQEOpcode::Wait => {},
                        WQEOpcode::RDMARead => {},
                        WQEOpcode::AtomicCompareAndSwap => {},
                        WQEOpcode::AtomicFetchAndAdd => {},
                        WQEOpcode::AtomicMaskedCompareAndSwap => {},
                        WQEOpcode::AtomicMaskedFetchAndAdd => {},
                        WQEOpcode::ReceiveEn => {},
                        WQEOpcode::SendEn => {},
                        WQEOpcode::SetPsv => {},
                        WQEOpcode::Dump => {},
                        WQEOpcode::Umr => {},
                    }
                }
            }
        }
        r
    }
}

/// The size of a send WQE in 16-byte units.
pub const WQE_SIZE_IN_OCTWORDS: u32 = 4;
/// The completion and event mode "generate a CQE on every WQE completion".
pub const CQE_ALWAYS: u32 = 2;
/// The number of packet header bytes inlined in the eth segment.
pub const INLINE_HEADER_SIZE: u32 = 16;

/// The control segment of a send WQE.
#[derive(Debug, Clone, Copy, PartialEq, Eq, Structural)]
pub struct ControlSegment {
    /// opcode modifier [31:24], WQE index [23:8], opcode [7:0]
    pub opcode: u32,
    /// SQ number [31:8], WQE size in octowords [5:0]
    pub ds: u32,
    /// completion and event mode [3:2], solicited event [1]
    pub ce_se: u32,
    pub ctrl_general_id: u32,
}

/// The control segment that asks for `op` in WQE `wqe_index` of SQ `sqn`,
/// with a completion for every WQE; the general identifier is kept.
pub open spec fn control_for(c: ControlSegment, op: WQEOpcode, wqe_index: u32, sqn: u32) -> ControlSegment {
    ControlSegment {
        opcode: (wqe_index << 8u32) | (op.code() as u32),
        ds: (sqn << 8u32) | WQE_SIZE_IN_OCTWORDS,
        ce_se: CQE_ALWAYS << 2u32,
        ..c
    }
}

impl ControlSegment {
    fn init(&mut self, op: WQEOpcode, wqe_index: u32, sqn: u32)
        ensures
            *final(self) == control_for(*old(self), op, wqe_index, sqn),
    {
        self.opcode = (wqe_index << 8u32) | (op.value() as u32);
        self.ds = (sqn << 8u32) | WQE_SIZE_IN_OCTWORDS;
        self.ce_se = CQE_ALWAYS << 2u32;
    }
}

/// The eth segment of a send WQE: the first 16 bytes of the packet inlined.
#[derive(Debug, Clone, Copy, PartialEq, Eq, Structural)]
pub struct EthSegment {
    pub mss: u32,
    pub flow_table_metadata: u32,
    /// inline header size [25:16], packet bytes 0 and 1 [15:0]
    pub inline_headers_0: u32,
    pub inline_headers_1: u32,
    pub inline_headers_2: u32,
    pub inline_headers_3: u32,
    /// packet bytes 14 and 15 [31:16]
    pub inline_headers_4: u32,
}

/// Packet bytes `i` to `i + 3` as a big-endian word.
pub open spec fn packet_word(p: Seq<u8>, i: int) -> u32 {
    ((p[i] as u32) << 24u32) | ((p[i + 1] as u32) << 16u32) | ((p[i + 2] as u32) << 8u32) | (p[i + 3] as u32)
}

/// The eth segment that inlines the first 16 bytes of packet `p`.
pub open spec fn eth_for(e: EthSegment, p: Seq<u8>) -> EthSegment {
    EthSegment {
        inline_headers_0: (INLINE_HEADER_SIZE << 16u32) | ((p[0] as u32) << 8u32) | (p[1] as u32),
        inline_headers_1: packet_word(p, 2),
        inline_headers_2: packet_word(p, 6),
        inline_headers_3: packet_word(p, 10),
        inline_headers_4: ((p[14] as u32) << 24u32) | ((p[15] as u32) << 16u32),
        ..e
    }
}

impl EthSegment {
    fn init(&mut self, packet: &[u8])
        requires
            packet@.len() >= 16,
        ensures
            *final(self) == eth_for(*old(self), packet@),
    {
        self.inline_headers_0 = (INLINE_HEADER_SIZE << 16u32) | ((packet[0] as u32) << 8u32) | (packet[1] as u32);
        self.inline_headers_1 = ((packet[2] as u32) << 24u32) | ((packet[3] as u32) << 16u32) | ((packet[4] as u32)
            << 8u32) | (packet[5] as u32);
        self.inline_headers_2 = ((packet[6] as u32) << 24u32) | ((packet[7] as u32) << 16u32) | ((packet[8] as u32)
            << 8u32) | (packet[9] as u32);
        self.inline_headers_3 = ((packet[10] as u32) << 24u32) | ((packet[11] as u32) << 16u32) | ((packet[12] as u32)
            << 8u32) | (packet[13] as u32);
        self.inline_headers_4 = ((packet[14] as u32) << 24u32) | ((packet[15] as u32) << 16u32);
    }
}

/// The data segment of a WQE: the length, key and address of a packet buffer.
#[derive(Debug, Clone, Copy, PartialEq, Eq, Structural)]
pub struct MemoryPointerDataSegment {
    pub byte_count: u32,
    pub l_key: u32,
    pub local_address_h: u32,
    pub local_address_l: u32,
}

/// The data segment for a buffer of `len` bytes at `addr`, under key `lkey`.
pub open spec fn data_for(lkey: u32, addr: u64, len: u32) -> MemoryPointerDataSegment {
    MemoryPointerDataSegment {
        byte_count: len,
        l_key: lkey,
        local_address_h: high_word(addr),
        local_address_l: low_word(addr),
    }
}

impl MemoryPointerDataSegment {
    fn init(lkey: u32, addr: u64, len: u32) -> (r: MemoryPointerDataSegment)
        ensures
            r == data_for(lkey, addr, len),
    {
        MemoryPointerDataSegment {
            byte_count: len,
            l_key: lkey,
            local_address_h: (addr >> 32) as u32,
            local_address_l: (addr & 0xFFFF_FFFF) as u32,
        }
    }
}

/// A data segment in its initial state: every field zero.
pub open spec fn zero_data() -> MemoryPointerDataSegment {
    MemoryPointerDataSegment { byte_count: 0, l_key: 0, local_address_h: 0, local_address_l: 0 }
}

/// A send WQE: control, eth and data segments (64 bytes).
#[derive(Debug, Clone, Copy, PartialEq, Eq, Structural)]
pub struct WorkQueueEntrySend {
    pub control: ControlSegment,
    pub eth: EthSegment,
    pub data: MemoryPointerDataSegment,
}

/// The send WQE in its initial state: every field zero.
pub open spec fn zero_send_wqe() -> WorkQueueEntrySend {
    WorkQueueEntrySend {
        control: ControlSegment { opcode: 0, ds: 0, ce_se: 0, ctrl_general_id: 0 },
        eth: EthSegment {
            mss: 0,
            flow_table_metadata: 0,
            inline_headers_0: 0,
            inline_headers_1: 0,
            inline_headers_2: 0,
            inline_headers_3: 0,
            inline_headers_4: 0,
        },
        data: MemoryPointerDataSegment { byte_count: 0, l_key: 0, local_address_h: 0, local_address_l: 0 },
    }
}

/// The WQE `w` filled to send packet `p` from `addr`: WQE `wqe_index` of SQ `sqn`.
pub open spec fn send_wqe(w: WorkQueueEntrySend, wqe_index: u32, sqn: u32, lkey: u32, addr: u64, p: Seq<u8>) -> WorkQueueEntrySend {
    WorkQueueEntrySend {
        control: control_for(w.control, WQEOpcode::Send, wqe_index, sqn),
        eth: eth_for(w.eth, p),
        data: data_for(lkey, addr, p.len() as u32),
    }
}

/// The WQE `w` filled to perform a NOP: only its control segment changes.
pub open spec fn nop_wqe(w: WorkQueueEntrySend, wqe_index: u32, sqn: u32) -> WorkQueueEntrySend {
    WorkQueueEntrySend { control: control_for(w.control, WQEOpcode::Nop, wqe_index, sqn), ..w }
}

impl WorkQueueEntrySend {
    /// A WQE in its initial state.
    pub fn zeroed() -> (r: WorkQueueEntrySend)
        ensures
            r == zero_send_wqe(),
    {
        WorkQueueEntrySend {
            control: ControlSegment { opcode: 0, ds: 0, ce_se: 0, ctrl_general_id: 0 },
            eth: EthSegment {
                mss: 0,
                flow_table_metadata: 0,
                inline_headers_0: 0,
                inline_headers_1: 0,
                inline_headers_2: 0,
                inline_headers_3: 0,
                inline_headers_4: 0,
            },
            data: MemoryPointerDataSegment { byte_count: 0, l_key: 0, local_address_h: 0, local_address_l: 0 },
        }
    }

    /// Fills the control, eth and data segments to send `packet`, whose
    /// buffer is at `local_address`.
    pub fn send(&mut self, wqe_index: u32, sqn: u32, lkey: u32, local_address: u64, packet: &[u8])
        requires
            packet@.len() >= 16,
        ensures
            *final(self) == send_wqe(*old(self), wqe_index, sqn, lkey, local_address, packet@),
    {
        self.control.init(WQEOpcode::Send, wqe_index, sqn);
        self.eth.init(packet);
        self.data = MemoryPointerDataSegment::init(lkey, local_address, packet.len() as u32);
    }

    /// Fills the control segment to perform a NOP.
    pub fn nop(&mut self, wqe_index: u32, sqn: u32)
        ensures
            *final(self) == nop_wqe(*old(self), wqe_index, sqn),
    {
        self.control.init(WQEOpcode::Nop, wqe_index, sqn);
    }
}

/// A receive WQE: the data segment of one packet buffer (16 bytes).
#[derive(Debug, Clone, Copy, PartialEq, Eq, Structural)]
pub struct WorkQueueEntryReceive {
    pub data: MemoryPointerDataSegment,
}

impl WorkQueueEntryReceive {
    /// A receive WQE in its initial state: every field zero.
    pub fn zeroed() -> (r: WorkQueueEntryReceive)
        ensures
            r.data == zero_data(),
    {
        WorkQueueEntryReceive {
            data: MemoryPointerDataSegment { byte_count: 0, l_key: 0, local_address_h: 0, local_address_l: 0 },
        }
    }

    /// Points the WQE at a packet buffer of `packet_len` bytes at `local_address`.
    pub fn update_buffer_info(&mut self, lkey: u32, local_address: u64, packet_len: u32)
        ensures
            final(self).data == data_for(lkey, local_address, packet_len),
    {
        self.data = MemoryPointerDataSegment::init(lkey, local_address, packet_len);
    }
}

/// The doorbell record of an SQ/RQ pair: how many WQEs were posted.
#[derive(Debug, Clone, Copy, PartialEq, Eq, Structural)]
pub struct DoorbellRecord {
    pub rcv_counter: u32,
    pub send_counter: u32,
}

/// The first two words written to a doorbell register: the first two
/// words of the WQE's control segment (the other words written are zero).
#[derive(Debug, Clone, Copy, PartialEq, Eq, Structural)]
pub struct DoorbellWords {
    pub opcode: u32,
    pub ds: u32,
}

/// What was last written to each of the two doorbell registers (blue flame
/// buffer 0) of a UAR page.
#[derive(Debug, Clone, Copy, PartialEq, Eq, Structural)]
pub struct UarDoorbells {
    pub even: DoorbellWords,
    pub odd: DoorbellWords,
}

/// The ring of send WQEs of an SQ and what software posts with them.
pub struct SendQueue {
    entries: Vec<WorkQueueEntrySend>,
    doorbell: DoorbellRecord,
    uar: UarDoorbells,
    wqe_counter: u16,
    sqn: u32,
    lkey: u32,
    uar_db: CurrentUARDoorbell,
}

/// `SendQueue` as a specification value.
pub struct SendQueueView {
    pub entries: Seq<WorkQueueEntrySend>,
    pub doorbell: DoorbellRecord,
    pub uar: UarDoorbells,
    pub wqe_counter: u16,
    pub sqn: u32,
    pub lkey: u32,
    pub uar_db: CurrentUARDoorbell,
}

impl View for SendQueue {
    type V = SendQueueView;

    closed spec fn view(&self) -> SendQueueView {
        SendQueueView {
            entries: self.entries@,
            doorbell: self.doorbell,
            uar: self.uar,
            wqe_counter: self.wqe_counter,
            sqn: self.sqn,
            lkey: self.lkey,
            uar_db: self.uar_db,
        }
    }
}

/// The descriptor that the next WQE is written to.
pub open spec fn desc_of(q: SendQueueView) -> int {
    q.wqe_counter as int % q.entries.len() as int
}

/// Posting the WQE just written at `desc`: the counter advances (wrapping
/// at 16 bits) and is written to the doorbell record, the WQE's first two
/// words are written to the current doorbell register, and the other
/// register is used next.
pub open spec fn posted(q: SendQueueView, desc: int) -> SendQueueView {
    let counter = q.wqe_counter.wrapping_add(1);
    let w = DoorbellWords { opcode: q.entries[desc].control.opcode, ds: q.entries[desc].control.ds };
    SendQueueView {
        wqe_counter: counter,
        doorbell: DoorbellRecord { send_counter: counter as u32, ..q.doorbell },
        uar: match q.uar_db {
            CurrentUARDoorbell::Even => UarDoorbells { even: w, ..q.uar },
            CurrentUARDoorbell::Odd => UarDoorbells { odd: w, ..q.uar },
        },
        uar_db: q.uar_db.other(),
        ..q
    }
}

/// The queue after sending packet `p` from `addr`.
pub open spec fn send_spec(q: SendQueueView, addr: u64, p: Seq<u8>) -> SendQueueView {
    let d = desc_of(q);
    let filled = SendQueueView {
        entries: q.entries.update(d, send_wqe(q.entries[d], q.wqe_counter as u32, q.sqn, q.lkey, addr, p)),
        ..q
    };
    posted(filled, d)
}

/// The queue after posting a NOP.
pub open spec fn nop_spec(q: SendQueueView) -> SendQueueView {
    let d = desc_of(q);
    let filled = SendQueueView {
        entries: q.entries.update(d, nop_wqe(q.entries[d], q.wqe_counter as u32, q.sqn)),
        ..q
    };
    posted(filled, d)
}

impl SendQueue {
    /// An SQ of `num_entries` WQEs in their initial state, with a zeroed
    /// doorbell record and UAR, whose first packet goes through the even
    /// doorbell register.
    pub fn create(num_entries: usize, sqn: u32, lkey: u32) -> (r: SendQueue)
        ensures
            r@ == (SendQueueView {
                entries: Seq::new(num_entries as nat, |i: int| zero_send_wqe()),
                doorbell: DoorbellRecord { rcv_counter: 0, send_counter: 0 },
                uar: UarDoorbells { even: DoorbellWords { opcode: 0, ds: 0 }, odd: DoorbellWords { opcode: 0, ds: 0 } },
                wqe_counter: 0,
                sqn,
                lkey,
                uar_db: CurrentUARDoorbell::Even,
            }),
    {
        let mut entries: Vec<WorkQueueEntrySend> = Vec::new();
        let mut i: usize = 0;
        while i < num_entries
            invariant
                i <= num_entries,
                entries@ == Seq::new(i as nat, |k: int| zero_send_wqe()),
            decreases num_entries - i,
        {
            entries.push(WorkQueueEntrySend::zeroed());
            i = i + 1;
            assert(entries@ =~= Seq::new(i as nat, |k: int| zero_send_wqe()));
        }
        SendQueue {
            entries,
            doorbell: DoorbellRecord { rcv_counter: 0, send_counter: 0 },
            uar: UarDoorbells { even: DoorbellWords { opcode: 0, ds: 0 }, odd: DoorbellWords { opcode: 0, ds: 0 } },
            wqe_counter: 0,
            sqn,
            lkey,
            uar_db: CurrentUARDoorbell::Even,
        }
    }

    fn desc_id(&self) -> (r: usize)
        requires
            self.entries@.len() > 0,
        ensures
            r == desc_of(self@),
            r < self.entries@.len(),
    {
        (self.wqe_counter as usize) % self.entries.len()
    }

    fn finish_wqe_operation(&mut self, desc: usize)
        requires
            desc < old(self).entries@.len(),
        ensures
            final(self)@ == posted(old(self)@, desc as int),
    {
        self.wqe_counter = self.wqe_counter.wrapping_add(1);
        self.doorbell.send_counter = self.wqe_counter as u32;
        let w = DoorbellWords { opcode: self.entries[desc].control.opcode, ds: self.entries[desc].control.ds };
        match self.uar_db {
            CurrentUARDoorbell::Even => {
                self.uar.even = w;
            },
            CurrentUARDoorbell::Odd => {
                self.uar.odd = w;
            },
        }
        self.uar_db = self.uar_db.alternate();
    }

    /// Sends `packet`, whose buffer is at `packet_address`: fills the next
    /// WQE, updates the doorbell record and rings the doorbell register.
    /// Returns the new value of the WQE counter.
    pub fn send(&mut self, packet_address: u64, packet: &[u8]) -> (r: u16)
        requires
            old(self)@.entries.len() > 0,
            packet@.len() >= 16,
        ensures
            final(self)@ == send_spec(old(self)@, packet_address, packet@),
            r == final(self)@.wqe_counter,
    {
        let desc = self.desc_id();
        let mut wqe = self.entries[desc];
        wqe.send(self.wqe_counter as u32, self.sqn, self.lkey, packet_address, packet);
        self.entries.set(desc, wqe);
        self.finish_wqe_operation(desc);
        self.wqe_counter
    }

    /// Posts a NOP, which only produces a completion. Returns the new value
    /// of the WQE counter.
    pub fn nop(&mut self) -> (r: u16)
        requires
            old(self)@.entries.len() > 0,
        ensures
            final(self)@ == nop_spec(old(self)@),
            r == final(self)@.wqe_counter,
    {
        let desc = self.desc_id();
        let mut wqe = self.entries[desc];
        wqe.nop(self.wqe_counter as u32, self.sqn);
        self.entries.set(desc, wqe);
        self.finish_wqe_operation(desc);
        self.wqe_counter
    }

    /// The WQE at `i`.
    pub fn entry(&self, i: usize) -> (r: WorkQueueEntrySend)
        requires
            i < self@.entries.len(),
        ensures
            r == self@.entries[i as int],
    {
        self.entries[i]
    }

    /// The doorbell record.
    pub fn doorbell_record(&self) -> (r: DoorbellRecord)
        ensures
            r == self@.doorbell,
    {
        self.doorbell
    }

    /// What was last written to the two doorbell registers.
    pub fn uar_doorbells(&self) -> (r: UarDoorbells)
        ensures
            r == self@.uar,
    {
        self.uar
    }
}

/// Each send takes the next descriptor of the ring in turn, the counter
/// written to the doorbell record is the number of WQEs posted (modulo
/// 2^16), and packets go through the two doorbell registers alternately.
pub proof fn law_send_takes_next_descriptor(q: SendQueueView, addr: u64, p: Seq<u8>)
    requires
        q.entries.len() > 0,
    ensures
        ({
            let r = send_spec(q, addr, p);
            let d = q.wqe_counter as int % q.entries.len() as int;
            &&& 0 <= d < q.entries.len()
            &&& r.entries.len() == q.entries.len()
            &&& forall|i: int| 0 <= i < q.entries.len() && i != d ==> r.entries[i] == q.entries[i]
            &&& r.entries[d].data.byte_count == p.len() as u32
            &&& r.wqe_counter as int == (q.wqe_counter as int + 1) % 0x10000
            &&& r.doorbell.send_counter == r.wqe_counter as u32
            &&& r.uar_db == q.uar_db.other()
            &&& send_spec(r, addr, p).uar_db == q.uar_db
        }),
{
}

/// The opcode of a completion queue entry.
#[derive(Debug, Clone, Copy, PartialEq, Eq, Structural)]
pub enum CQEOpcode {
    Requester,
    ResponderRDMAWriteWithImmediate,
    ResponderSend,
    ResponderSendWithImmediate,
    ResponderSendWithInvalidate,
    ResizeCq,
    SignatureError,
    RequesterError,
    ResponderError,
    InvalidCQE,
    Unknown,
}

/// The opcode that the 4-bit value `v` encodes: `Unknown` for values that
/// encode none.
pub open spec fn cqe_opcode_of(v: u32) -> CQEOpcode {
    if v == 0x0 {
        CQEOpcode::Requester
    } else if v == 0x1 {
        CQEOpcode::ResponderRDMAWriteWithImmediate
    } else if v == 0x2 {
        CQEOpcode::ResponderSend
    } else if v == 0x3 {
        CQEOpcode::ResponderSendWithImmediate
    } else if v == 0x4 {
        CQEOpcode::ResponderSendWithInvalidate
    } else if v == 0x5 {
        CQEOpcode::ResizeCq
    } else if v == 0xC {
        CQEOpcode::SignatureError
    } else if v == 0xD {
        CQEOpcode::RequesterError
    } else if v == 0xE {
        CQEOpcode::ResponderError
    } else if v == 0xF {
        CQEOpcode::InvalidCQE
    } else {
        CQEOpcode::Unknown
    }
}

/// The value of the owner word of a CQE before the device writes it: the
/// opcode "invalid CQE" and hardware ownership.
pub const CQE_INIT_OWNER: u32 = 0xF1;

/// A completion queue entry as written by the device (64 bytes).
#[derive(Debug, Clone, Copy, PartialEq, Eq, Structural)]
pub struct CompletionQueueEntry {
    pub eth_wqe_id: u32,
    pub lro_tcp_win: u32,
    pub lro_ack_seq_num: u32,
    pub rx_hash_result: u32,
    pub ml_path: u32,
    pub slid_smac: u32,
    pub rqpn: u32,
    pub vid: u32,
    pub srqn_user_index: u32,
    pub flow_table_metadata: u32,
    /// Byte count of data transferred: the length of a received packet
    pub byte_count: u32,
    pub timestamp_h: u32,
    pub timestamp_l: u32,
    /// send WQE opcode or dropped packet count [31:24]
    pub flow_tag: u32,
    /// WQE counter [31:16], signature [15:8], opcode [7:4], format [3:2],
    /// solicited event [1], owner [0]
    pub owner: u32,
}

impl CompletionQueueEntry {
    /// A CQE in its initial state: zero but for the owner word, which holds
    /// the opcode "invalid CQE" and hardware ownership.
    pub fn init() -> (r: CompletionQueueEntry)
        ensures
            r.owner == CQE_INIT_OWNER,
            r.byte_count == 0 && r.flow_tag == 0 && r.eth_wqe_id == 0,
            cqe_opcode_of((r.owner >> 4u32) & 0xF) == CQEOpcode::InvalidCQE,
            r.owner & 1 == 1,
    {
        let r = CompletionQueueEntry {
            eth_wqe_id: 0,
            lro_tcp_win: 0,
            lro_ack_seq_num: 0,
            rx_hash_result: 0,
            ml_path: 0,
            slid_smac: 0,
            rqpn: 0,
            vid: 0,
            srqn_user_index: 0,
            flow_table_metadata: 0,
            byte_count: 0,
            timestamp_h: 0,
            timestamp_l: 0,
            flow_tag: 0,
            owner: CQE_INIT_OWNER,
        };
        assert(((0xF1u32 >> 4u32) & 0xFu32) == 0xFu32 && 0xF1u32 & 1u32 == 1u32) by (bit_vector);
        r
    }

    /// Returns the opcode of the send WQE that completed, or an error where
    /// the field encodes none.
    pub fn get_send_wqe_opcode(&self) -> (r: Result<WQEOpcode, &'static str>)
        ensures
            match r {
                Ok(op) => op.code() == (self.flow_tag >> 24u32) as u8,
                Err(e) => e == "Invalid WQE opcode in the CQE" && forall|op: WQEOpcode|
                    op.code() != (self.flow_tag >> 24u32) as u8,
            },
    {
        match WQEOpcode::from_value((self.flow_tag >> 24u32) as u8) {
            Some(op) => Ok(op),
            None => Err("Invalid WQE opcode in the CQE"),
        }
    }

    /// Returns the counter of the WQE that completed.
    pub fn get_wqe_counter(&self) -> (r: u16)
        ensures
            r == (self.owner >> 16u32) as u16,
    {
        (self.owner >> 16u32) as u16
    }

    /// Returns whether the ownership bit is set.
    pub fn get_owner(&self) -> (r: bool)
        ensures
            r == (self.owner & 1 == 1),
    {
        self.owner & 1 == 1
    }

    /// Returns the opcode of the entry, `Unknown` where the field encodes none.
    pub fn get_opcode(&self) -> (r: CQEOpcode)
        ensures
            r == cqe_opcode_of((self.owner >> 4u32) & 0xF),
    {
        let v = (self.owner >> 4u32) & 0xF;
        if v == 0x0 {
            CQEOpcode::Requester
        } else if v == 0x1 {
            CQEOpcode::ResponderRDMAWriteWithImmediate
        } else if v == 0x2 {
            CQEOpcode::ResponderSend
        } else if v == 0x3 {
            CQEOpcode::ResponderSendWithImmediate
        } else if v == 0x4 {
            CQEOpcode::ResponderSendWithInvalidate
        } else if v == 0x5 {
            CQEOpcode::ResizeCq
        } else if v == 0xC {
            CQEOpcode::SignatureError
        } else if v == 0xD {
            CQEOpcode::RequesterError
        } else if v == 0xE {
            CQEOpcode::ResponderError
        } else if v == 0xF {
            CQEOpcode::InvalidCQE
        } else {
            CQEOpcode::Unknown
        }
    }

    /// Returns the length of the received packet.
    pub fn get_pkt_len(&self) -> (r: u32)
        ensures
            r == self.byte_count,
    {
        self.byte_count
    }
}

/// Whether the CQE reports the completion of the WQE with counter `wqe_counter`.
pub fn packet_transmitted(entry: &CompletionQueueEntry, wqe_counter: u16) -> (r: bool)
    ensures
        r == (wqe_counter == (entry.owner >> 16u32) as u16),
{
    wqe_counter == entry.get_wqe_counter()
}

/// The ring of receive WQEs of an RQ and the buffers they point at.
pub struct ReceiveQueue {
    entries: Vec<WorkQueueEntryReceive>,
    packet_buffers: Vec<u64>,
    buffer_size_bytes: u32,
    lkey: u32,
}

impl ReceiveQueue {
    /// An RQ of `num_entries` WQEs in their initial state, whose buffers
    /// are `mtu` bytes long.
    pub fn create(num_entries: usize, mtu: u32, lkey: u32) -> (r: ReceiveQueue)
        ensures
            r.num_entries() == num_entries,
            r.buffers().len() == 0,
            forall|i: int| 0 <= i < num_entries ==> (#[trigger] r.entries()[i]).data == zero_data(),
            r.buffer_size() == mtu,
            r.key() == lkey,
    {
        let mut entries: Vec<WorkQueueEntryReceive> = Vec::new();
        let mut i: usize = 0;
        while i < num_entries
            invariant
                i <= num_entries,
                entries@.len() == i,
                forall|k: int| 0 <= k < i ==> (#[trigger] entries@[k]).data == zero_data(),
            decreases num_entries - i,
        {
            entries.push(WorkQueueEntryReceive::zeroed());
            i = i + 1;
        }
        ReceiveQueue { entries, packet_buffers: Vec::new(), buffer_size_bytes: mtu, lkey }
    }

    /// The WQEs of the ring.
    pub closed spec fn entries(&self) -> Seq<WorkQueueEntryReceive> {
        self.entries@
    }

    /// The buffers in use, one per WQE once refilled.
    pub closed spec fn buffers(&self) -> Seq<u64> {
        self.packet_buffers@
    }

    /// The size of the receive buffers.
    pub closed spec fn buffer_size(&self) -> u32 {
        self.buffer_size_bytes
    }

    /// The key of the buffers.
    pub closed spec fn key(&self) -> u32 {
        self.lkey
    }

    /// The number of WQEs of the ring.
    pub closed spec fn num_entries(&self) -> nat {
        self.entries@.len()
    }

    /// Points each WQE, in order, at one of the buffers `buffer_addrs`
    /// (taken from the pool or newly mapped by the caller), and keeps them
    /// as the buffers in use.
    pub fn refill(&mut self, buffer_addrs: Vec<u64>)
        requires
            buffer_addrs@.len() == old(self).num_entries(),
        ensures
            final(self).num_entries() == old(self).num_entries(),
            final(self).buffers() == buffer_addrs@,
            final(self).buffer_size() == old(self).buffer_size(),
            final(self).key() == old(self).key(),
            forall|i: int|
                0 <= i < old(self).num_entries() ==> (#[trigger] final(self).entries()[i]).data == data_for(
                    old(self).key(),
                    buffer_addrs@[i],
                    old(self).buffer_size(),
                ),
    {
        let n = self.entries.len();
        let mut i: usize = 0;
        while i < n
            invariant
                n == self.entries@.len(),
                n == buffer_addrs@.len(),
                i <= n,
                self.lkey == old(self).lkey,
                self.buffer_size_bytes == old(self).buffer_size_bytes,
                forall|k: int|
                    0 <= k < i ==> (#[trigger] self.entries@[k]).data == data_for(
                        self.lkey,
                        buffer_addrs@[k],
                        self.buffer_size_bytes,
                    ),
            decreases n - i,
        {
            let mut wqe = self.entries[i];
            wqe.update_buffer_info(self.lkey, buffer_addrs[i], self.buffer_size_bytes);
            self.entries.set(i, wqe);
            i = i + 1;
        }
        self.packet_buffers = buffer_addrs;
    }

    /// The WQE at `i`.
    pub fn entry(&self, i: usize) -> (r: WorkQueueEntryReceive)
        requires
            i < self.num_entries(),
        ensures
            r == self.entries()[i as int],
    {
        self.entries[i]
    }

    /// The number of WQEs of the ring.
    pub fn len(&self) -> (r: usize)
        ensures
            r == self.num_entries(),
    {
        self.entries.len()
    }
}

/// The CQEs of a completion queue and its doorbell record.
pub struct CompletionQueue {
    entries: Vec<CompletionQueueEntry>,
    update_ci: u32,
    arm_ci: u32,
    cqn: u32,
}

impl CompletionQueue {
    /// A CQ of `num_entries` CQEs in their initial state, with a zeroed
    /// doorbell record.
    pub fn init(num_entries: usize, cqn: u32) -> (r: CompletionQueue)
        ensures
            r.cqes().len() == num_entries,
            forall|i: int| 0 <= i < num_entries ==> (#[trigger] r.cqes()[i]).owner == CQE_INIT_OWNER,
            r.consumer_counters() == (0u32, 0u32),
            r.number() == cqn,
    {
        let mut entries: Vec<CompletionQueueEntry> = Vec::new();
        let mut i: usize = 0;
        while i < num_entries
            invariant
                i <= num_entries,
                entries@.len() == i,
                forall|k: int| 0 <= k < i ==> (#[trigger] entries@[k]).owner == CQE_INIT_OWNER,
            decreases num_entries - i,
        {
            entries.push(CompletionQueueEntry::init());
            i = i + 1;
        }
        CompletionQueue { entries, update_ci: 0, arm_ci: 0, cqn }
    }

    /// The CQEs.
    pub closed spec fn cqes(&self) -> Seq<CompletionQueueEntry> {
        self.entries@
    }

    /// The consumer counters of the doorbell record: the last polled CQE and the arming one.
    pub closed spec fn consumer_counters(&self) -> (u32, u32) {
        (self.update_ci, self.arm_ci)
    }

    /// The CQ number.
    pub closed spec fn number(&self) -> u32 {
        self.cqn
    }

    /// Whether CQE `entry_num` reports the completion of the WQE with
    /// counter `wqe_counter`.
    pub fn check_packet_transmission(&self, entry_num: usize, wqe_counter: u16) -> (r: bool)
        requires
            entry_num < self.cqes().len(),
        ensures
            r == (wqe_counter == (self.cqes()[entry_num as int].owner >> 16u32) as u16),
    {
        packet_transmitted(&self.entries[entry_num], wqe_counter)
    }

    /// Records the CQE that the device wrote at `entry_num`.
    pub fn set_entry(&mut self, entry_num: usize, cqe: CompletionQueueEntry)
        requires
            entry_num < old(self).cqes().len(),
        ensures
            final(self).cqes() == old(self).cqes().update(entry_num as int, cqe),
            final(self).consumer_counters() == old(self).consumer_counters(),
            final(self).number() == old(self).number(),
    {
        self.entries.set(entry_num, cqe);
    }
}

/// The owner word of an event queue entry before the device writes it:
/// hardware ownership.
pub const EQE_INIT_OWNER: u32 = 1;

/// An event queue entry (64 bytes): the event type, its data and the
/// signature and owner word.
#[derive(Debug, Clone, Copy, PartialEq, Eq, Structural)]
pub struct EventQueueEntry {
    pub event_type: u32,
    pub signature_owner: u32,
}

impl EventQueueEntry {
    /// An EQE in its initial state: zero, and owned by the hardware.
    pub fn init() -> (r: EventQueueEntry)
        ensures
            r == (EventQueueEntry { event_type: 0, signature_owner: EQE_INIT_OWNER }),
    {
        EventQueueEntry { event_type: 0, signature_owner: EQE_INIT_OWNER }
    }
}

} // verus!
