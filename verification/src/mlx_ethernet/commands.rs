//! Building, tracking and reading the commands that the driver passes to the
//! device through the command queue: the parameters of a command, the
//! bookkeeping of the queue's entries and tokens, the layout of a command's
//! input in its entry and mailboxes, and the decoding of its output.

use vstd::prelude::*;
use crate::mlx_ethernet::command_queue::{
    CommandOpcode, CommandQueueError, CommandCompletionStatus, AccessRegisterOpMod,
    MAILBOX_DATA_SIZE_IN_BYTES,
};
use crate::mlx_ethernet::command_entry::{
    CommandQueueEntry, high_word, low_word, placement_mailbox, placement_offset, placement_count,
    page_address_placements, PagePlacement,
};
use crate::mlx_ethernet::contexts::{
    EventQueueContext, CompletionQueueContext, TransportInterfaceSendContext, SendQueueContext,
    ReceiveQueueContext, WorkQueue, floor_log2, log2_u32, with_state, EQE_SIZE, CQE_SIZE,
    SEND_WQE_SIZE, RECEIVE_WQE_SIZE,
};
use crate::mlx_ethernet::queues::{SendQueueState, ReceiveQueueState};

verus! {

/// The parameters of a command; each command reads the ones it needs.
pub struct CommandBuilder {
    pub opcode: CommandOpcode,
    pub opmod: Option<u16>,
    /// Physical addresses of the pages handed to the device
    pub allocated_pages: Option<Vec<u64>>,
    pub user_access_region: Option<u32>,
    pub queue_size: Option<u32>,
    pub event_queue_num: Option<u8>,
    /// Physical address of a doorbell record
    pub doorbell_page: Option<u64>,
    pub transport_domain: Option<u32>,
    pub completion_queue_num: Option<u32>,
    pub transport_interface_send_num: Option<u32>,
    pub protection_domain: Option<u32>,
    pub send_queue_num: Option<u32>,
    pub collapsed_cq: bool,
    pub receive_queue_num: Option<u32>,
    pub mtu: Option<u16>,
    pub flow_table_id: Option<u32>,
    pub flow_group_id: Option<u32>,
    pub transport_interface_receive_num: Option<u32>,
}

/// `CommandBuilder` as a specification value.
pub struct BuilderView {
    pub opcode: CommandOpcode,
    pub opmod: Option<u16>,
    pub allocated_pages: Option<Seq<u64>>,
    pub user_access_region: Option<u32>,
    pub queue_size: Option<u32>,
    pub event_queue_num: Option<u8>,
    pub doorbell_page: Option<u64>,
    pub transport_domain: Option<u32>,
    pub completion_queue_num: Option<u32>,
    pub transport_interface_send_num: Option<u32>,
    pub protection_domain: Option<u32>,
    pub send_queue_num: Option<u32>,
    pub collapsed_cq: bool,
    pub receive_queue_num: Option<u32>,
    pub mtu: Option<u16>,
    pub flow_table_id: Option<u32>,
    pub flow_group_id: Option<u32>,
    pub transport_interface_receive_num: Option<u32>,
}

impl View for CommandBuilder {
    type V = BuilderView;

    open spec fn view(&self) -> BuilderView {
        BuilderView {
            opcode: self.opcode,
            opmod: self.opmod,
            allocated_pages: match self.allocated_pages {
                Some(p) => Some(p@),
                None => None,
            },
            user_access_region: self.user_access_region,
            queue_size: self.queue_size,
            event_queue_num: self.event_queue_num,
            doorbell_page: self.doorbell_page,
            transport_domain: self.transport_domain,
            completion_queue_num: self.completion_queue_num,
            transport_interface_send_num: self.transport_interface_send_num,
            protection_domain: self.protection_domain,
            send_queue_num: self.send_queue_num,
            collapsed_cq: self.collapsed_cq,
            receive_queue_num: self.receive_queue_num,
            mtu: self.mtu,
            flow_table_id: self.flow_table_id,
            flow_group_id: self.flow_group_id,
            transport_interface_receive_num: self.transport_interface_receive_num,
        }
    }
}

/// The parameters of a command with only its opcode set.
pub open spec fn new_builder(opcode: CommandOpcode) -> BuilderView {
    BuilderView {
        opcode,
        opmod: None,
        allocated_pages: None,
        user_access_region: None,
        queue_size: None,
        event_queue_num: None,
        doorbell_page: None,
        transport_domain: None,
        completion_queue_num: None,
        transport_interface_send_num: None,
        protection_domain: None,
        send_queue_num: None,
        collapsed_cq: false,
        receive_queue_num: None,
        mtu: None,
        flow_table_id: None,
        flow_group_id: None,
        transport_interface_receive_num: None,
    }
}

impl CommandBuilder {
    /// The parameters of a command of `opcode`, with nothing else set.
    pub fn new(opcode: CommandOpcode) -> (r: CommandBuilder)
        ensures
            r@ == new_builder(opcode),
    {
        CommandBuilder {
            opcode,
            opmod: None,
            allocated_pages: None,
            user_access_region: None,
            queue_size: None,
            event_queue_num: None,
            doorbell_page: None,
            transport_domain: None,
            completion_queue_num: None,
            transport_interface_send_num: None,
            protection_domain: None,
            send_queue_num: None,
            collapsed_cq: false,
            receive_queue_num: None,
            mtu: None,
            flow_table_id: None,
            flow_group_id: None,
            transport_interface_receive_num: None,
        }
    }

    /// Sets the opcode modifier.
    pub fn opmod(self, opmod: u16) -> (r: CommandBuilder)
        ensures
            r@ == (BuilderView { opmod: Some(opmod), ..self@ }),
    {
        CommandBuilder { opmod: Some(opmod), ..self }
    }

    /// Sets the pages handed to the device.
    pub fn allocated_pages(self, allocated_pages: Vec<u64>) -> (r: CommandBuilder)
        ensures
            r@ == (BuilderView { allocated_pages: Some(allocated_pages@), ..self@ }),
    {
        CommandBuilder { allocated_pages: Some(allocated_pages), ..self }
    }

    /// Sets the UAR page.
    pub fn uar(self, uar: u32) -> (r: CommandBuilder)
        ensures
            r@ == (BuilderView { user_access_region: Some(uar), ..self@ }),
    {
        CommandBuilder { user_access_region: Some(uar), ..self }
    }

    /// Sets the number of entries of the queue to create.
    pub fn queue_size(self, size: u32) -> (r: CommandBuilder)
        ensures
            r@ == (BuilderView { queue_size: Some(size), ..self@ }),
    {
        CommandBuilder { queue_size: Some(size), ..self }
    }

    /// Sets the event queue number.
    pub fn eqn(self, eqn: u8) -> (r: CommandBuilder)
        ensures
            r@ == (BuilderView { event_queue_num: Some(eqn), ..self@ }),
    {
        CommandBuilder { event_queue_num: Some(eqn), ..self }
    }

    /// Sets the physical address of the doorbell record.
    pub fn db_page(self, db_page: u64) -> (r: CommandBuilder)
        ensures
            r@ == (BuilderView { doorbell_page: Some(db_page), ..self@ }),
    {
        CommandBuilder { doorbell_page: Some(db_page), ..self }
    }

    /// Sets the transport domain.
    pub fn td(self, td: u32) -> (r: CommandBuilder)
        ensures
            r@ == (BuilderView { transport_domain: Some(td), ..self@ }),
    {
        CommandBuilder { transport_domain: Some(td), ..self }
    }

    /// Sets the completion queue number.
    pub fn cqn(self, cqn: u32) -> (r: CommandBuilder)
        ensures
            r@ == (BuilderView { completion_queue_num: Some(cqn), ..self@ }),
    {
        CommandBuilder { completion_queue_num: Some(cqn), ..self }
    }

    /// Sets the transport interface send number.
    pub fn tisn(self, tisn: u32) -> (r: CommandBuilder)
        ensures
            r@ == (BuilderView { transport_interface_send_num: Some(tisn), ..self@ }),
    {
        CommandBuilder { transport_interface_send_num: Some(tisn), ..self }
    }

    /// Sets the protection domain.
    pub fn pd(self, pd: u32) -> (r: CommandBuilder)
        ensures
            r@ == (BuilderView { protection_domain: Some(pd), ..self@ }),
    {
        CommandBuilder { protection_domain: Some(pd), ..self }
    }

    /// Sets the send queue number.
    pub fn sqn(self, sqn: u32) -> (r: CommandBuilder)
        ensures
            r@ == (BuilderView { send_queue_num: Some(sqn), ..self@ }),
    {
        CommandBuilder { send_queue_num: Some(sqn), ..self }
    }

    /// Collapses all completion entries of the queue to create into the first.
    pub fn collapsed_cq(self) -> (r: CommandBuilder)
        ensures
            r@ == (BuilderView { collapsed_cq: true, ..self@ }),
    {
        CommandBuilder { collapsed_cq: true, ..self }
    }

    /// Sets the receive queue number.
    pub fn rqn(self, rqn: u32) -> (r: CommandBuilder)
        ensures
            r@ == (BuilderView { receive_queue_num: Some(rqn), ..self@ }),
    {
        CommandBuilder { receive_queue_num: Some(rqn), ..self }
    }

    /// Sets the maximum transmission unit.
    pub fn mtu(self, mtu: u16) -> (r: CommandBuilder)
        ensures
            r@ == (BuilderView { mtu: Some(mtu), ..self@ }),
    {
        CommandBuilder { mtu: Some(mtu), ..self }
    }

    /// Sets the flow table id.
    pub fn flow_table_id(self, id: u32) -> (r: CommandBuilder)
        ensures
            r@ == (BuilderView { flow_table_id: Some(id), ..self@ }),
    {
        CommandBuilder { flow_table_id: Some(id), ..self }
    }

    /// Sets the flow group id.
    pub fn flow_group_id(self, id: u32) -> (r: CommandBuilder)
        ensures
            r@ == (BuilderView { flow_group_id: Some(id), ..self@ }),
    {
        CommandBuilder { flow_group_id: Some(id), ..self }
    }

    /// Sets the transport interface receive number.
    pub fn tirn(self, tirn: u32) -> (r: CommandBuilder)
        ensures
            r@ == (BuilderView { transport_interface_receive_num: Some(tirn), ..self@ }),
    {
        CommandBuilder { transport_interface_receive_num: Some(tirn), ..self }
    }
}


/// A word of a command's input, written big-endian at a byte offset of one
/// of its input mailboxes.
#[derive(Debug, Clone, Copy, PartialEq, Eq, Structural)]
pub struct MailboxWrite {
    pub mailbox: usize,
    pub offset: usize,
    pub value: u32,
}

/// The word `value` at byte `offset` of input mailbox `mailbox`.
pub open spec fn mw(mailbox: int, offset: int, value: u32) -> MailboxWrite {
    MailboxWrite { mailbox: mailbox as usize, offset: offset as usize, value }
}

/// The fields of an event queue context written at byte 0 of the first mailbox.
pub open spec fn eq_context_writes(c: EventQueueContext) -> Seq<MailboxWrite> {
    seq![
        mw(0, 0, c.status),
        mw(0, 8, c.page_offset),
        mw(0, 12, c.uar_log_eq_size),
        mw(0, 20, c.intr),
        mw(0, 24, c.log_pg_size),
        mw(0, 40, c.consumer_counter),
        mw(0, 44, c.producer_counter),
    ]
}

/// The fields of a completion queue context written at byte 0 of the first mailbox.
pub open spec fn cq_context_writes(c: CompletionQueueContext) -> Seq<MailboxWrite> {
    seq![
        mw(0, 0, c.status),
        mw(0, 8, c.page_offset),
        mw(0, 12, c.uar_log_cq_size),
        mw(0, 16, c.cq_max_count_period),
        mw(0, 20, c.c_eqn),
        mw(0, 24, c.log_page_size),
        mw(0, 32, c.last_notified_index),
        mw(0, 36, c.last_solicit_index),
        mw(0, 40, c.consumer_counter),
        mw(0, 44, c.producer_counter),
        mw(0, 56, c.dbr_addr_h),
        mw(0, 60, c.dbr_addr_l),
    ]
}

/// The fields of a transport interface send context written at byte 0x10 of
/// the first mailbox.
pub open spec fn tis_context_writes(c: TransportInterfaceSendContext) -> Seq<MailboxWrite> {
    seq![mw(0, 0x10, c.prio_or_sl), mw(0, 0x34, c.transport_domain), mw(0, 0x3C, c.pd)]
}

/// The fields of a send queue context written at byte 0x10 of the first mailbox.
pub open spec fn sq_context_writes(c: SendQueueContext) -> Seq<MailboxWrite> {
    seq![
        mw(0, 0x10, c.rlky_state),
        mw(0, 0x14, c.user_index),
        mw(0, 0x18, c.cqn),
        mw(0, 0x1C, c.hairpin_peer_rq),
        mw(0, 0x20, c.hairpin_peer_vhca),
        mw(0, 0x2C, c.packet_pacing_rate_limit_index),
        mw(0, 0x30, c.tis_lst_sz),
        mw(0, 0x3C, c.tis_num_0),
    ]
}

/// The fields of a receive queue context written at byte 0x10 of the first mailbox.
pub open spec fn rq_context_writes(c: ReceiveQueueContext) -> Seq<MailboxWrite> {
    seq![
        mw(0, 0x10, c.rlky_state),
        mw(0, 0x14, c.user_index),
        mw(0, 0x18, c.cqn),
        mw(0, 0x1C, c.counter_set_id),
        mw(0, 0x20, c.rmpn),
        mw(0, 0x24, c.hairpin_peer_sq),
        mw(0, 0x28, c.hairpin_peer_vhca),
    ]
}

/// The fields of a work queue description written at byte 0x40 of the first mailbox.
pub open spec fn wq_writes(w: WorkQueue) -> Seq<MailboxWrite> {
    seq![
        mw(0, 0x40, w.wq_type_signature),
        mw(0, 0x44, w.page_offset_lwm),
        mw(0, 0x48, w.pd),
        mw(0, 0x4C, w.uar_page),
        mw(0, 0x50, w.dbr_addr_h),
        mw(0, 0x54, w.dbr_addr_l),
        mw(0, 0x58, w.hw_counter),
        mw(0, 0x5C, w.sw_counter),
        mw(0, 0x60, w.log_wq_stride_pg_sz_sz),
        mw(0, 0x64, w.single_stride_log_num_of_bytes),
    ]
}

/// The page addresses laid out in `n_in` mailboxes from byte `first` of the
/// first: each address as its high word, then its low word.
pub open spec fn page_writes(pages: Seq<u64>, n_in: int, first: int) -> Seq<MailboxWrite> {
    Seq::new(
        (2 * placement_count(first, n_in, pages.len() as int)) as nat,
        |k: int|
            {
                let j = k / 2;
                let a = pages[pages.len() - 1 - j];
                if k % 2 == 0 {
                    mw(placement_mailbox(first, j), placement_offset(first, j), high_word(a))
                } else {
                    mw(placement_mailbox(first, j), placement_offset(first, j) + 4, low_word(a))
                }
            },
    )
}

/// The entry size of the queue that a command creates, and so the sizes the
/// command's contexts are computed from, fit in 32 bits.
pub open spec fn sizes_fit(p: BuilderView) -> bool {
    match p.queue_size {
        None => true,
        Some(q) => match p.opcode {
            CommandOpcode::CreateEq => q * EQE_SIZE <= u32::MAX,
            CommandOpcode::CreateCq => q * CQE_SIZE <= u32::MAX,
            CommandOpcode::CreateSq => q * SEND_WQE_SIZE <= u32::MAX,
            CommandOpcode::CreateRq => q * RECEIVE_WQE_SIZE <= u32::MAX,
            _ => true,
        },
    }
}

/// What a command of `p.opcode` writes in its entry `e` and in its `n_in`
/// input mailboxes, or the error for a missing parameter or an opcode that
/// is not implemented.
pub open spec fn opcode_plan(p: BuilderView, e: CommandQueueEntry, n_in: int) -> Result<
    (CommandQueueEntry, Seq<MailboxWrite>),
    CommandQueueError,
> {
    match p.opcode {
        CommandOpcode::EnableHca | CommandOpcode::InitHca | CommandOpcode::QuerySpecialContexts
        | CommandOpcode::QueryPages | CommandOpcode::AllocUar | CommandOpcode::QueryVportState
        | CommandOpcode::AllocPd | CommandOpcode::AllocTransportDomain | CommandOpcode::QueryHcaCap
        | CommandOpcode::QueryIssi | CommandOpcode::QueryNicVportContext => Ok((e, seq![])),
        CommandOpcode::SetIssi => Ok(
            (CommandQueueEntry { command_input_inline_data_0: 1, ..e }, seq![]),
        ),
        CommandOpcode::ManagePages => match p.allocated_pages {
            None => Err(CommandQueueError::MissingInputPages),
            Some(pages) => Ok(
                (
                    CommandQueueEntry { command_input_inline_data_1: pages.len() as u32, ..e },
                    page_writes(pages, n_in, 0),
                ),
            ),
        },
        CommandOpcode::ModifyNicVportContext => match p.mtu {
            None => Err(CommandQueueError::MissingInput),
            Some(m) => Ok(
                (
                    CommandQueueEntry { command_input_inline_data_1: 0x50, ..e },
                    seq![mw(0, 0x114, m as u32), mw(0, 0x1E0, 0xE000_0000u32)],
                ),
            ),
        },
        CommandOpcode::AccessRegister => {
            let e1 = CommandQueueEntry { command_input_inline_data_0: 0x5003, ..e };
            match p.opmod {
                None => Err(CommandQueueError::MissingInput),
                Some(op) => if op == AccessRegisterOpMod::Write.code() {
                    match p.mtu {
                        None => Err(CommandQueueError::MissingInput),
                        Some(m) => Ok((e1, seq![mw(0, 0, 0x1_0000), mw(0, 8, (m as u32) << 16u32)])),
                    }
                } else {
                    Ok(
                        (
                            CommandQueueEntry { input_length: 20, output_length: 24, ..e1 },
                            seq![mw(0, 0, 0x1_0000)],
                        ),
                    )
                },
            }
        },
        CommandOpcode::CreateEq => match p.allocated_pages {
            None => Err(CommandQueueError::MissingInputPages),
            Some(pages) => match (p.user_access_region, p.queue_size) {
                (Some(uar), Some(qs)) => Ok(
                    (
                        e,
                        eq_context_writes(crate::mlx_ethernet::contexts::event_queue_context(uar, qs))
                            + seq![mw(0, 0x5C, 0x800)] + page_writes(pages, n_in, 0x100),
                    ),
                ),
                _ => Err(CommandQueueError::MissingInput),
            },
        },
        CommandOpcode::CreateCq => match p.allocated_pages {
            None => Err(CommandQueueError::MissingInputPages),
            Some(pages) => match (
                p.user_access_region,
                p.queue_size,
                p.event_queue_num,
                p.doorbell_page,
            ) {
                (Some(uar), Some(qs), Some(eqn), Some(db)) => Ok(
                    (
                        e,
                        cq_context_writes(
                            crate::mlx_ethernet::contexts::completion_queue_context(
                                uar,
                                qs,
                                eqn,
                                db,
                                p.collapsed_cq,
                            ),
                        ) + page_writes(pages, n_in, 0x100),
                    ),
                ),
                _ => Err(CommandQueueError::MissingInput),
            },
        },
        CommandOpcode::CreateTis => match p.transport_domain {
            None => Err(CommandQueueError::MissingInput),
            Some(td) => Ok(
                (
                    e,
                    tis_context_writes(
                        TransportInterfaceSendContext { prio_or_sl: 0, transport_domain: td, pd: 0 },
                    ),
                ),
            ),
        },
        CommandOpcode::CreateSq => match p.allocated_pages {
            None => Err(CommandQueueError::MissingInputPages),
            Some(pages) => match (
                p.completion_queue_num,
                p.transport_interface_send_num,
                p.protection_domain,
                p.user_access_region,
                p.doorbell_page,
                p.queue_size,
            ) {
                (Some(cqn), Some(tisn), Some(pd), Some(uar), Some(db), Some(qs)) => Ok(
                    (
                        e,
                        sq_context_writes(send_queue_context(cqn, tisn)) + wq_writes(
                            WorkQueue {
                                uar_page: uar & 0xFF_FFFF,
                                ..WorkQueue::init_spec(pd, db, qs, SEND_WQE_SIZE)
                            },
                        ) + page_writes(pages, n_in, 0x100),
                    ),
                ),
                _ => Err(CommandQueueError::MissingInput),
            },
        },
        CommandOpcode::ModifySq => match p.send_queue_num {
            None => Err(CommandQueueError::MissingInput),
            Some(sqn) => Ok(
                (
                    CommandQueueEntry { command_input_inline_data_0: sqn, ..e },
                    sq_context_writes(
                        SendQueueContext {
                            rlky_state: with_state(0, SendQueueState::Ready.code()),
                            ..zero_sq_context()
                        },
                    ),
                ),
            ),
        },
        CommandOpcode::QuerySq => match p.send_queue_num {
            None => Err(CommandQueueError::MissingInput),
            Some(sqn) => Ok((CommandQueueEntry { command_input_inline_data_0: sqn, ..e }, seq![])),
        },
        CommandOpcode::CreateRq => match p.allocated_pages {
            None => Err(CommandQueueError::MissingInputPages),
            Some(pages) => match (
                p.completion_queue_num,
                p.protection_domain,
                p.doorbell_page,
                p.queue_size,
            ) {
                (Some(cqn), Some(pd), Some(db), Some(qs)) => Ok(
                    (
                        e,
                        rq_context_writes(receive_queue_context(cqn)) + wq_writes(
                            WorkQueue::init_spec(pd, db, qs, RECEIVE_WQE_SIZE),
                        ) + page_writes(pages, n_in, 0x100),
                    ),
                ),
                _ => Err(CommandQueueError::MissingInput),
            },
        },
        CommandOpcode::ModifyRq => match p.receive_queue_num {
            None => Err(CommandQueueError::MissingInput),
            Some(rqn) => Ok(
                (
                    CommandQueueEntry { command_input_inline_data_0: rqn, ..e },
                    rq_context_writes(
                        ReceiveQueueContext {
                            rlky_state: with_state(0, ReceiveQueueState::Ready.code()),
                            ..zero_rq_context()
                        },
                    ),
                ),
            ),
        },
        CommandOpcode::CreateFlowTable => match p.queue_size {
            None => Err(CommandQueueError::MissingInput),
            Some(n) => Ok((e, seq![mw(0, 0, 0), mw(0, 8, floor_log2(n as nat) as u32)])),
        },
        CommandOpcode::CreateFlowGroup => match p.flow_table_id {
            None => Err(CommandQueueError::MissingInput),
            Some(ft) => Ok(
                (
                    e,
                    seq![
                        mw(0, 0, 0),
                        mw(0, 4, ft & 0xFF_FFFF),
                        mw(0, 12, 0),
                        mw(0, 20, 0),
                        mw(0, 44, 0),
                    ],
                ),
            ),
        },
        CommandOpcode::CreateTir => match (p.receive_queue_num, p.transport_domain) {
            (Some(rqn), Some(td)) => Ok((e, seq![mw(0, 0x2C, rqn), mw(0, 0x34, td)])),
            _ => Err(CommandQueueError::MissingInput),
        },
        CommandOpcode::SetFlowTableEntry => match (
            p.flow_table_id,
            p.flow_group_id,
            p.transport_interface_receive_num,
        ) {
            (Some(ft), Some(fg), Some(tirn)) => Ok(
                (
                    e,
                    seq![
                        mw(0, 0, 0),
                        mw(0, 4, ft & 0xFF_FFFF),
                        mw(0, 16, 0),
                        mw(0, 0x34, fg),
                        mw(0, 0x3C, 4),
                        mw(0, 0x40, 1),
                        mw(1, 304, 0x0200_0000u32 | (tirn & 0xFF_FFFF)),
                        mw(1, 308, 0),
                    ],
                ),
            ),
            _ => Err(CommandQueueError::MissingInput),
        },
        CommandOpcode::SetFlowTableRoot => match p.flow_table_id {
            None => Err(CommandQueueError::MissingInput),
            Some(ft) => Ok((e, seq![mw(0, 0, 0), mw(0, 4, ft & 0xFF_FFFF)])),
        },
        _ => Err(CommandQueueError::UnimplementedOpcode),
    }
}

/// A send queue context whose fields are all zero.
pub open spec fn zero_sq_context() -> SendQueueContext {
    SendQueueContext {
        rlky_state: 0,
        user_index: 0,
        cqn: 0,
        hairpin_peer_rq: 0,
        hairpin_peer_vhca: 0,
        packet_pacing_rate_limit_index: 0,
        tis_lst_sz: 0,
        tis_num_0: 0,
    }
}

/// A receive queue context whose fields are all zero.
pub open spec fn zero_rq_context() -> ReceiveQueueContext {
    ReceiveQueueContext {
        rlky_state: 0,
        user_index: 0,
        cqn: 0,
        counter_set_id: 0,
        rmpn: 0,
        hairpin_peer_sq: 0,
        hairpin_peer_vhca: 0,
    }
}

/// The context of a send queue reporting to `cqn` through the TIS `tisn`.
pub open spec fn send_queue_context(cqn: u32, tisn: u32) -> SendQueueContext {
    SendQueueContext {
        rlky_state: crate::mlx_ethernet::contexts::SQ_CONTEXT_FLAGS,
        cqn: cqn & crate::mlx_ethernet::contexts::CQN_MASK,
        tis_lst_sz: 0x1_0000,
        tis_num_0: tisn & 0xFF_FFFF,
        ..zero_sq_context()
    }
}

/// The context of a receive queue reporting to `cqn`.
pub open spec fn receive_queue_context(cqn: u32) -> ReceiveQueueContext {
    ReceiveQueueContext {
        rlky_state: crate::mlx_ethernet::contexts::RQ_CONTEXT_FLAGS,
        cqn: cqn & crate::mlx_ethernet::contexts::CQN_MASK,
        ..zero_rq_context()
    }
}

fn w(mailbox: usize, offset: usize, value: u32) -> (r: MailboxWrite)
    ensures
        r == mw(mailbox as int, offset as int, value),
{
    MailboxWrite { mailbox, offset, value }
}

fn push_eq_context(ws: &mut Vec<MailboxWrite>, c: &EventQueueContext)
    ensures
        final(ws)@ == old(ws)@ + eq_context_writes(*c),
{
    let ghost before = ws@;
    ws.push(w(0, 0, c.status));
    ws.push(w(0, 8, c.page_offset));
    ws.push(w(0, 12, c.uar_log_eq_size));
    ws.push(w(0, 20, c.intr));
    ws.push(w(0, 24, c.log_pg_size));
    ws.push(w(0, 40, c.consumer_counter));
    ws.push(w(0, 44, c.producer_counter));
    assert(ws@ =~= before + eq_context_writes(*c));
}

fn push_cq_context(ws: &mut Vec<MailboxWrite>, c: &CompletionQueueContext)
    ensures
        final(ws)@ == old(ws)@ + cq_context_writes(*c),
{
    let ghost before = ws@;
    ws.push(w(0, 0, c.status));
    ws.push(w(0, 8, c.page_offset));
    ws.push(w(0, 12, c.uar_log_cq_size));
    ws.push(w(0, 16, c.cq_max_count_period));
    ws.push(w(0, 20, c.c_eqn));
    ws.push(w(0, 24, c.log_page_size));
    ws.push(w(0, 32, c.last_notified_index));
    ws.push(w(0, 36, c.last_solicit_index));
    ws.push(w(0, 40, c.consumer_counter));
    ws.push(w(0, 44, c.producer_counter));
    ws.push(w(0, 56, c.dbr_addr_h));
    ws.push(w(0, 60, c.dbr_addr_l));
    assert(ws@ =~= before + cq_context_writes(*c));
}

fn push_sq_context(ws: &mut Vec<MailboxWrite>, c: &SendQueueContext)
    ensures
        final(ws)@ == old(ws)@ + sq_context_writes(*c),
{
    let ghost before = ws@;
    ws.push(w(0, 0x10, c.rlky_state));
    ws.push(w(0, 0x14, c.user_index));
    ws.push(w(0, 0x18, c.cqn));
    ws.push(w(0, 0x1C, c.hairpin_peer_rq));
    ws.push(w(0, 0x20, c.hairpin_peer_vhca));
    ws.push(w(0, 0x2C, c.packet_pacing_rate_limit_index));
    ws.push(w(0, 0x30, c.tis_lst_sz));
    ws.push(w(0, 0x3C, c.tis_num_0));
    assert(ws@ =~= before + sq_context_writes(*c));
}

fn push_rq_context(ws: &mut Vec<MailboxWrite>, c: &ReceiveQueueContext)
    ensures
        final(ws)@ == old(ws)@ + rq_context_writes(*c),
{
    let ghost before = ws@;
    ws.push(w(0, 0x10, c.rlky_state));
    ws.push(w(0, 0x14, c.user_index));
    ws.push(w(0, 0x18, c.cqn));
    ws.push(w(0, 0x1C, c.counter_set_id));
    ws.push(w(0, 0x20, c.rmpn));
    ws.push(w(0, 0x24, c.hairpin_peer_sq));
    ws.push(w(0, 0x28, c.hairpin_peer_vhca));
    assert(ws@ =~= before + rq_context_writes(*c));
}

fn push_wq(ws: &mut Vec<MailboxWrite>, c: &WorkQueue)
    ensures
        final(ws)@ == old(ws)@ + wq_writes(*c),
{
    let ghost before = ws@;
    ws.push(w(0, 0x40, c.wq_type_signature));
    ws.push(w(0, 0x44, c.page_offset_lwm));
    ws.push(w(0, 0x48, c.pd));
    ws.push(w(0, 0x4C, c.uar_page));
    ws.push(w(0, 0x50, c.dbr_addr_h));
    ws.push(w(0, 0x54, c.dbr_addr_l));
    ws.push(w(0, 0x58, c.hw_counter));
    ws.push(w(0, 0x5C, c.sw_counter));
    ws.push(w(0, 0x60, c.log_wq_stride_pg_sz_sz));
    ws.push(w(0, 0x64, c.single_stride_log_num_of_bytes));
    assert(ws@ =~= before + wq_writes(*c));
}

/// Appends the page addresses of `pages`, laid out in `n_in` mailboxes from
/// byte `first` of the first, to `ws` (`write_page_addrs_to_mailboxes`).
fn push_page_addrs(ws: &mut Vec<MailboxWrite>, pages: Vec<u64>, n_in: usize, first: usize)
    requires
        n_in > 0 ==> first <= MAILBOX_DATA_SIZE_IN_BYTES,
    ensures
        final(ws)@ == old(ws)@ + page_writes(pages@, n_in as int, first as int),
{
    let ghost all = pages@;
    let placements = page_address_placements(n_in, pages, first);
    let ghost before = ws@;
    let n = placements.len();
    let mut i: usize = 0;
    while i < n
        invariant
            i <= n == placements.len(),
            n == placement_count(first as int, n_in as int, all.len() as int),
            forall|j: int|
                0 <= j < placements.len() ==> #[trigger] placements[j] == (PagePlacement {
                    mailbox: placement_mailbox(first as int, j) as usize,
                    offset: placement_offset(first as int, j) as usize,
                    addr: all[all.len() - 1 - j],
                }),
            ws@ == before + page_writes(all, n_in as int, first as int).subrange(0, 2 * i),
        decreases n - i,
    {
        let p = placements[i];
        assert(p.offset + 4 <= usize::MAX) by {
            assert(placements[i as int] == p);
        }
        let (h, l) = crate::mlx_ethernet::command_entry::split_address(p.addr);
        ws.push(w(p.mailbox, p.offset, h));
        ws.push(w(p.mailbox, p.offset + 4, l));
        proof {
            let full = page_writes(all, n_in as int, first as int);
            assert(placements[i as int] == p);
            assert(full[2 * i] == mw(p.mailbox as int, p.offset as int, h));
            assert(full[2 * i + 1] == mw(p.mailbox as int, p.offset + 4, l));
            assert(ws@ =~= before + full.subrange(0, 2 * (i + 1)));
        }
        i = i + 1;
    }
    assert(page_writes(all, n_in as int, first as int).subrange(0, 2 * n as int) =~= page_writes(
        all,
        n_in as int,
        first as int,
    ));
}


/// The queue of command entries: which entries are free, the token of the
/// next command, and the pages kept for mailboxes.
pub struct CommandQueue {
    available_entries: Vec<bool>,
    token: u8,
    mailbox_buffers: Vec<u64>,
}

/// `CommandQueue` as a specification value.
pub struct QueueView {
    pub available: Seq<bool>,
    pub token: u8,
    pub pool: Seq<u64>,
}

impl View for CommandQueue {
    type V = QueueView;

    closed spec fn view(&self) -> QueueView {
        QueueView {
            available: self.available_entries@,
            token: self.token,
            pool: self.mailbox_buffers@,
        }
    }
}

/// The first free entry, if any.
pub open spec fn first_free(av: Seq<bool>) -> Option<int> {
    if exists|i: int| 0 <= i < av.len() && av[i] {
        Some(choose|i: int| 0 <= i < av.len() && av[i] && forall|j: int| 0 <= j < i ==> !av[j])
    } else {
        None
    }
}

/// The mailbox pages that taking `n` of them yields: first from the end of
/// the queue's pages `pool`, then from the end of the newly mapped pages
/// `fresh`; with what is left of each.
pub open spec fn take_spec(pool: Seq<u64>, fresh: Seq<u64>, n: int) -> (
    Result<Seq<u64>, CommandQueueError>,
    Seq<u64>,
    Seq<u64>,
) {
    let from_pool = if n < pool.len() {
        n
    } else {
        pool.len() as int
    };
    let from_fresh = n - from_pool;
    let pool2 = pool.subrange(0, pool.len() - from_pool);
    if from_fresh > fresh.len() {
        (Err(CommandQueueError::PageAllocationFailed), pool2, Seq::empty())
    } else {
        (
            Ok(
                Seq::new(
                    n as nat,
                    |i: int|
                        if i < from_pool {
                            pool[pool.len() - 1 - i]
                        } else {
                            fresh[fresh.len() - 1 - (i - from_pool)]
                        },
                ),
            ),
            pool2,
            fresh.subrange(0, fresh.len() - from_fresh),
        )
    }
}

/// A command ready to be handed to the device: its entry, the addresses of
/// its input and output mailboxes (chained, in order), and the words of its
/// input in the input mailboxes.
pub struct PreparedCommand {
    pub entry_num: usize,
    pub entry: CommandQueueEntry,
    pub token: u8,
    pub input_mailboxes: Vec<u64>,
    pub output_mailboxes: Vec<u64>,
    pub writes: Vec<MailboxWrite>,
}

/// `PreparedCommand` as a specification value.
pub struct PreparedView {
    pub entry_num: usize,
    pub entry: CommandQueueEntry,
    pub token: u8,
    pub input_mailboxes: Seq<u64>,
    pub output_mailboxes: Seq<u64>,
    pub writes: Seq<MailboxWrite>,
}

impl View for PreparedCommand {
    type V = PreparedView;

    open spec fn view(&self) -> PreparedView {
        PreparedView {
            entry_num: self.entry_num,
            entry: self.entry,
            token: self.token,
            input_mailboxes: self.input_mailboxes@,
            output_mailboxes: self.output_mailboxes@,
            writes: self.writes@,
        }
    }
}

/// What creating the command `p` does: the result, the queue and the fresh
/// pages after it.
pub struct CreateOutcome {
    pub result: Result<PreparedView, CommandQueueError>,
    pub queue: QueueView,
    pub fresh: Seq<u64>,
}

/// The number of pages in the parameters, if any.
pub open spec fn num_pages_of(p: BuilderView) -> Option<usize> {
    match p.allocated_pages {
        Some(pages) => Some(pages.len() as usize),
        None => None,
    }
}

/// The entry `e` with the pointers to the first input and output mailboxes.
pub open spec fn with_pointers(e: CommandQueueEntry, ins: Seq<u64>, outs: Seq<u64>) -> CommandQueueEntry {
    let e1 = if ins.len() > 0 {
        CommandQueueEntry {
            input_mailbox_pointer_h: high_word(ins[0]),
            input_mailbox_pointer_l: low_word(ins[0]),
            ..e
        }
    } else {
        e
    };
    if outs.len() > 0 {
        CommandQueueEntry {
            output_mailbox_pointer_h: high_word(outs[0]),
            output_mailbox_pointer_l: low_word(outs[0]),
            ..e1
        }
    } else {
        e1
    }
}

/// What creating the command `p` on the queue `q` with the newly mapped
/// pages `fresh` gives: the first free entry is filled for `p` with the
/// queue's token, mailboxes are taken for its input and then its output,
/// its input is laid out, and the entry is claimed and the token advanced.
pub open spec fn create_outcome(q: QueueView, p: BuilderView, fresh: Seq<u64>) -> CreateOutcome {
    match first_free(q.available) {
        None => CreateOutcome { result: Err(CommandQueueError::NoCommandEntryAvailable), queue: q, fresh },
        Some(entry_num) => match CommandQueueEntry::init_spec(p.opcode, p.opmod, q.token, num_pages_of(p)) {
            Err(e) => CreateOutcome { result: Err(e), queue: q, fresh },
            Ok(entry) => match p.opcode.num_input_mailboxes_spec(num_pages_of(p)) {
                Err(e) => CreateOutcome { result: Err(e), queue: q, fresh },
                Ok(n_in) => {
                    let (ins, pool1, fresh1) = take_spec(q.pool, fresh, n_in as int);
                    let q1 = QueueView { pool: pool1, ..q };
                    match ins {
                        Err(e) => CreateOutcome { result: Err(e), queue: q1, fresh: fresh1 },
                        Ok(ins) => match p.opcode.num_output_mailboxes_spec() {
                            Err(e) => CreateOutcome { result: Err(e), queue: q1, fresh: fresh1 },
                            Ok(n_out) => {
                                let (outs, pool2, fresh2) = take_spec(pool1, fresh1, n_out as int);
                                let q2 = QueueView { pool: pool2, ..q };
                                match outs {
                                    Err(e) => CreateOutcome { result: Err(e), queue: q2, fresh: fresh2 },
                                    Ok(outs) => match opcode_plan(p, entry, n_in as int) {
                                        Err(e) => CreateOutcome {
                                            result: Err(e),
                                            queue: q2,
                                            fresh: fresh2,
                                        },
                                        Ok((e2, writes)) => CreateOutcome {
                                            result: Ok(
                                                PreparedView {
                                                    entry_num: entry_num as usize,
                                                    entry: with_pointers(e2, ins, outs),
                                                    token: q.token,
                                                    input_mailboxes: ins,
                                                    output_mailboxes: outs,
                                                    writes,
                                                },
                                            ),
                                            queue: QueueView {
                                                available: q.available.update(entry_num, false),
                                                token: q.token.wrapping_add(1),
                                                pool: pool2,
                                            },
                                            fresh: fresh2,
                                        },
                                    },
                                }
                            },
                        },
                    }
                },
            },
        },
    }
}

impl CommandQueue {
    /// A queue of `num_cmdq_entries` free entries, whose first token is
    /// 0xAA, keeping the pages `mailbox_pages`, one per entry, for mailboxes.
    pub fn create(num_cmdq_entries: usize, mailbox_pages: Vec<u64>) -> (r: CommandQueue)
        requires
            mailbox_pages@.len() == num_cmdq_entries,
        ensures
            r@ == (QueueView {
                available: Seq::new(num_cmdq_entries as nat, |i: int| true),
                token: 0xAA,
                pool: mailbox_pages@,
            }),
    {
        let available_entries = vec![true; num_cmdq_entries];
        let r = CommandQueue { available_entries, token: 0xAA, mailbox_buffers: mailbox_pages };
        assert(r@.available =~= Seq::new(num_cmdq_entries as nat, |i: int| true));
        r
    }

    /// Returns the first entry that is not in use.
    pub fn find_free_command_entry(&self) -> (r: Option<usize>)
        ensures
            match first_free(self@.available) {
                Some(i) => r == Some(i as usize),
                None => r is None,
            },
            r matches Some(i) ==> i < self@.available.len() && first_free(self@.available) == Some(
                i as int,
            ),
    {
        let mut i: usize = 0;
        while i < self.available_entries.len()
            invariant
                i <= self.available_entries@.len(),
                forall|j: int| 0 <= j < i ==> !self.available_entries@[j],
            decreases self.available_entries@.len() - i,
        {
            if self.available_entries[i] {
                proof {
                    let av = self.available_entries@;
                    let c = choose|k: int| 0 <= k < av.len() && av[k] && forall|j: int| 0 <= j < k ==> !av[j];
                    assert(av[i as int]);
                    if c < i {
                    } else if c > i {
                    }
                }
                return Some(i);
            }
            i = i + 1;
        }
        None
    }

    /// Takes `n` mailbox pages: the queue's own first, then newly mapped ones.
    fn take_mailboxes(&mut self, n: usize, fresh: &mut Vec<u64>) -> (r: Result<Vec<u64>, CommandQueueError>)
        ensures
            ({
                let (res, pool2, fresh2) = take_spec(old(self)@.pool, old(fresh)@, n as int);
                &&& match res {
                    Ok(s) => r matches Ok(v) && v@ == s,
                    Err(e) => r == Err::<Vec<u64>, CommandQueueError>(e),
                }
                &&& final(self)@ == (QueueView { pool: pool2, ..old(self)@ })
                &&& final(fresh)@ == fresh2
            }),
    {
        let ghost pool = self.mailbox_buffers@;
        let ghost fr = fresh@;
        let from_pool = if n < self.mailbox_buffers.len() {
            n
        } else {
            self.mailbox_buffers.len()
        };
        let mut r: Vec<u64> = Vec::new();
        let mut i: usize = 0;
        while i < n
            invariant
                i <= n,
                from_pool == (if n < pool.len() {
                    n as int
                } else {
                    pool.len() as int
                }),
                r.len() == i,
                i <= from_pool ==> self.mailbox_buffers@ == pool.subrange(0, pool.len() - i),
                i <= from_pool ==> fresh@ == fr,
                i > from_pool ==> self.mailbox_buffers@ == pool.subrange(0, pool.len() - from_pool),
                i > from_pool ==> fresh@ == fr.subrange(0, fr.len() - (i - from_pool)),
                i > from_pool ==> i - from_pool <= fr.len(),
                forall|k: int|
                    0 <= k < i ==> r@[k] == (if k < from_pool {
                        pool[pool.len() - 1 - k]
                    } else {
                        fr[fr.len() - 1 - (k - from_pool)]
                    }),
                self.token == old(self).token,
                self.available_entries@ == old(self).available_entries@,
                pool == old(self)@.pool,
                fr == old(fresh)@,
            decreases n - i,
        {
            if i < from_pool {
                let a = self.mailbox_buffers.pop().unwrap();
                r.push(a);
            } else {
                match fresh.pop() {
                    Some(a) => {
                        r.push(a);
                    },
                    None => {
                        assert(fresh@.len() == 0);
                        proof {
                            if i == from_pool {
                                assert(fr.len() == 0);
                            }
                            assert(fresh@ =~= Seq::<u64>::empty());
                            assert(self.mailbox_buffers@ =~= pool.subrange(0, pool.len() - from_pool));
                        }
                        return Err(CommandQueueError::PageAllocationFailed);
                    },
                }
            }
            i = i + 1;
        }
        assert(r@ =~= take_spec(pool, fr, n as int).0->Ok_0);
        proof {
            if n <= from_pool {
                assert(fresh@ =~= fr.subrange(0, fr.len() - 0));
            }
        }
        Ok(r)
    }
}


/// Writes the input of the command `p` in its entry and lays out the words
/// it puts in its `n_in` input mailboxes.
#[verifier::rlimit(60)]
fn plan_opcode(p: CommandBuilder, entry: &mut CommandQueueEntry, n_in: usize) -> (r: Result<
    Vec<MailboxWrite>,
    CommandQueueError,
>)
    requires
        sizes_fit(p@),
    ensures
        match opcode_plan(p@, *old(entry), n_in as int) {
            Ok((e2, ws)) => r matches Ok(v) && v@ == ws && *final(entry) == e2,
            Err(e) => r == Err::<Vec<MailboxWrite>, CommandQueueError>(e),
        },
{
    let ghost pv = p@;
    let mut ws: Vec<MailboxWrite> = Vec::new();
    match p.opcode {
        CommandOpcode::EnableHca | CommandOpcode::InitHca | CommandOpcode::QuerySpecialContexts
        | CommandOpcode::QueryPages | CommandOpcode::AllocUar | CommandOpcode::QueryVportState
        | CommandOpcode::AllocPd | CommandOpcode::AllocTransportDomain | CommandOpcode::QueryHcaCap
        | CommandOpcode::QueryIssi | CommandOpcode::QueryNicVportContext => {},
        CommandOpcode::SetIssi => {
            entry.set_input_inline_data_0(1);
        },
        CommandOpcode::ManagePages => {
            let pages = match p.allocated_pages {
                Some(pages) => pages,
                None => {
                    return Err(CommandQueueError::MissingInputPages);
                },
            };
            entry.set_input_inline_data_1(pages.len() as u32);
            push_page_addrs(&mut ws, pages, n_in, 0);
        },
        CommandOpcode::ModifyNicVportContext => {
            entry.set_input_inline_data_1(0x50);
            let m = match p.mtu {
                Some(m) => m,
                None => {
                    return Err(CommandQueueError::MissingInput);
                },
            };
            ws.push(w(0, 0x114, m as u32));
            ws.push(w(0, 0x1E0, 0xE000_0000u32));
        },
        CommandOpcode::AccessRegister => {
            entry.set_input_inline_data_0(0x5003);
            ws.push(w(0, 0, 0x1_0000));
            let op = match p.opmod {
                Some(op) => op,
                None => {
                    return Err(CommandQueueError::MissingInput);
                },
            };
            if op == AccessRegisterOpMod::Write.value() {
                let m = match p.mtu {
                    Some(m) => m,
                    None => {
                        return Err(CommandQueueError::MissingInput);
                    },
                };
                ws.push(w(0, 8, (m as u32) << 16u32));
            } else {
                entry.set_input_length(20);
                entry.set_output_length(24);
            }
        },
        CommandOpcode::CreateEq => {
            let pages = match p.allocated_pages {
                Some(pages) => pages,
                None => {
                    return Err(CommandQueueError::MissingInputPages);
                },
            };
            let (uar, qs) = match (p.user_access_region, p.queue_size) {
                (Some(uar), Some(qs)) => (uar, qs),
                _ => {
                    return Err(CommandQueueError::MissingInput);
                },
            };
            let c = EventQueueContext::init(uar, qs);
            push_eq_context(&mut ws, &c);
            ws.push(w(0, 0x5C, 0x800));
            push_page_addrs(&mut ws, pages, n_in, 0x100);
        },
        CommandOpcode::CreateCq => {
            let pages = match p.allocated_pages {
                Some(pages) => pages,
                None => {
                    return Err(CommandQueueError::MissingInputPages);
                },
            };
            let (uar, qs, eqn, db) = match (
                p.user_access_region,
                p.queue_size,
                p.event_queue_num,
                p.doorbell_page,
            ) {
                (Some(uar), Some(qs), Some(eqn), Some(db)) => (uar, qs, eqn, db),
                _ => {
                    return Err(CommandQueueError::MissingInput);
                },
            };
            let c = CompletionQueueContext::init(uar, qs, eqn, db, p.collapsed_cq);
            push_cq_context(&mut ws, &c);
            push_page_addrs(&mut ws, pages, n_in, 0x100);
        },
        CommandOpcode::CreateTis => {
            let td = match p.transport_domain {
                Some(td) => td,
                None => {
                    return Err(CommandQueueError::MissingInput);
                },
            };
            let c = TransportInterfaceSendContext::init(td);
            ws.push(w(0, 0x10, c.prio_or_sl));
            ws.push(w(0, 0x34, c.transport_domain));
            ws.push(w(0, 0x3C, c.pd));
        },
        CommandOpcode::CreateSq => {
            let pages = match p.allocated_pages {
                Some(pages) => pages,
                None => {
                    return Err(CommandQueueError::MissingInputPages);
                },
            };
            let (cqn, tisn, pd, uar, db, qs) = match (
                p.completion_queue_num,
                p.transport_interface_send_num,
                p.protection_domain,
                p.user_access_region,
                p.doorbell_page,
                p.queue_size,
            ) {
                (Some(cqn), Some(tisn), Some(pd), Some(uar), Some(db), Some(qs)) => (
                    cqn,
                    tisn,
                    pd,
                    uar,
                    db,
                    qs,
                ),
                _ => {
                    return Err(CommandQueueError::MissingInput);
                },
            };
            let c = SendQueueContext::init(cqn, tisn);
            push_sq_context(&mut ws, &c);
            let wq = WorkQueue::init_sq(pd, uar, db, qs);
            push_wq(&mut ws, &wq);
            push_page_addrs(&mut ws, pages, n_in, 0x100);
        },
        CommandOpcode::ModifySq => {
            let sqn = match p.send_queue_num {
                Some(x) => x,
                None => {
                    return Err(CommandQueueError::MissingInput);
                },
            };
            entry.set_input_inline_data_0(sqn);
            let mut c = SendQueueContext::zeroed();
            c.set_state(SendQueueState::Ready);
            push_sq_context(&mut ws, &c);
        },
        CommandOpcode::QuerySq => {
            let sqn = match p.send_queue_num {
                Some(x) => x,
                None => {
                    return Err(CommandQueueError::MissingInput);
                },
            };
            entry.set_input_inline_data_0(sqn);
        },
        CommandOpcode::CreateRq => {
            let pages = match p.allocated_pages {
                Some(pages) => pages,
                None => {
                    return Err(CommandQueueError::MissingInputPages);
                },
            };
            let (cqn, pd, db, qs) = match (
                p.completion_queue_num,
                p.protection_domain,
                p.doorbell_page,
                p.queue_size,
            ) {
                (Some(cqn), Some(pd), Some(db), Some(qs)) => (cqn, pd, db, qs),
                _ => {
                    return Err(CommandQueueError::MissingInput);
                },
            };
            let c = ReceiveQueueContext::init(cqn);
            push_rq_context(&mut ws, &c);
            let wq = WorkQueue::init_rq(pd, db, qs);
            push_wq(&mut ws, &wq);
            push_page_addrs(&mut ws, pages, n_in, 0x100);
        },
        CommandOpcode::ModifyRq => {
            let rqn = match p.receive_queue_num {
                Some(x) => x,
                None => {
                    return Err(CommandQueueError::MissingInput);
                },
            };
            entry.set_input_inline_data_0(rqn);
            let mut c = ReceiveQueueContext::zeroed();
            c.set_state(ReceiveQueueState::Ready);
            push_rq_context(&mut ws, &c);
        },
        CommandOpcode::CreateFlowTable => {
            let n = match p.queue_size {
                Some(n) => n,
                None => {
                    return Err(CommandQueueError::MissingInput);
                },
            };
            ws.push(w(0, 0, 0));
            ws.push(w(0, 8, log2_u32(n)));
        },
        CommandOpcode::CreateFlowGroup => {
            let ft = match p.flow_table_id {
                Some(x) => x,
                None => {
                    return Err(CommandQueueError::MissingInput);
                },
            };
            ws.push(w(0, 0, 0));
            ws.push(w(0, 4, ft & 0xFF_FFFF));
            ws.push(w(0, 12, 0));
            ws.push(w(0, 20, 0));
            ws.push(w(0, 44, 0));
        },
        CommandOpcode::CreateTir => {
            let (rqn, td) = match (p.receive_queue_num, p.transport_domain) {
                (Some(rqn), Some(td)) => (rqn, td),
                _ => {
                    return Err(CommandQueueError::MissingInput);
                },
            };
            ws.push(w(0, 0x2C, rqn));
            ws.push(w(0, 0x34, td));
        },
        CommandOpcode::SetFlowTableEntry => {
            let (ft, fg, tirn) = match (
                p.flow_table_id,
                p.flow_group_id,
                p.transport_interface_receive_num,
            ) {
                (Some(ft), Some(fg), Some(tirn)) => (ft, fg, tirn),
                _ => {
                    return Err(CommandQueueError::MissingInput);
                },
            };
            ws.push(w(0, 0, 0));
            ws.push(w(0, 4, ft & 0xFF_FFFF));
            ws.push(w(0, 16, 0));
            ws.push(w(0, 0x34, fg));
            ws.push(w(0, 0x3C, 4));
            ws.push(w(0, 0x40, 1));
            ws.push(w(1, 304, 0x0200_0000u32 | (tirn & 0xFF_FFFF)));
            ws.push(w(1, 308, 0));
        },
        CommandOpcode::SetFlowTableRoot => {
            let ft = match p.flow_table_id {
                Some(x) => x,
                None => {
                    return Err(CommandQueueError::MissingInput);
                },
            };
            ws.push(w(0, 0, 0));
            ws.push(w(0, 4, ft & 0xFF_FFFF));
        },
        _ => {
            return Err(CommandQueueError::UnimplementedOpcode);
        },
    }
    assert(ws@ =~= opcode_plan(pv, *old(entry), n_in as int)->Ok_0.1);
    Ok(ws)
}


impl CommandQueue {
    /// Fills the first free entry for the command `parameters`: the entry
    /// for its opcode with the queue's token, its mailboxes (the queue's
    /// pages first, then pages of `fresh`, the newly mapped ones), its input
    /// in the entry and the mailboxes, and the pointers to its first input
    /// and output mailbox; then claims the entry and advances the token.
    #[verifier::rlimit(40)]
    pub fn create_command(&mut self, parameters: CommandBuilder, fresh: &mut Vec<u64>) -> (r: Result<
        PreparedCommand,
        CommandQueueError,
    >)
        requires
            sizes_fit(parameters@),
            parameters@.opcode.input_bytes_fit(num_pages_of(parameters@)),
            parameters@.opcode.input_mailboxes_fit(num_pages_of(parameters@)),
        ensures
            ({
                let o = create_outcome(old(self)@, parameters@, old(fresh)@);
                &&& match o.result {
                    Ok(v) => r matches Ok(c) && c@ == v,
                    Err(e) => r == Err::<PreparedCommand, CommandQueueError>(e),
                }
                &&& final(self)@ == o.queue
                &&& final(fresh)@ == o.fresh
            }),
    {
        let ghost p = parameters@;
        let entry_num = match self.find_free_command_entry() {
            Some(i) => i,
            None => {
                return Err(CommandQueueError::NoCommandEntryAvailable);
            },
        };
        let num_pages = match &parameters.allocated_pages {
            Some(pages) => Some(pages.len()),
            None => None,
        };
        assert(num_pages == num_pages_of(p));
        let opcode = parameters.opcode;
        let mut entry = match CommandQueueEntry::init(opcode, parameters.opmod, self.token, num_pages) {
            Ok(e) => e,
            Err(e) => {
                return Err(e);
            },
        };
        let n_in = match opcode.num_input_mailboxes(num_pages) {
            Ok(n) => n,
            Err(e) => {
                return Err(e);
            },
        };
        let ins = match self.take_mailboxes(n_in, fresh) {
            Ok(v) => v,
            Err(e) => {
                return Err(e);
            },
        };
        let n_out = match opcode.num_output_mailboxes() {
            Ok(n) => n,
            Err(e) => {
                return Err(e);
            },
        };
        let outs = match self.take_mailboxes(n_out, fresh) {
            Ok(v) => v,
            Err(e) => {
                return Err(e);
            },
        };
        let writes = match plan_opcode(parameters, &mut entry, n_in) {
            Ok(v) => v,
            Err(e) => {
                return Err(e);
            },
        };
        if ins.len() > 0 {
            entry.set_input_mailbox_pointer(ins[0]);
        }
        if outs.len() > 0 {
            entry.set_output_mailbox_pointer(outs[0]);
        }
        let token = self.token;
        self.token = self.token.wrapping_add(1);
        self.available_entries.set(entry_num, false);
        let r = PreparedCommand { entry_num, entry, token, input_mailboxes: ins, output_mailboxes: outs, writes };
        proof {
            let o = create_outcome(old(self)@, p, old(fresh)@);
            assert(o.queue.available =~= self@.available);
        }
        Ok(r)
    }

    /// Marks entry `entry_num` free again and returns the two statuses that
    /// the device reported in the completed entry `entry`.
    pub fn get_command_status(&mut self, entry_num: usize, entry: &CommandQueueEntry) -> (r: Result<
        CommandCompletionStatus,
        CommandQueueError,
    >)
        requires
            entry_num < old(self)@.available.len(),
        ensures
            final(self)@ == (QueueView {
                available: old(self)@.available.update(entry_num as int, true),
                ..old(self)@
            }),
            r == completion_status(*entry),
    {
        self.available_entries.set(entry_num, true);
        let delivery_status = match entry.get_delivery_status() {
            Ok(s) => s,
            Err(e) => {
                return Err(e);
            },
        };
        let return_status = match entry.get_return_status() {
            Ok(s) => s,
            Err(e) => {
                return Err(e);
            },
        };
        Ok(CommandCompletionStatus { delivery_status, return_status })
    }

    /// The number of entries of the queue.
    pub fn num_entries(&self) -> (r: usize)
        ensures
            r == self@.available.len(),
    {
        self.available_entries.len()
    }
}

/// The statuses that a completed entry reports, where both are valid.
pub open spec fn completion_status(e: CommandQueueEntry) -> Result<CommandCompletionStatus, CommandQueueError> {
    if forall|s: crate::mlx_ethernet::command_queue::CommandDeliveryStatus| s.code() != e.delivery_status_bits() {
        Err(CommandQueueError::InvalidCommandDeliveryStatus)
    } else if forall|s: crate::mlx_ethernet::command_queue::CommandReturnStatus| s.code() != e.return_status_bits() {
        Err(CommandQueueError::InvalidCommandReturnStatus)
    } else {
        Ok(
            CommandCompletionStatus {
                delivery_status: choose|s: crate::mlx_ethernet::command_queue::CommandDeliveryStatus|
                    s.code() == e.delivery_status_bits(),
                return_status: choose|s: crate::mlx_ethernet::command_queue::CommandReturnStatus|
                    s.code() == e.return_status_bits(),
            },
        )
    }
}


/// Whether the completed entry `e` holds the output of a command of opcode
/// `op`: the device no longer owns it and its opcode is `op`.
pub open spec fn output_validity(e: CommandQueueEntry, op: CommandOpcode) -> Result<(), CommandQueueError> {
    if e.spec_owned_by_hw() {
        Err(CommandQueueError::CommandNotCompleted)
    } else if forall|o: CommandOpcode| o.code() != e.command_input_opcode >> 16 {
        Err(CommandQueueError::InvalidCommandOpcode)
    } else if op.code() != e.command_input_opcode >> 16 {
        Err(CommandQueueError::IncorrectCommandOpcode)
    } else {
        Ok(())
    }
}

/// Checks that the completed entry `e` holds the output of a command of
/// opcode `cmd_opcode`.
pub fn check_command_output_validity(e: &CommandQueueEntry, cmd_opcode: CommandOpcode) -> (r: Result<
    (),
    CommandQueueError,
>)
    ensures
        r == output_validity(*e, cmd_opcode),
{
    if e.owned_by_hw() {
        return Err(CommandQueueError::CommandNotCompleted);
    }
    match e.get_command_opcode() {
        Err(err) => Err(err),
        Ok(op) => if op.value() != cmd_opcode.value() {
            Err(CommandQueueError::IncorrectCommandOpcode)
        } else {
            Ok(())
        },
    }
}

/// What reading the output `value` of a command of opcode `op` from the
/// completed entry `e` in slot `entry_num` gives, and the queue after it:
/// where the entry holds such an output, the slot is freed and the value
/// comes with the command's statuses.
pub open spec fn output_outcome<T>(
    q: QueueView,
    entry_num: usize,
    e: CommandQueueEntry,
    op: CommandOpcode,
    value: Result<T, CommandQueueError>,
) -> (Result<(T, CommandCompletionStatus), CommandQueueError>, QueueView) {
    match output_validity(e, op) {
        Err(err) => (Err(err), q),
        Ok(()) => match value {
            Err(err) => (Err(err), q),
            Ok(v) => (
                match completion_status(e) {
                    Err(err) => Err(err),
                    Ok(s) => Ok((v, s)),
                },
                QueueView { available: q.available.update(entry_num as int, true), ..q },
            ),
        },
    }
}

/// The big-endian word at byte `off` of `d`.
pub open spec fn be32(d: Seq<u8>, off: int) -> u32 {
    ((d[off] as u32) << 24u32) | ((d[off + 1] as u32) << 16u32) | ((d[off + 2] as u32) << 8u32) | (
    d[off + 3] as u32)
}

/// Reads the big-endian word at byte `off` of `d`.
pub fn read_be32(d: &Vec<u8>, off: usize) -> (r: u32)
    requires
        off + 4 <= d@.len(),
    ensures
        r == be32(d@, off as int),
{
    let n = d.len();
    assert(off + 4 <= n);
    ((d[off] as u32) << 24u32) | ((d[off + 1] as u32) << 16u32) | ((d[off + 2] as u32) << 8u32) | (
    d[off + 3] as u32)
}

/// The value of a 24-bit object number held in an output word.
pub open spec fn number_24(word: u32) -> u32 {
    word & 0xFF_FFFF
}

impl CommandQueue {
    /// Reads an output of a command of opcode `op` in slot `entry_num`,
    /// whose value `value` has been read from the entry: checks the entry,
    /// frees the slot and reads the statuses.
    fn finish_output<T>(
        &mut self,
        entry_num: usize,
        e: &CommandQueueEntry,
        op: CommandOpcode,
        value: T,
    ) -> (r: Result<(T, CommandCompletionStatus), CommandQueueError>)
        requires
            entry_num < old(self)@.available.len(),
            output_validity(*e, op) is Ok,
        ensures
            (r, final(self)@) == output_outcome(old(self)@, entry_num, *e, op, Ok::<T, CommandQueueError>(value)),
    {
        match self.get_command_status(entry_num, e) {
            Ok(s) => Ok((value, s)),
            Err(err) => Err(err),
        }
    }

    /// The number of pages that the device asks for (`QueryPages`).
    pub fn get_query_pages_command_output(&mut self, entry_num: usize, e: &CommandQueueEntry) -> (r:
        Result<(u32, CommandCompletionStatus), CommandQueueError>)
        requires
            entry_num < old(self)@.available.len(),
        ensures
            (r, final(self)@) == output_outcome(
                old(self)@,
                entry_num,
                *e,
                CommandOpcode::QueryPages,
                Ok::<u32, CommandQueueError>(e.command_output_inline_data_1),
            ),
    {
        match check_command_output_validity(e, CommandOpcode::QueryPages) {
            Err(err) => Err(err),
            Ok(()) => self.finish_output(entry_num, e, CommandOpcode::QueryPages, e.get_output_inline_data_1()),
        }
    }

    /// The number of a 24-bit object that a command of opcode `op` created
    /// or allocated: its first output word, masked.
    fn get_object_number(&mut self, entry_num: usize, e: &CommandQueueEntry, op: CommandOpcode) -> (r:
        Result<(u32, CommandCompletionStatus), CommandQueueError>)
        requires
            entry_num < old(self)@.available.len(),
        ensures
            (r, final(self)@) == output_outcome(
                old(self)@,
                entry_num,
                *e,
                op,
                Ok::<u32, CommandQueueError>(number_24(e.command_output_inline_data_0)),
            ),
    {
        match check_command_output_validity(e, op) {
            Err(err) => Err(err),
            Ok(()) => self.finish_output(entry_num, e, op, e.get_output_inline_data_0() & 0xFF_FFFF),
        }
    }

    /// The UAR page number (`AllocUar`).
    pub fn get_uar(&mut self, entry_num: usize, e: &CommandQueueEntry) -> (r: Result<
        (u32, CommandCompletionStatus),
        CommandQueueError,
    >)
        requires
            entry_num < old(self)@.available.len(),
        ensures
            (r, final(self)@) == output_outcome(
                old(self)@,
                entry_num,
                *e,
                CommandOpcode::AllocUar,
                Ok::<u32, CommandQueueError>(number_24(e.command_output_inline_data_0)),
            ),
    {
        self.get_object_number(entry_num, e, CommandOpcode::AllocUar)
    }

    /// The protection domain (`AllocPd`).
    pub fn get_protection_domain(&mut self, entry_num: usize, e: &CommandQueueEntry) -> (r: Result<
        (u32, CommandCompletionStatus),
        CommandQueueError,
    >)
        requires
            entry_num < old(self)@.available.len(),
        ensures
            (r, final(self)@) == output_outcome(
                old(self)@,
                entry_num,
                *e,
                CommandOpcode::AllocPd,
                Ok::<u32, CommandQueueError>(number_24(e.command_output_inline_data_0)),
            ),
    {
        self.get_object_number(entry_num, e, CommandOpcode::AllocPd)
    }

    /// The transport domain (`AllocTransportDomain`).
    pub fn get_transport_domain(&mut self, entry_num: usize, e: &CommandQueueEntry) -> (r: Result<
        (u32, CommandCompletionStatus),
        CommandQueueError,
    >)
        requires
            entry_num < old(self)@.available.len(),
        ensures
            (r, final(self)@) == output_outcome(
                old(self)@,
                entry_num,
                *e,
                CommandOpcode::AllocTransportDomain,
                Ok::<u32, CommandQueueError>(number_24(e.command_output_inline_data_0)),
            ),
    {
        self.get_object_number(entry_num, e, CommandOpcode::AllocTransportDomain)
    }

    /// The completion queue number (`CreateCq`).
    pub fn get_cq_number(&mut self, entry_num: usize, e: &CommandQueueEntry) -> (r: Result<
        (u32, CommandCompletionStatus),
        CommandQueueError,
    >)
        requires
            entry_num < old(self)@.available.len(),
        ensures
            (r, final(self)@) == output_outcome(
                old(self)@,
                entry_num,
                *e,
                CommandOpcode::CreateCq,
                Ok::<u32, CommandQueueError>(number_24(e.command_output_inline_data_0)),
            ),
    {
        self.get_object_number(entry_num, e, CommandOpcode::CreateCq)
    }

    /// The transport interface send number (`CreateTis`).
    pub fn get_tis_context_number(&mut self, entry_num: usize, e: &CommandQueueEntry) -> (r: Result<
        (u32, CommandCompletionStatus),
        CommandQueueError,
    >)
        requires
            entry_num < old(self)@.available.len(),
        ensures
            (r, final(self)@) == output_outcome(
                old(self)@,
                entry_num,
                *e,
                CommandOpcode::CreateTis,
                Ok::<u32, CommandQueueError>(number_24(e.command_output_inline_data_0)),
            ),
    {
        self.get_object_number(entry_num, e, CommandOpcode::CreateTis)
    }

    /// The send queue number (`CreateSq`).
    pub fn get_send_queue_number(&mut self, entry_num: usize, e: &CommandQueueEntry) -> (r: Result<
        (u32, CommandCompletionStatus),
        CommandQueueError,
    >)
        requires
            entry_num < old(self)@.available.len(),
        ensures
            (r, final(self)@) == output_outcome(
                old(self)@,
                entry_num,
                *e,
                CommandOpcode::CreateSq,
                Ok::<u32, CommandQueueError>(number_24(e.command_output_inline_data_0)),
            ),
    {
        self.get_object_number(entry_num, e, CommandOpcode::CreateSq)
    }

    /// The receive queue number (`CreateRq`).
    pub fn get_receive_queue_number(&mut self, entry_num: usize, e: &CommandQueueEntry) -> (r: Result<
        (u32, CommandCompletionStatus),
        CommandQueueError,
    >)
        requires
            entry_num < old(self)@.available.len(),
        ensures
            (r, final(self)@) == output_outcome(
                old(self)@,
                entry_num,
                *e,
                CommandOpcode::CreateRq,
                Ok::<u32, CommandQueueError>(number_24(e.command_output_inline_data_0)),
            ),
    {
        self.get_object_number(entry_num, e, CommandOpcode::CreateRq)
    }

    /// The flow table id (`CreateFlowTable`).
    pub fn get_flow_table_id(&mut self, entry_num: usize, e: &CommandQueueEntry) -> (r: Result<
        (u32, CommandCompletionStatus),
        CommandQueueError,
    >)
        requires
            entry_num < old(self)@.available.len(),
        ensures
            (r, final(self)@) == output_outcome(
                old(self)@,
                entry_num,
                *e,
                CommandOpcode::CreateFlowTable,
                Ok::<u32, CommandQueueError>(number_24(e.command_output_inline_data_0)),
            ),
    {
        self.get_object_number(entry_num, e, CommandOpcode::CreateFlowTable)
    }

    /// The flow group id (`CreateFlowGroup`).
    pub fn get_flow_group_id(&mut self, entry_num: usize, e: &CommandQueueEntry) -> (r: Result<
        (u32, CommandCompletionStatus),
        CommandQueueError,
    >)
        requires
            entry_num < old(self)@.available.len(),
        ensures
            (r, final(self)@) == output_outcome(
                old(self)@,
                entry_num,
                *e,
                CommandOpcode::CreateFlowGroup,
                Ok::<u32, CommandQueueError>(number_24(e.command_output_inline_data_0)),
            ),
    {
        self.get_object_number(entry_num, e, CommandOpcode::CreateFlowGroup)
    }

    /// The transport interface receive number (`CreateTir`).
    pub fn get_tir_context_number(&mut self, entry_num: usize, e: &CommandQueueEntry) -> (r: Result<
        (u32, CommandCompletionStatus),
        CommandQueueError,
    >)
        requires
            entry_num < old(self)@.available.len(),
        ensures
            (r, final(self)@) == output_outcome(
                old(self)@,
                entry_num,
                *e,
                CommandOpcode::CreateTir,
                Ok::<u32, CommandQueueError>(number_24(e.command_output_inline_data_0)),
            ),
    {
        self.get_object_number(entry_num, e, CommandOpcode::CreateTir)
    }

    /// The reserved LKey (`QuerySpecialContexts`).
    pub fn get_reserved_lkey(&mut self, entry_num: usize, e: &CommandQueueEntry) -> (r: Result<
        (u32, CommandCompletionStatus),
        CommandQueueError,
    >)
        requires
            entry_num < old(self)@.available.len(),
        ensures
            (r, final(self)@) == output_outcome(
                old(self)@,
                entry_num,
                *e,
                CommandOpcode::QuerySpecialContexts,
                Ok::<u32, CommandQueueError>(e.command_output_inline_data_1),
            ),
    {
        match check_command_output_validity(e, CommandOpcode::QuerySpecialContexts) {
            Err(err) => Err(err),
            Ok(()) => self.finish_output(
                entry_num,
                e,
                CommandOpcode::QuerySpecialContexts,
                e.get_output_inline_data_1(),
            ),
        }
    }

    /// The event queue number (`CreateEq`), the low byte of the first output word.
    pub fn get_eq_number(&mut self, entry_num: usize, e: &CommandQueueEntry) -> (r: Result<
        (u8, CommandCompletionStatus),
        CommandQueueError,
    >)
        requires
            entry_num < old(self)@.available.len(),
        ensures
            (r, final(self)@) == output_outcome(
                old(self)@,
                entry_num,
                *e,
                CommandOpcode::CreateEq,
                Ok::<u8, CommandQueueError>(e.command_output_inline_data_0 as u8),
            ),
    {
        match check_command_output_validity(e, CommandOpcode::CreateEq) {
            Err(err) => Err(err),
            Ok(()) => self.finish_output(
                entry_num,
                e,
                CommandOpcode::CreateEq,
                e.get_output_inline_data_0() as u8,
            ),
        }
    }

    /// The vport state (`QueryVportState`): the maximum transmit speed, the
    /// administrative state and the state.
    pub fn get_vport_state(&mut self, entry_num: usize, e: &CommandQueueEntry) -> (r: Result<
        (u16, u8, u8, CommandCompletionStatus),
        CommandQueueError,
    >)
        requires
            entry_num < old(self)@.available.len(),
        ensures
            ({
                let s = e.command_output_inline_data_1;
                let (o, q) = output_outcome(
                    old(self)@,
                    entry_num,
                    *e,
                    CommandOpcode::QueryVportState,
                    Ok::<(u16, u8, u8), CommandQueueError>(
                        ((s >> 16u32) as u16, (s as u8) >> 4u8, (s as u8) & 0xFu8),
                    ),
                );
                &&& final(self)@ == q
                &&& match o {
                    Ok((v, st)) => r == Ok::<(u16, u8, u8, CommandCompletionStatus), CommandQueueError>(
                        (v.0, v.1, v.2, st),
                    ),
                    Err(err) => r == Err::<(u16, u8, u8, CommandCompletionStatus), CommandQueueError>(
                        err,
                    ),
                }
            }),
    {
        match check_command_output_validity(e, CommandOpcode::QueryVportState) {
            Err(err) => Err(err),
            Ok(()) => {
                let s = e.get_output_inline_data_1();
                let v = ((s >> 16u32) as u16, (s as u8) >> 4u8, (s as u8) & 0xFu8);
                match self.finish_output(entry_num, e, CommandOpcode::QueryVportState, v) {
                    Ok((v, st)) => Ok((v.0, v.1, v.2, st)),
                    Err(err) => Err(err),
                }
            },
        }
    }

    /// The current ISSI version (`QueryIssi`, the first output word) and the
    /// supported ones (the low byte of the word at byte 0x5C of the output mailbox).
    pub fn get_query_issi_command_output(
        &mut self,
        entry_num: usize,
        e: &CommandQueueEntry,
        output: &Vec<u8>,
    ) -> (r: Result<(u16, u8, CommandCompletionStatus), CommandQueueError>)
        requires
            entry_num < old(self)@.available.len(),
            output@.len() == MAILBOX_DATA_SIZE_IN_BYTES,
        ensures
            ({
                let (o, q) = output_outcome(
                    old(self)@,
                    entry_num,
                    *e,
                    CommandOpcode::QueryIssi,
                    Ok::<(u16, u8), CommandQueueError>(
                        (e.command_output_inline_data_0 as u16, be32(output@, 0x5C) as u8),
                    ),
                );
                &&& final(self)@ == q
                &&& match o {
                    Ok((v, st)) => r == Ok::<(u16, u8, CommandCompletionStatus), CommandQueueError>(
                        (v.0, v.1, st),
                    ),
                    Err(err) => r == Err::<(u16, u8, CommandCompletionStatus), CommandQueueError>(err),
                }
            }),
    {
        match check_command_output_validity(e, CommandOpcode::QueryIssi) {
            Err(err) => Err(err),
            Ok(()) => {
                let supported = read_be32(output, 0x5C);
                let current = e.get_output_inline_data_0();
                match self.finish_output(
                    entry_num,
                    e,
                    CommandOpcode::QueryIssi,
                    (current as u16, supported as u8),
                ) {
                    Ok((v, st)) => Ok((v.0, v.1, st)),
                    Err(err) => Err(err),
                }
            },
        }
    }

    /// The maximum MTU (`AccessRegister` reading the PMTU register): the
    /// upper half of the word at byte 4 of the output mailbox.
    pub fn get_max_mtu(&mut self, entry_num: usize, e: &CommandQueueEntry, output: &Vec<u8>) -> (r:
        Result<(u16, CommandCompletionStatus), CommandQueueError>)
        requires
            entry_num < old(self)@.available.len(),
            output@.len() == MAILBOX_DATA_SIZE_IN_BYTES,
        ensures
            (r, final(self)@) == output_outcome(
                old(self)@,
                entry_num,
                *e,
                CommandOpcode::AccessRegister,
                Ok::<u16, CommandQueueError>((be32(output@, 4) >> 16u32) as u16),
            ),
    {
        match check_command_output_validity(e, CommandOpcode::AccessRegister) {
            Err(err) => Err(err),
            Ok(()) => {
                let word = read_be32(output, 4);
                self.finish_output(entry_num, e, CommandOpcode::AccessRegister, (word >> 16u32) as u16)
            },
        }
    }

    /// The port's MAC address (`QueryNicVportContext`), from the permanent
    /// address words at bytes 244 and 248 of the output mailbox.
    pub fn get_vport_mac_address(&mut self, entry_num: usize, e: &CommandQueueEntry, output: &Vec<u8>) -> (r:
        Result<([u8; 6], CommandCompletionStatus), CommandQueueError>)
        requires
            entry_num < old(self)@.available.len(),
            output@.len() == MAILBOX_DATA_SIZE_IN_BYTES,
        ensures
            ({
                let h = be32(output@, 244);
                let l = be32(output@, 248);
                let (o, q) = output_outcome(
                    old(self)@,
                    entry_num,
                    *e,
                    CommandOpcode::QueryNicVportContext,
                    Ok::<Seq<u8>, CommandQueueError>(
                        seq![
                            (h >> 8u32) as u8,
                            h as u8,
                            (l >> 24u32) as u8,
                            (l >> 16u32) as u8,
                            (l >> 8u32) as u8,
                            l as u8,
                        ],
                    ),
                );
                &&& final(self)@ == q
                &&& match o {
                    Ok((v, st)) => r matches Ok((mac, st2)) && mac@ == v && st2 == st,
                    Err(err) => r matches Err(e2) && e2 == err,
                }
            }),
    {
        match check_command_output_validity(e, CommandOpcode::QueryNicVportContext) {
            Err(err) => Err(err),
            Ok(()) => {
                let h = read_be32(output, 244);
                let l = read_be32(output, 248);
                let mac: [u8; 6] = [
                    (h >> 8u32) as u8,
                    h as u8,
                    (l >> 24u32) as u8,
                    (l >> 16u32) as u8,
                    (l >> 8u32) as u8,
                    l as u8,
                ];
                let ghost v = seq![
                    (h >> 8u32) as u8,
                    h as u8,
                    (l >> 24u32) as u8,
                    (l >> 16u32) as u8,
                    (l >> 8u32) as u8,
                    l as u8,
                ];
                assert(mac@ =~= v);
                match self.get_command_status(entry_num, e) {
                    Ok(st) => Ok((mac, st)),
                    Err(err) => Err(err),
                }
            },
        }
    }
}


/// The 64 big-endian words at the start of the output mailbox `d`.
pub open spec fn output_words(d: Seq<u8>) -> Seq<u32> {
    Seq::new(64, |i: int| be32(d, 4 * i))
}

/// The port type bits of the word at byte 0x34 of the `QueryHcaCap` output.
pub open spec fn port_type_bits(d: Seq<u8>) -> u8 {
    ((be32(d, 0x34) & 0x300u32) >> 8u32) as u8
}

impl CommandQueue {
    /// The port type (`QueryHcaCap`), where its bits name one.
    pub fn get_port_type(&mut self, entry_num: usize, e: &CommandQueueEntry, output: &Vec<u8>) -> (r:
        Result<(crate::mlx_ethernet::command_queue::HcaPortType, CommandCompletionStatus), CommandQueueError>)
        requires
            entry_num < old(self)@.available.len(),
            output@.len() == MAILBOX_DATA_SIZE_IN_BYTES,
        ensures
            (r, final(self)@) == output_outcome(
                old(self)@,
                entry_num,
                *e,
                CommandOpcode::QueryHcaCap,
                if forall|t: crate::mlx_ethernet::command_queue::HcaPortType| t.code() != port_type_bits(
                    output@,
                ) {
                    Err::<crate::mlx_ethernet::command_queue::HcaPortType, CommandQueueError>(
                        CommandQueueError::InvalidPortType,
                    )
                } else {
                    Ok(
                        choose|t: crate::mlx_ethernet::command_queue::HcaPortType|
                            t.code() == port_type_bits(output@),
                    )
                },
            ),
    {
        match check_command_output_validity(e, CommandOpcode::QueryHcaCap) {
            Err(err) => Err(err),
            Ok(()) => {
                let word = read_be32(output, 0x34);
                let bits = ((word & 0x300u32) >> 8u32) as u8;
                match crate::mlx_ethernet::command_queue::HcaPortType::from_value(bits) {
                    None => Err(CommandQueueError::InvalidPortType),
                    Some(t) => {
                        proof {
                            let c = choose|u: crate::mlx_ethernet::command_queue::HcaPortType|
                                u.code() == port_type_bits(output@);
                            assert(t.code() == port_type_bits(output@));
                            assert(c == t) by {
                                assert(c.code() == t.code());
                            }
                        }
                        self.finish_output(entry_num, e, CommandOpcode::QueryHcaCap, t)
                    },
                }
            },
        }
    }

    /// The device capabilities (`QueryHcaCap`), read from the output mailbox.
    pub fn get_device_capabilities(&mut self, entry_num: usize, e: &CommandQueueEntry, output: &Vec<u8>) -> (r:
        Result<(crate::mlx_ethernet::capabilities::HCACapabilities, CommandCompletionStatus), CommandQueueError>)
        requires
            entry_num < old(self)@.available.len(),
            output@.len() == MAILBOX_DATA_SIZE_IN_BYTES,
        ensures
            (r, final(self)@) == output_outcome(
                old(self)@,
                entry_num,
                *e,
                CommandOpcode::QueryHcaCap,
                Ok::<crate::mlx_ethernet::capabilities::HCACapabilities, CommandQueueError>(
                    crate::mlx_ethernet::capabilities::HCACapabilitiesLayout::layout_of_words(
                        output_words(output@),
                    ).capabilities(),
                ),
            ),
    {
        match check_command_output_validity(e, CommandOpcode::QueryHcaCap) {
            Err(err) => Err(err),
            Ok(()) => {
                let mut words: Vec<u32> = Vec::new();
                let mut i: usize = 0;
                while i < 64
                    invariant
                        i <= 64,
                        output@.len() == MAILBOX_DATA_SIZE_IN_BYTES,
                        words@ == output_words(output@).subrange(0, i as int),
                    decreases 64 - i,
                {
                    words.push(read_be32(output, 4 * i));
                    assert(words@ =~= output_words(output@).subrange(0, i + 1));
                    i = i + 1;
                }
                assert(words@ =~= output_words(output@));
                let layout = crate::mlx_ethernet::capabilities::HCACapabilitiesLayout::from_words(&words);
                self.finish_output(entry_num, e, CommandOpcode::QueryHcaCap, layout.get_capabilities())
            },
        }
    }

    /// The state of a send queue (`QuerySq`), from the context at byte 0x10
    /// of the output mailbox, where its bits name one.
    pub fn get_sq_state(&mut self, entry_num: usize, e: &CommandQueueEntry, output: &Vec<u8>) -> (r: Result<
        (SendQueueState, CommandCompletionStatus),
        CommandQueueError,
    >)
        requires
            entry_num < old(self)@.available.len(),
            output@.len() == MAILBOX_DATA_SIZE_IN_BYTES,
        ensures
            (r, final(self)@) == output_outcome(
                old(self)@,
                entry_num,
                *e,
                CommandOpcode::QuerySq,
                if forall|t: SendQueueState| t.code() != crate::mlx_ethernet::contexts::state_bits(
                    be32(output@, 0x10),
                ) {
                    Err::<SendQueueState, CommandQueueError>(CommandQueueError::InvalidSQState)
                } else {
                    Ok(
                        choose|t: SendQueueState|
                            t.code() == crate::mlx_ethernet::contexts::state_bits(be32(output@, 0x10)),
                    )
                },
            ),
    {
        match check_command_output_validity(e, CommandOpcode::QuerySq) {
            Err(err) => Err(err),
            Ok(()) => {
                let word = read_be32(output, 0x10);
                let ctx = SendQueueContext { rlky_state: word, ..SendQueueContext::zeroed() };
                match ctx.get_state() {
                    Err(_) => Err(CommandQueueError::InvalidSQState),
                    Ok(t) => {
                        proof {
                            let c = choose|u: SendQueueState|
                                u.code() == crate::mlx_ethernet::contexts::state_bits(word);
                            assert(c == t) by {
                                assert(c.code() == t.code());
                            }
                        }
                        self.finish_output(entry_num, e, CommandOpcode::QuerySq, t)
                    },
                }
            },
        }
    }
}

proof fn lemma_least_free(av: Seq<bool>, w: int)
    requires
        0 <= w < av.len(),
        av[w],
    ensures
        exists|i: int| 0 <= i < av.len() && av[i] && forall|j: int| 0 <= j < i ==> !av[j],
    decreases w,
{
    if exists|j: int| 0 <= j < w && av[j] {
        let j = choose|j: int| 0 <= j < w && av[j];
        lemma_least_free(av, j);
    } else {
        assert(0 <= w < av.len() && av[w] && forall|j: int| 0 <= j < w ==> !av[j]);
    }
}

pub(crate) proof fn lemma_first_free(av: Seq<bool>)
    ensures
        first_free(av) matches Some(i) ==> 0 <= i < av.len() && av[i] && forall|j: int| 0 <= j < i ==> !av[j],
        first_free(av) is None <==> forall|i: int| 0 <= i < av.len() ==> !av[i],
{
    if exists|i: int| 0 <= i < av.len() && av[i] {
        let w = choose|i: int| 0 <= i < av.len() && av[i];
        lemma_least_free(av, w);
    }
}

/// A command that is created takes the first entry of the queue that is not
/// in use, with the queue's current token; that entry is then in use, every
/// other entry is as it was, and the token advances by one (wrapping).
pub proof fn law_create_claims_first_free_entry(q: QueueView, p: BuilderView, fresh: Seq<u64>)
    requires
        q.available.len() <= usize::MAX,
    ensures
        create_outcome(q, p, fresh).result matches Ok(c) ==> {
            let o = create_outcome(q, p, fresh);
            &&& first_free(q.available) == Some(c.entry_num as int)
            &&& 0 <= c.entry_num < q.available.len()
            &&& q.available[c.entry_num as int]
            &&& forall|j: int| 0 <= j < c.entry_num ==> !q.available[j]
            &&& o.queue.available == q.available.update(c.entry_num as int, false)
            &&& c.token == q.token
            &&& o.queue.token == q.token.wrapping_add(1)
        },
{
    lemma_first_free(q.available);
}

/// Reading back the status of a command that was created frees its entry:
/// the queue's entries are then in use exactly as before the command.
pub proof fn law_status_frees_created_entry(q: QueueView, p: BuilderView, fresh: Seq<u64>)
    requires
        q.available.len() <= usize::MAX,
    ensures
        create_outcome(q, p, fresh).result matches Ok(c) ==> create_outcome(q, p, fresh).queue.available.update(
            c.entry_num as int,
            true,
        ) == q.available,
{
    lemma_first_free(q.available);
    if create_outcome(q, p, fresh).result is Ok {
        let c = create_outcome(q, p, fresh).result->Ok_0;
        assert(create_outcome(q, p, fresh).queue.available.update(c.entry_num as int, true) =~= q.available);
    }
}

/// A command is refused for want of an entry when every entry is in use,
/// and a command that fails leaves the queue's entries and token as they were.
pub proof fn law_create_without_free_entry(q: QueueView, p: BuilderView, fresh: Seq<u64>)
    ensures
        (forall|i: int| 0 <= i < q.available.len() ==> !q.available[i]) ==> create_outcome(q, p, fresh).result
            == Err::<PreparedView, CommandQueueError>(CommandQueueError::NoCommandEntryAvailable),
        create_outcome(q, p, fresh).result is Err ==> create_outcome(q, p, fresh).queue.available == q.available
            && create_outcome(q, p, fresh).queue.token == q.token,
{
    lemma_first_free(q.available);
}

} // verus!
