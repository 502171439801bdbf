//! Bringing up a ConnectX-5 NIC (PRM section 7.2, "HCA Driver Start-up"):
//! the checks on the driver's arguments and on the device's answers, and
//! the start-up sequence as a state machine. The machine says what to do
//! next (run a command, hand pages to the device, map memory) and takes the
//! result; the caller does the work on the device.

use vstd::prelude::*;
use crate::mlx_ethernet::commands::{CommandBuilder, BuilderView, new_builder, create_outcome, QueueView};
use crate::mlx_ethernet::command_queue::CommandOpcode;
use crate::mlx_ethernet::capabilities::HCACapabilities;

verus! {

/// Vendor ID of Mellanox.
pub const MLX_VEND: u16 = 0x15B3;
/// Device ID of the ConnectX-5-EX NIC.
pub const CONNECTX5_EX_DEV: u16 = 0x1019;
/// Device ID of the ConnectX-5 NIC.
pub const CONNECTX5_DEV: u16 = 0x1017;
/// The number of entries of the send completion queue, all collapsed into the first.
pub const NUM_CQ_ENTRIES_SEND: usize = 1;
/// The number of preallocated receive buffers.
pub const RX_BUFFER_POOL_SIZE: usize = 512;
/// The size of a page.
pub const PAGE_SIZE: usize = 4096;
/// The number of entries of the event queue.
pub const NUM_EQ_ENTRIES: usize = 64;
/// The size of a command queue entry, which must be the entries' stride.
pub const COMMAND_QUEUE_ENTRY_SIZE: usize = 64;
/// The size of a send work queue entry.
pub const SEND_WQE_BYTES: usize = 64;
/// The size of a receive work queue entry.
pub const RECEIVE_WQE_BYTES: usize = 16;
/// The size of an event or completion queue entry.
pub const QUEUE_ENTRY_BYTES: usize = 64;
/// The size of a doorbell record.
pub const DOORBELL_BYTES: usize = 8;

/// `n` is a power of two: a single bit is set.
pub open spec fn is_power_of_two(n: usize) -> bool {
    n != 0 && n & ((n - 1) as usize) == 0
}

/// The sizes in bytes of the send and receive queues of `num_tx_descs` and
/// `num_rx_descs` descriptors, where the receive queue ends on a page
/// boundary and both numbers are powers of two.
pub open spec fn queue_sizes(num_tx_descs: usize, num_rx_descs: usize) -> Result<(usize, usize), &'static str> {
    let sq = num_tx_descs * SEND_WQE_BYTES;
    let rq = num_rx_descs * RECEIVE_WQE_BYTES;
    if rq % (PAGE_SIZE as int) != 0 {
        Err("RQ size in bytes must be a multiple of the page size.")
    } else if !is_power_of_two(num_tx_descs) || !is_power_of_two(num_rx_descs) {
        Err("The number of descriptors must be a power of two.")
    } else {
        Ok((sq as usize, rq as usize))
    }
}

/// The message with which the start-up refuses descriptor rings whose
/// completion queue or queue memory would not fit in the address space.
pub const RINGS_TOO_LARGE: &'static str = "The descriptor rings do not fit in the address space.";

/// What the start-up sequence makes of `num_tx_descs` and `num_rx_descs`:
/// the checks of `queue_sizes`, and then the refusal of rings whose
/// receive completion queue, or whose send and receive queues together, do
/// not fit in the address space.
pub open spec fn init_sizes(num_tx_descs: usize, num_rx_descs: usize) -> Result<(usize, usize), &'static str> {
    match queue_sizes(num_tx_descs, num_rx_descs) {
        Err(m) => Err(m),
        Ok((sq, rq)) => if num_rx_descs * QUEUE_ENTRY_BYTES > usize::MAX || rq + sq > usize::MAX {
            Err(RINGS_TOO_LARGE)
        } else {
            Ok((sq, rq))
        },
    }
}

/// Checks the numbers of descriptors and returns the sizes of the send and
/// receive queues in bytes.
pub fn check_queue_sizes(num_tx_descs: usize, num_rx_descs: usize) -> (r: Result<(usize, usize), &'static str>)
    requires
        num_tx_descs * SEND_WQE_BYTES <= usize::MAX,
        num_rx_descs * RECEIVE_WQE_BYTES <= usize::MAX,
    ensures
        r == queue_sizes(num_tx_descs, num_rx_descs),
{
    let sq_size_in_bytes = num_tx_descs * SEND_WQE_BYTES;
    let rq_size_in_bytes = num_rx_descs * RECEIVE_WQE_BYTES;
    if rq_size_in_bytes % PAGE_SIZE != 0 {
        return Err("RQ size in bytes must be a multiple of the page size.");
    }
    let tx_pow2 = num_tx_descs != 0 && num_tx_descs & (num_tx_descs - 1) == 0;
    let rx_pow2 = num_rx_descs != 0 && num_rx_descs & (num_rx_descs - 1) == 0;
    if !tx_pow2 || !rx_pow2 {
        return Err("The number of descriptors must be a power of two.");
    }
    Ok((sq_size_in_bytes, rq_size_in_bytes))
}

/// Checks that the command queue's entries lie one entry size apart, as the
/// driver's layout of the queue assumes, and returns the queue's size.
pub fn check_cmdq_layout(num_cmdq_entries: usize, cmdq_stride: usize) -> (r: Result<usize, &'static str>)
    requires
        num_cmdq_entries * COMMAND_QUEUE_ENTRY_SIZE <= usize::MAX,
    ensures
        cmdq_stride != COMMAND_QUEUE_ENTRY_SIZE ==> r == Err::<usize, &'static str>(
            "Command Queue layout is no longer accurate due to invalid assumption.",
        ),
        cmdq_stride == COMMAND_QUEUE_ENTRY_SIZE ==> r == Ok::<usize, &'static str>(
            (num_cmdq_entries * cmdq_stride) as usize,
        ),
{
    if cmdq_stride != COMMAND_QUEUE_ENTRY_SIZE {
        return Err("Command Queue layout is no longer accurate due to invalid assumption.");
    }
    Ok(num_cmdq_entries * cmdq_stride)
}

/// The ISSI version that the driver uses, as its bit in the available versions.
pub const ISSI_VERSION_1: u8 = 0x2;

/// The address of the UAR page `uar`: the page of that number from the
/// start of the device's memory.
pub open spec fn uar_address(mem_base: u64, uar: u32) -> int {
    mem_base + uar * PAGE_SIZE
}

/// The steps of the start-up sequence.
#[derive(Debug, Clone, Copy, PartialEq, Eq, Structural)]
pub enum InitStage {
    EnableHca,
    QueryIssi,
    SetIssi,
    QueryBootPages,
    AllocateBootPages,
    GiveBootPages,
    QueryCurrentCaps,
    QueryMaxCaps,
    QueryInitPages,
    AllocateInitPages,
    GiveInitPages,
    InitHca,
    QueryRegularPages,
    AllocateRegularPages,
    GiveRegularPages,
    QueryMac,
    QueryVport,
    QueryMaxMtu,
    SetPortMtu,
    SetVportMtu,
    AllocUar,
    MapEq,
    CreateEq,
    AllocPd,
    AllocTd,
    QuerySpecialContexts,
    MapSendCq,
    CreateSendCq,
    MapReceiveCq,
    CreateReceiveCq,
    CreateTis,
    MapQueues,
    CreateSq,
    CreateRq,
    ModifySq,
    ModifyRq,
    QueryVportAgain,
    CreateFlowTable,
    CreateFlowGroup,
    CreateTir,
    SetFlowTableEntry,
    SetFlowTableRoot,
    Done,
}

/// What the driver learns from the device and the memory it maps during
/// start-up, and where it stands.
pub struct NicInit {
    pub stage: InitStage,
    pub num_tx_descs: usize,
    pub num_rx_descs: usize,
    pub mtu: u16,
    pub sq_bytes: usize,
    pub rq_bytes: usize,
    pub mem_base: u64,
    /// The number of pages the device asked for last
    pub page_count: u32,
    /// Pages mapped for the device, not yet handed to it
    pub pending_pages: Vec<u64>,
    pub current_capabilities: Option<HCACapabilities>,
    pub max_capabilities: Option<HCACapabilities>,
    pub mac_addr: [u8; 6],
    pub max_mtu: u16,
    pub uar: u32,
    pub eq_pa: u64,
    pub eqn: u8,
    pub pd: u32,
    pub td: u32,
    pub rlkey: u32,
    pub send_cq_pa: u64,
    pub send_cq_db_pa: u64,
    pub cqn_s: u32,
    pub recv_cq_pa: u64,
    pub recv_cq_db_pa: u64,
    pub cqn_r: u32,
    pub tisn: u32,
    pub q_pa: u64,
    pub db_pa: u64,
    pub sqn: u32,
    pub rqn: u32,
    pub ft_id: u32,
    pub fg_id: u32,
    pub tirn: u32,
}

/// What the driver does next.
pub enum InitAction {
    /// Run this command and report its output
    Execute(CommandBuilder),
    /// Map this many pages for the device and report their addresses
    AllocatePages(usize),
    /// Map physically contiguous memory of each of these sizes and report
    /// the physical addresses
    MapMemory(Vec<usize>),
    /// Start-up is complete
    Done,
}

/// `InitAction` as a specification value.
pub enum ActionView {
    Execute(BuilderView),
    AllocatePages(usize),
    MapMemory(Seq<usize>),
    Done,
}

impl View for InitAction {
    type V = ActionView;

    open spec fn view(&self) -> ActionView {
        match self {
            InitAction::Execute(b) => ActionView::Execute(b@),
            InitAction::AllocatePages(n) => ActionView::AllocatePages(*n),
            InitAction::MapMemory(v) => ActionView::MapMemory(v@),
            InitAction::Done => ActionView::Done,
        }
    }
}

/// What the driver reports after an action.
pub enum InitEvent {
    /// The command completed with no output that the driver keeps
    Completed,
    /// The number or value that the command returned
    Value(u32),
    /// The available ISSI versions
    Issi(u8),
    /// The device capabilities
    Capabilities(HCACapabilities),
    /// The MAC address
    Mac([u8; 6]),
    /// The maximum MTU
    MaxMtu(u16),
    /// The event queue number
    Eqn(u8),
    /// The physical addresses of what was mapped
    Addresses(Vec<u64>),
}

/// `InitEvent` as a specification value.
pub enum EventView {
    Completed,
    Value(u32),
    Issi(u8),
    Capabilities(HCACapabilities),
    Mac(Seq<u8>),
    MaxMtu(u16),
    Eqn(u8),
    Addresses(Seq<u64>),
}

impl View for InitEvent {
    type V = EventView;

    open spec fn view(&self) -> EventView {
        match self {
            InitEvent::Completed => EventView::Completed,
            InitEvent::Value(v) => EventView::Value(*v),
            InitEvent::Issi(v) => EventView::Issi(*v),
            InitEvent::Capabilities(c) => EventView::Capabilities(*c),
            InitEvent::Mac(m) => EventView::Mac(m@),
            InitEvent::MaxMtu(m) => EventView::MaxMtu(*m),
            InitEvent::Eqn(e) => EventView::Eqn(*e),
            InitEvent::Addresses(a) => EventView::Addresses(a@),
        }
    }
}

/// `NicInit` as a specification value.
pub struct InitView {
    pub stage: InitStage,
    pub num_tx_descs: usize,
    pub num_rx_descs: usize,
    pub mtu: u16,
    pub sq_bytes: usize,
    pub rq_bytes: usize,
    pub mem_base: u64,
    pub page_count: u32,
    pub pending_pages: Seq<u64>,
    pub current_capabilities: Option<HCACapabilities>,
    pub max_capabilities: Option<HCACapabilities>,
    pub mac_addr: Seq<u8>,
    pub max_mtu: u16,
    pub uar: u32,
    pub eq_pa: u64,
    pub eqn: u8,
    pub pd: u32,
    pub td: u32,
    pub rlkey: u32,
    pub send_cq_pa: u64,
    pub send_cq_db_pa: u64,
    pub cqn_s: u32,
    pub recv_cq_pa: u64,
    pub recv_cq_db_pa: u64,
    pub cqn_r: u32,
    pub tisn: u32,
    pub q_pa: u64,
    pub db_pa: u64,
    pub sqn: u32,
    pub rqn: u32,
    pub ft_id: u32,
    pub fg_id: u32,
    pub tirn: u32,
}

impl View for NicInit {
    type V = InitView;

    open spec fn view(&self) -> InitView {
        InitView {
            stage: self.stage,
            num_tx_descs: self.num_tx_descs,
            num_rx_descs: self.num_rx_descs,
            mtu: self.mtu,
            sq_bytes: self.sq_bytes,
            rq_bytes: self.rq_bytes,
            mem_base: self.mem_base,
            page_count: self.page_count,
            pending_pages: self.pending_pages@,
            current_capabilities: self.current_capabilities,
            max_capabilities: self.max_capabilities,
            mac_addr: self.mac_addr@,
            max_mtu: self.max_mtu,
            uar: self.uar,
            eq_pa: self.eq_pa,
            eqn: self.eqn,
            pd: self.pd,
            td: self.td,
            rlkey: self.rlkey,
            send_cq_pa: self.send_cq_pa,
            send_cq_db_pa: self.send_cq_db_pa,
            cqn_s: self.cqn_s,
            recv_cq_pa: self.recv_cq_pa,
            recv_cq_db_pa: self.recv_cq_db_pa,
            cqn_r: self.cqn_r,
            tisn: self.tisn,
            q_pa: self.q_pa,
            db_pa: self.db_pa,
            sqn: self.sqn,
            rqn: self.rqn,
            ft_id: self.ft_id,
            fg_id: self.fg_id,
            tirn: self.tirn,
        }
    }
}

/// The command with only `opcode` and `opmod` set.
pub open spec fn cmd_opmod(opcode: CommandOpcode, opmod: u16) -> BuilderView {
    BuilderView { opmod: Some(opmod), ..new_builder(opcode) }
}

/// What the driver does at each step of the start-up sequence.
pub open spec fn action_spec(s: InitView) -> ActionView {
    match s.stage {
        InitStage::EnableHca => ActionView::Execute(new_builder(CommandOpcode::EnableHca)),
        InitStage::QueryIssi => ActionView::Execute(new_builder(CommandOpcode::QueryIssi)),
        InitStage::SetIssi => ActionView::Execute(new_builder(CommandOpcode::SetIssi)),
        InitStage::QueryBootPages => ActionView::Execute(cmd_opmod(CommandOpcode::QueryPages, 1)),
        InitStage::QueryInitPages => ActionView::Execute(cmd_opmod(CommandOpcode::QueryPages, 2)),
        InitStage::QueryRegularPages => ActionView::Execute(cmd_opmod(CommandOpcode::QueryPages, 3)),
        InitStage::AllocateBootPages | InitStage::AllocateInitPages
        | InitStage::AllocateRegularPages => ActionView::AllocatePages(s.page_count as usize),
        InitStage::GiveBootPages | InitStage::GiveInitPages | InitStage::GiveRegularPages => ActionView::Execute(
            BuilderView {
                allocated_pages: Some(s.pending_pages),
                ..cmd_opmod(CommandOpcode::ManagePages, 1)
            },
        ),
        InitStage::QueryCurrentCaps => ActionView::Execute(cmd_opmod(CommandOpcode::QueryHcaCap, 1)),
        InitStage::QueryMaxCaps => ActionView::Execute(cmd_opmod(CommandOpcode::QueryHcaCap, 0)),
        InitStage::InitHca => ActionView::Execute(new_builder(CommandOpcode::InitHca)),
        InitStage::QueryMac => ActionView::Execute(new_builder(CommandOpcode::QueryNicVportContext)),
        InitStage::QueryVport | InitStage::QueryVportAgain => ActionView::Execute(
            new_builder(CommandOpcode::QueryVportState),
        ),
        InitStage::QueryMaxMtu => ActionView::Execute(cmd_opmod(CommandOpcode::AccessRegister, 1)),
        InitStage::SetPortMtu => ActionView::Execute(
            BuilderView { mtu: Some(s.mtu), ..cmd_opmod(CommandOpcode::AccessRegister, 0) },
        ),
        InitStage::SetVportMtu => ActionView::Execute(
            BuilderView { mtu: Some(s.mtu), ..new_builder(CommandOpcode::ModifyNicVportContext) },
        ),
        InitStage::AllocUar => ActionView::Execute(new_builder(CommandOpcode::AllocUar)),
        InitStage::MapEq => ActionView::MapMemory(seq![(NUM_EQ_ENTRIES * QUEUE_ENTRY_BYTES) as usize]),
        InitStage::CreateEq => ActionView::Execute(
            BuilderView {
                allocated_pages: Some(seq![s.eq_pa]),
                user_access_region: Some(s.uar),
                queue_size: Some(NUM_EQ_ENTRIES as u32),
                ..new_builder(CommandOpcode::CreateEq)
            },
        ),
        InitStage::AllocPd => ActionView::Execute(new_builder(CommandOpcode::AllocPd)),
        InitStage::AllocTd => ActionView::Execute(new_builder(CommandOpcode::AllocTransportDomain)),
        InitStage::QuerySpecialContexts => ActionView::Execute(
            new_builder(CommandOpcode::QuerySpecialContexts),
        ),
        InitStage::MapSendCq => ActionView::MapMemory(
            seq![(NUM_CQ_ENTRIES_SEND * QUEUE_ENTRY_BYTES) as usize, DOORBELL_BYTES],
        ),
        InitStage::CreateSendCq => ActionView::Execute(
            BuilderView {
                allocated_pages: Some(seq![s.send_cq_pa]),
                user_access_region: Some(s.uar),
                queue_size: Some(NUM_CQ_ENTRIES_SEND as u32),
                event_queue_num: Some(s.eqn),
                doorbell_page: Some(s.send_cq_db_pa),
                collapsed_cq: true,
                ..new_builder(CommandOpcode::CreateCq)
            },
        ),
        InitStage::MapReceiveCq => ActionView::MapMemory(
            seq![(s.num_rx_descs * QUEUE_ENTRY_BYTES) as usize, DOORBELL_BYTES],
        ),
        InitStage::CreateReceiveCq => ActionView::Execute(
            BuilderView {
                allocated_pages: Some(seq![s.recv_cq_pa]),
                user_access_region: Some(s.uar),
                queue_size: Some(s.num_rx_descs as u32),
                event_queue_num: Some(s.eqn),
                doorbell_page: Some(s.recv_cq_db_pa),
                ..new_builder(CommandOpcode::CreateCq)
            },
        ),
        InitStage::CreateTis => ActionView::Execute(
            BuilderView { transport_domain: Some(s.td), ..new_builder(CommandOpcode::CreateTis) },
        ),
        InitStage::MapQueues => ActionView::MapMemory(seq![(s.rq_bytes + s.sq_bytes) as usize, DOORBELL_BYTES]),
        InitStage::CreateSq => ActionView::Execute(
            BuilderView {
                allocated_pages: Some(seq![(s.q_pa + s.rq_bytes) as u64]),
                user_access_region: Some(s.uar),
                queue_size: Some(s.num_tx_descs as u32),
                doorbell_page: Some(s.db_pa),
                completion_queue_num: Some(s.cqn_s),
                transport_interface_send_num: Some(s.tisn),
                protection_domain: Some(s.pd),
                ..new_builder(CommandOpcode::CreateSq)
            },
        ),
        InitStage::CreateRq => ActionView::Execute(
            BuilderView {
                allocated_pages: Some(seq![s.q_pa]),
                queue_size: Some(s.num_rx_descs as u32),
                doorbell_page: Some(s.db_pa),
                completion_queue_num: Some(s.cqn_r),
                protection_domain: Some(s.pd),
                ..new_builder(CommandOpcode::CreateRq)
            },
        ),
        InitStage::ModifySq => ActionView::Execute(
            BuilderView { send_queue_num: Some(s.sqn), ..new_builder(CommandOpcode::ModifySq) },
        ),
        InitStage::ModifyRq => ActionView::Execute(
            BuilderView { receive_queue_num: Some(s.rqn), ..new_builder(CommandOpcode::ModifyRq) },
        ),
        InitStage::CreateFlowTable => ActionView::Execute(
            BuilderView { queue_size: Some(1), ..new_builder(CommandOpcode::CreateFlowTable) },
        ),
        InitStage::CreateFlowGroup => ActionView::Execute(
            BuilderView { flow_table_id: Some(s.ft_id), ..new_builder(CommandOpcode::CreateFlowGroup) },
        ),
        InitStage::CreateTir => ActionView::Execute(
            BuilderView {
                receive_queue_num: Some(s.rqn),
                transport_domain: Some(s.td),
                ..new_builder(CommandOpcode::CreateTir)
            },
        ),
        InitStage::SetFlowTableEntry => ActionView::Execute(
            BuilderView {
                flow_table_id: Some(s.ft_id),
                flow_group_id: Some(s.fg_id),
                transport_interface_receive_num: Some(s.tirn),
                ..new_builder(CommandOpcode::SetFlowTableEntry)
            },
        ),
        InitStage::SetFlowTableRoot => ActionView::Execute(
            BuilderView { flow_table_id: Some(s.ft_id), ..new_builder(CommandOpcode::SetFlowTableRoot) },
        ),
        InitStage::Done => ActionView::Done,
    }
}


/// The event that the driver reports after the action of `stage`.
pub open spec fn expects(s: InitView, e: EventView) -> bool {
    match s.stage {
        InitStage::EnableHca | InitStage::SetIssi | InitStage::GiveBootPages | InitStage::GiveInitPages
        | InitStage::GiveRegularPages | InitStage::InitHca | InitStage::QueryVport | InitStage::SetPortMtu
        | InitStage::SetVportMtu | InitStage::ModifySq | InitStage::ModifyRq | InitStage::QueryVportAgain
        | InitStage::SetFlowTableEntry | InitStage::SetFlowTableRoot => e is Completed,
        InitStage::QueryIssi => e is Issi,
        InitStage::QueryBootPages | InitStage::QueryInitPages | InitStage::QueryRegularPages
        | InitStage::AllocUar | InitStage::AllocPd | InitStage::AllocTd | InitStage::QuerySpecialContexts
        | InitStage::CreateSendCq | InitStage::CreateReceiveCq | InitStage::CreateTis | InitStage::CreateSq
        | InitStage::CreateRq | InitStage::CreateFlowTable | InitStage::CreateFlowGroup
        | InitStage::CreateTir => e is Value,
        InitStage::AllocateBootPages | InitStage::AllocateInitPages | InitStage::AllocateRegularPages => e matches EventView::Addresses(
            a,
        ) && a.len() == s.page_count,
        InitStage::QueryCurrentCaps | InitStage::QueryMaxCaps => e is Capabilities,
        InitStage::QueryMac => e matches EventView::Mac(m) && m.len() == 6,
        InitStage::QueryMaxMtu => e is MaxMtu,
        InitStage::MapEq => e matches EventView::Addresses(a) && a.len() == 1,
        InitStage::MapSendCq | InitStage::MapReceiveCq => e matches EventView::Addresses(a) && a.len() == 2,
        InitStage::MapQueues => e matches EventView::Addresses(a) && a.len() == 2 && a[0] + s.rq_bytes
            <= u64::MAX,
        InitStage::CreateEq => e is Eqn,
        InitStage::Done => false,
    }
}

/// `s` moved on to `stage`.
pub open spec fn at(s: InitView, stage: InitStage) -> InitView {
    InitView { stage, ..s }
}

/// What the report `e` of the action of `s`'s stage does: the driver keeps
/// what it needs, checks the ISSI versions and the MTU, skips handing pages
/// to the device where it asked for none, and moves on.
pub open spec fn handle_spec(s: InitView, e: EventView) -> Result<InitView, &'static str> {
    match (s.stage, e) {
        (InitStage::EnableHca, _) => Ok(at(s, InitStage::QueryIssi)),
        (InitStage::QueryIssi, EventView::Issi(available)) => if available & ISSI_VERSION_1 == ISSI_VERSION_1 {
            Ok(at(s, InitStage::SetIssi))
        } else {
            Err("ISSI indicated by PRM is not supported")
        },
        (InitStage::SetIssi, _) => Ok(at(s, InitStage::QueryBootPages)),
        (InitStage::QueryBootPages, EventView::Value(n)) => Ok(
            InitView { page_count: n, ..at(s, InitStage::AllocateBootPages) },
        ),
        (InitStage::AllocateBootPages, EventView::Addresses(a)) => Ok(
            InitView { pending_pages: a, ..at(s, InitStage::GiveBootPages) },
        ),
        (InitStage::GiveBootPages, _) => Ok(
            InitView { pending_pages: Seq::empty(), ..at(s, InitStage::QueryCurrentCaps) },
        ),
        (InitStage::QueryCurrentCaps, EventView::Capabilities(c)) => Ok(
            InitView { current_capabilities: Some(c), ..at(s, InitStage::QueryMaxCaps) },
        ),
        (InitStage::QueryMaxCaps, EventView::Capabilities(c)) => Ok(
            InitView { max_capabilities: Some(c), ..at(s, InitStage::QueryInitPages) },
        ),
        (InitStage::QueryInitPages, EventView::Value(n)) => Ok(
            InitView {
                page_count: n,
                ..at(
                    s,
                    if n != 0 {
                        InitStage::AllocateInitPages
                    } else {
                        InitStage::InitHca
                    },
                )
            },
        ),
        (InitStage::AllocateInitPages, EventView::Addresses(a)) => Ok(
            InitView { pending_pages: a, ..at(s, InitStage::GiveInitPages) },
        ),
        (InitStage::GiveInitPages, _) => Ok(
            InitView { pending_pages: Seq::empty(), ..at(s, InitStage::InitHca) },
        ),
        (InitStage::InitHca, _) => Ok(at(s, InitStage::QueryRegularPages)),
        (InitStage::QueryRegularPages, EventView::Value(n)) => Ok(
            InitView {
                page_count: n,
                ..at(
                    s,
                    if n != 0 {
                        InitStage::AllocateRegularPages
                    } else {
                        InitStage::QueryMac
                    },
                )
            },
        ),
        (InitStage::AllocateRegularPages, EventView::Addresses(a)) => Ok(
            InitView { pending_pages: a, ..at(s, InitStage::GiveRegularPages) },
        ),
        (InitStage::GiveRegularPages, _) => Ok(
            InitView { pending_pages: Seq::empty(), ..at(s, InitStage::QueryMac) },
        ),
        (InitStage::QueryMac, EventView::Mac(m)) => Ok(InitView { mac_addr: m, ..at(s, InitStage::QueryVport) }),
        (InitStage::QueryVport, _) => Ok(at(s, InitStage::QueryMaxMtu)),
        (InitStage::QueryMaxMtu, EventView::MaxMtu(m)) => if s.mtu > m {
            Err("Required MTU is greater than maximum MTU!")
        } else {
            Ok(InitView { max_mtu: m, ..at(s, InitStage::SetPortMtu) })
        },
        (InitStage::SetPortMtu, _) => Ok(at(s, InitStage::SetVportMtu)),
        (InitStage::SetVportMtu, _) => Ok(at(s, InitStage::AllocUar)),
        (InitStage::AllocUar, EventView::Value(u)) => Ok(InitView { uar: u, ..at(s, InitStage::MapEq) }),
        (InitStage::MapEq, EventView::Addresses(a)) => Ok(InitView { eq_pa: a[0], ..at(s, InitStage::CreateEq) }),
        (InitStage::CreateEq, EventView::Eqn(n)) => Ok(InitView { eqn: n, ..at(s, InitStage::AllocPd) }),
        (InitStage::AllocPd, EventView::Value(v)) => Ok(InitView { pd: v, ..at(s, InitStage::AllocTd) }),
        (InitStage::AllocTd, EventView::Value(v)) => Ok(
            InitView { td: v, ..at(s, InitStage::QuerySpecialContexts) },
        ),
        (InitStage::QuerySpecialContexts, EventView::Value(v)) => Ok(
            InitView { rlkey: v, ..at(s, InitStage::MapSendCq) },
        ),
        (InitStage::MapSendCq, EventView::Addresses(a)) => Ok(
            InitView { send_cq_pa: a[0], send_cq_db_pa: a[1], ..at(s, InitStage::CreateSendCq) },
        ),
        (InitStage::CreateSendCq, EventView::Value(v)) => Ok(
            InitView { cqn_s: v, ..at(s, InitStage::MapReceiveCq) },
        ),
        (InitStage::MapReceiveCq, EventView::Addresses(a)) => Ok(
            InitView { recv_cq_pa: a[0], recv_cq_db_pa: a[1], ..at(s, InitStage::CreateReceiveCq) },
        ),
        (InitStage::CreateReceiveCq, EventView::Value(v)) => Ok(
            InitView { cqn_r: v, ..at(s, InitStage::CreateTis) },
        ),
        (InitStage::CreateTis, EventView::Value(v)) => Ok(InitView { tisn: v, ..at(s, InitStage::MapQueues) }),
        (InitStage::MapQueues, EventView::Addresses(a)) => Ok(
            InitView { q_pa: a[0], db_pa: a[1], ..at(s, InitStage::CreateSq) },
        ),
        (InitStage::CreateSq, EventView::Value(v)) => Ok(InitView { sqn: v, ..at(s, InitStage::CreateRq) }),
        (InitStage::CreateRq, EventView::Value(v)) => Ok(InitView { rqn: v, ..at(s, InitStage::ModifySq) }),
        (InitStage::ModifySq, _) => Ok(at(s, InitStage::ModifyRq)),
        (InitStage::ModifyRq, _) => Ok(at(s, InitStage::QueryVportAgain)),
        (InitStage::QueryVportAgain, _) => Ok(at(s, InitStage::CreateFlowTable)),
        (InitStage::CreateFlowTable, EventView::Value(v)) => Ok(
            InitView { ft_id: v, ..at(s, InitStage::CreateFlowGroup) },
        ),
        (InitStage::CreateFlowGroup, EventView::Value(v)) => Ok(
            InitView { fg_id: v, ..at(s, InitStage::CreateTir) },
        ),
        (InitStage::CreateTir, EventView::Value(v)) => Ok(
            InitView { tirn: v, ..at(s, InitStage::SetFlowTableEntry) },
        ),
        (InitStage::SetFlowTableEntry, _) => Ok(at(s, InitStage::SetFlowTableRoot)),
        (InitStage::SetFlowTableRoot, _) => Ok(at(s, InitStage::Done)),
        _ => Ok(s),
    }
}


/// The sizes that the start-up sequence computes fit their types.
pub open spec fn init_wf(s: InitView) -> bool {
    &&& s.sq_bytes == s.num_tx_descs * SEND_WQE_BYTES
    &&& s.rq_bytes == s.num_rx_descs * RECEIVE_WQE_BYTES
    &&& s.num_rx_descs * QUEUE_ENTRY_BYTES <= usize::MAX
    &&& s.rq_bytes + s.sq_bytes <= usize::MAX
    &&& (s.stage == InitStage::CreateSq ==> s.q_pa + s.rq_bytes <= u64::MAX)
}

/// The start of the sequence for queues of `num_tx_descs` and
/// `num_rx_descs` descriptors, packets of up to `mtu` bytes, and the device
/// memory at `mem_base`.
pub open spec fn initial_state(num_tx_descs: usize, num_rx_descs: usize, mtu: u16, mem_base: u64, sq: usize, rq: usize) -> InitView {
    InitView {
        stage: InitStage::EnableHca,
        num_tx_descs,
        num_rx_descs,
        mtu,
        sq_bytes: sq,
        rq_bytes: rq,
        mem_base,
        page_count: 0,
        pending_pages: Seq::empty(),
        current_capabilities: None,
        max_capabilities: None,
        mac_addr: seq![0u8, 0u8, 0u8, 0u8, 0u8, 0u8],
        max_mtu: 0,
        uar: 0,
        eq_pa: 0,
        eqn: 0,
        pd: 0,
        td: 0,
        rlkey: 0,
        send_cq_pa: 0,
        send_cq_db_pa: 0,
        cqn_s: 0,
        recv_cq_pa: 0,
        recv_cq_db_pa: 0,
        cqn_r: 0,
        tisn: 0,
        q_pa: 0,
        db_pa: 0,
        sqn: 0,
        rqn: 0,
        ft_id: 0,
        fg_id: 0,
        tirn: 0,
    }
}

fn builder_opmod(opcode: CommandOpcode, opmod: u16) -> (r: CommandBuilder)
    ensures
        r@ == cmd_opmod(opcode, opmod),
{
    CommandBuilder::new(opcode).opmod(opmod)
}

fn one_page(a: u64) -> (r: Vec<u64>)
    ensures
        r@ == seq![a],
{
    let mut v: Vec<u64> = Vec::new();
    v.push(a);
    assert(v@ =~= seq![a]);
    v
}

fn sizes(a: usize, b: usize) -> (r: Vec<usize>)
    ensures
        r@ == seq![a, b],
{
    let mut v: Vec<usize> = Vec::new();
    v.push(a);
    v.push(b);
    assert(v@ =~= seq![a, b]);
    v
}

impl NicInit {
    /// Checks the numbers of descriptors and starts the sequence.
    pub fn new(num_tx_descs: usize, num_rx_descs: usize, mtu: u16, mem_base: u64) -> (r: Result<
        NicInit,
        &'static str,
    >)
        requires
            num_tx_descs * SEND_WQE_BYTES <= usize::MAX,
            num_rx_descs * RECEIVE_WQE_BYTES <= usize::MAX,
        ensures
            match init_sizes(num_tx_descs, num_rx_descs) {
                Err(m) => r matches Err(e) && e == m,
                Ok((sq, rq)) => r matches Ok(s) && s@ == initial_state(
                    num_tx_descs,
                    num_rx_descs,
                    mtu,
                    mem_base,
                    sq,
                    rq,
                ) && init_wf(s@),
            },
    {
        let (sq, rq) = match check_queue_sizes(num_tx_descs, num_rx_descs) {
            Ok(x) => x,
            Err(m) => {
                return Err(m);
            },
        };
        if num_rx_descs > usize::MAX / QUEUE_ENTRY_BYTES || rq > usize::MAX - sq {
            return Err(RINGS_TOO_LARGE);
        }
        let s = NicInit {
            stage: InitStage::EnableHca,
            num_tx_descs,
            num_rx_descs,
            mtu,
            sq_bytes: sq,
            rq_bytes: rq,
            mem_base,
            page_count: 0,
            pending_pages: Vec::new(),
            current_capabilities: None,
            max_capabilities: None,
            mac_addr: [0u8; 6],
            max_mtu: 0,
            uar: 0,
            eq_pa: 0,
            eqn: 0,
            pd: 0,
            td: 0,
            rlkey: 0,
            send_cq_pa: 0,
            send_cq_db_pa: 0,
            cqn_s: 0,
            recv_cq_pa: 0,
            recv_cq_db_pa: 0,
            cqn_r: 0,
            tisn: 0,
            q_pa: 0,
            db_pa: 0,
            sqn: 0,
            rqn: 0,
            ft_id: 0,
            fg_id: 0,
            tirn: 0,
        };
        assert(s@.pending_pages =~= Seq::<u64>::empty());
        assert(s@.mac_addr =~= seq![0u8, 0u8, 0u8, 0u8, 0u8, 0u8]);
        Ok(s)
    }

    /// What the driver does next.
    #[verifier::rlimit(40)]
    pub fn next_action(&self) -> (r: InitAction)
        requires
            init_wf(self@),
        ensures
            r@ == action_spec(self@),
    {
        match self.stage {
            InitStage::EnableHca => InitAction::Execute(CommandBuilder::new(CommandOpcode::EnableHca)),
            InitStage::QueryIssi => InitAction::Execute(CommandBuilder::new(CommandOpcode::QueryIssi)),
            InitStage::SetIssi => InitAction::Execute(CommandBuilder::new(CommandOpcode::SetIssi)),
            InitStage::QueryBootPages => InitAction::Execute(builder_opmod(CommandOpcode::QueryPages, 1)),
            InitStage::QueryInitPages => InitAction::Execute(builder_opmod(CommandOpcode::QueryPages, 2)),
            InitStage::QueryRegularPages => InitAction::Execute(builder_opmod(CommandOpcode::QueryPages, 3)),
            InitStage::AllocateBootPages | InitStage::AllocateInitPages
            | InitStage::AllocateRegularPages => InitAction::AllocatePages(self.page_count as usize),
            InitStage::GiveBootPages | InitStage::GiveInitPages | InitStage::GiveRegularPages => {
                let pages = self.pending_pages.clone();
                assert(pages@ =~= self.pending_pages@);
                InitAction::Execute(builder_opmod(CommandOpcode::ManagePages, 1).allocated_pages(pages))
            },
            InitStage::QueryCurrentCaps => InitAction::Execute(builder_opmod(CommandOpcode::QueryHcaCap, 1)),
            InitStage::QueryMaxCaps => InitAction::Execute(builder_opmod(CommandOpcode::QueryHcaCap, 0)),
            InitStage::InitHca => InitAction::Execute(CommandBuilder::new(CommandOpcode::InitHca)),
            InitStage::QueryMac => InitAction::Execute(CommandBuilder::new(CommandOpcode::QueryNicVportContext)),
            InitStage::QueryVport | InitStage::QueryVportAgain => InitAction::Execute(
                CommandBuilder::new(CommandOpcode::QueryVportState),
            ),
            InitStage::QueryMaxMtu => InitAction::Execute(builder_opmod(CommandOpcode::AccessRegister, 1)),
            InitStage::SetPortMtu => InitAction::Execute(
                builder_opmod(CommandOpcode::AccessRegister, 0).mtu(self.mtu),
            ),
            InitStage::SetVportMtu => InitAction::Execute(
                CommandBuilder::new(CommandOpcode::ModifyNicVportContext).mtu(self.mtu),
            ),
            InitStage::AllocUar => InitAction::Execute(CommandBuilder::new(CommandOpcode::AllocUar)),
            InitStage::MapEq => {
                let mut v: Vec<usize> = Vec::new();
                v.push(NUM_EQ_ENTRIES * QUEUE_ENTRY_BYTES);
                assert(v@ =~= seq![(NUM_EQ_ENTRIES * QUEUE_ENTRY_BYTES) as usize]);
                InitAction::MapMemory(v)
            },
            InitStage::CreateEq => InitAction::Execute(
                CommandBuilder::new(CommandOpcode::CreateEq).allocated_pages(one_page(self.eq_pa)).uar(
                    self.uar,
                ).queue_size(NUM_EQ_ENTRIES as u32),
            ),
            InitStage::AllocPd => InitAction::Execute(CommandBuilder::new(CommandOpcode::AllocPd)),
            InitStage::AllocTd => InitAction::Execute(CommandBuilder::new(CommandOpcode::AllocTransportDomain)),
            InitStage::QuerySpecialContexts => InitAction::Execute(
                CommandBuilder::new(CommandOpcode::QuerySpecialContexts),
            ),
            InitStage::MapSendCq => InitAction::MapMemory(
                sizes(NUM_CQ_ENTRIES_SEND * QUEUE_ENTRY_BYTES, DOORBELL_BYTES),
            ),
            InitStage::CreateSendCq => InitAction::Execute(
                CommandBuilder::new(CommandOpcode::CreateCq).allocated_pages(one_page(self.send_cq_pa)).uar(
                    self.uar,
                ).queue_size(NUM_CQ_ENTRIES_SEND as u32).eqn(self.eqn).db_page(
                    self.send_cq_db_pa,
                ).collapsed_cq(),
            ),
            InitStage::MapReceiveCq => InitAction::MapMemory(
                sizes(self.num_rx_descs * QUEUE_ENTRY_BYTES, DOORBELL_BYTES),
            ),
            InitStage::CreateReceiveCq => InitAction::Execute(
                CommandBuilder::new(CommandOpcode::CreateCq).allocated_pages(one_page(self.recv_cq_pa)).uar(
                    self.uar,
                ).queue_size(self.num_rx_descs as u32).eqn(self.eqn).db_page(self.recv_cq_db_pa),
            ),
            InitStage::CreateTis => InitAction::Execute(
                CommandBuilder::new(CommandOpcode::CreateTis).td(self.td),
            ),
            InitStage::MapQueues => InitAction::MapMemory(sizes(self.rq_bytes + self.sq_bytes, DOORBELL_BYTES)),
            InitStage::CreateSq => InitAction::Execute(
                CommandBuilder::new(CommandOpcode::CreateSq).allocated_pages(
                    one_page(self.q_pa + self.rq_bytes as u64),
                ).uar(self.uar).queue_size(self.num_tx_descs as u32).db_page(self.db_pa).cqn(
                    self.cqn_s,
                ).tisn(self.tisn).pd(self.pd),
            ),
            InitStage::CreateRq => InitAction::Execute(
                CommandBuilder::new(CommandOpcode::CreateRq).allocated_pages(one_page(self.q_pa)).queue_size(
                    self.num_rx_descs as u32,
                ).db_page(self.db_pa).cqn(self.cqn_r).pd(self.pd),
            ),
            InitStage::ModifySq => InitAction::Execute(CommandBuilder::new(CommandOpcode::ModifySq).sqn(self.sqn)),
            InitStage::ModifyRq => InitAction::Execute(CommandBuilder::new(CommandOpcode::ModifyRq).rqn(self.rqn)),
            InitStage::CreateFlowTable => InitAction::Execute(
                CommandBuilder::new(CommandOpcode::CreateFlowTable).queue_size(1),
            ),
            InitStage::CreateFlowGroup => InitAction::Execute(
                CommandBuilder::new(CommandOpcode::CreateFlowGroup).flow_table_id(self.ft_id),
            ),
            InitStage::CreateTir => InitAction::Execute(
                CommandBuilder::new(CommandOpcode::CreateTir).rqn(self.rqn).td(self.td),
            ),
            InitStage::SetFlowTableEntry => InitAction::Execute(
                CommandBuilder::new(CommandOpcode::SetFlowTableEntry).flow_table_id(self.ft_id).flow_group_id(
                    self.fg_id,
                ).tirn(self.tirn),
            ),
            InitStage::SetFlowTableRoot => InitAction::Execute(
                CommandBuilder::new(CommandOpcode::SetFlowTableRoot).flow_table_id(self.ft_id),
            ),
            InitStage::Done => InitAction::Done,
        }
    }
}


impl NicInit {
    /// Takes the report `e` of the current action and moves on.
    #[verifier::rlimit(60)]
    pub fn handle(&mut self, e: InitEvent) -> (r: Result<(), &'static str>)
        requires
            init_wf(old(self)@),
            expects(old(self)@, e@),
        ensures
            match handle_spec(old(self)@, e@) {
                Ok(v) => r is Ok && final(self)@ == v && init_wf(v),
                Err(m) => r == Err::<(), &'static str>(m),
            },
    {
        let ghost ev = e@;
        match self.stage {
            InitStage::EnableHca => {
                self.stage = InitStage::QueryIssi;
            },
            InitStage::QueryIssi => {
                if let InitEvent::Issi(available) = e {
                    if available & ISSI_VERSION_1 == ISSI_VERSION_1 {
                        self.stage = InitStage::SetIssi;
                    } else {
                        return Err("ISSI indicated by PRM is not supported");
                    }
                }
            },
            InitStage::SetIssi => {
                self.stage = InitStage::QueryBootPages;
            },
            InitStage::QueryBootPages => {
                if let InitEvent::Value(n) = e {
                    self.page_count = n;
                    self.stage = InitStage::AllocateBootPages;
                }
            },
            InitStage::AllocateBootPages => {
                if let InitEvent::Addresses(a) = e {
                    self.pending_pages = a;
                    self.stage = InitStage::GiveBootPages;
                }
            },
            InitStage::GiveBootPages => {
                self.pending_pages = Vec::new();
                self.stage = InitStage::QueryCurrentCaps;
            },
            InitStage::QueryCurrentCaps => {
                if let InitEvent::Capabilities(c) = e {
                    self.current_capabilities = Some(c);
                    self.stage = InitStage::QueryMaxCaps;
                }
            },
            InitStage::QueryMaxCaps => {
                if let InitEvent::Capabilities(c) = e {
                    self.max_capabilities = Some(c);
                    self.stage = InitStage::QueryInitPages;
                }
            },
            InitStage::QueryInitPages => {
                if let InitEvent::Value(n) = e {
                    self.page_count = n;
                    self.stage = if n != 0 {
                        InitStage::AllocateInitPages
                    } else {
                        InitStage::InitHca
                    };
                }
            },
            InitStage::AllocateInitPages => {
                if let InitEvent::Addresses(a) = e {
                    self.pending_pages = a;
                    self.stage = InitStage::GiveInitPages;
                }
            },
            InitStage::GiveInitPages => {
                self.pending_pages = Vec::new();
                self.stage = InitStage::InitHca;
            },
            InitStage::InitHca => {
                self.stage = InitStage::QueryRegularPages;
            },
            InitStage::QueryRegularPages => {
                if let InitEvent::Value(n) = e {
                    self.page_count = n;
                    self.stage = if n != 0 {
                        InitStage::AllocateRegularPages
                    } else {
                        InitStage::QueryMac
                    };
                }
            },
            InitStage::AllocateRegularPages => {
                if let InitEvent::Addresses(a) = e {
                    self.pending_pages = a;
                    self.stage = InitStage::GiveRegularPages;
                }
            },
            InitStage::GiveRegularPages => {
                self.pending_pages = Vec::new();
                self.stage = InitStage::QueryMac;
            },
            InitStage::QueryMac => {
                if let InitEvent::Mac(m) = e {
                    self.mac_addr = m;
                    self.stage = InitStage::QueryVport;
                }
            },
            InitStage::QueryVport => {
                self.stage = InitStage::QueryMaxMtu;
            },
            InitStage::QueryMaxMtu => {
                if let InitEvent::MaxMtu(m) = e {
                    if self.mtu > m {
                        return Err("Required MTU is greater than maximum MTU!");
                    }
                    self.max_mtu = m;
                    self.stage = InitStage::SetPortMtu;
                }
            },
            InitStage::SetPortMtu => {
                self.stage = InitStage::SetVportMtu;
            },
            InitStage::SetVportMtu => {
                self.stage = InitStage::AllocUar;
            },
            InitStage::AllocUar => {
                if let InitEvent::Value(v) = e {
                    self.uar = v;
                    self.stage = InitStage::MapEq;
                }
            },
            InitStage::MapEq => {
                if let InitEvent::Addresses(a) = e {
                    self.eq_pa = a[0];
                    self.stage = InitStage::CreateEq;
                }
            },
            InitStage::CreateEq => {
                if let InitEvent::Eqn(n) = e {
                    self.eqn = n;
                    self.stage = InitStage::AllocPd;
                }
            },
            InitStage::AllocPd => {
                if let InitEvent::Value(v) = e {
                    self.pd = v;
                    self.stage = InitStage::AllocTd;
                }
            },
            InitStage::AllocTd => {
                if let InitEvent::Value(v) = e {
                    self.td = v;
                    self.stage = InitStage::QuerySpecialContexts;
                }
            },
            InitStage::QuerySpecialContexts => {
                if let InitEvent::Value(v) = e {
                    self.rlkey = v;
                    self.stage = InitStage::MapSendCq;
                }
            },
            InitStage::MapSendCq => {
                if let InitEvent::Addresses(a) = e {
                    self.send_cq_pa = a[0];
                    self.send_cq_db_pa = a[1];
                    self.stage = InitStage::CreateSendCq;
                }
            },
            InitStage::CreateSendCq => {
                if let InitEvent::Value(v) = e {
                    self.cqn_s = v;
                    self.stage = InitStage::MapReceiveCq;
                }
            },
            InitStage::MapReceiveCq => {
                if let InitEvent::Addresses(a) = e {
                    self.recv_cq_pa = a[0];
                    self.recv_cq_db_pa = a[1];
                    self.stage = InitStage::CreateReceiveCq;
                }
            },
            InitStage::CreateReceiveCq => {
                if let InitEvent::Value(v) = e {
                    self.cqn_r = v;
                    self.stage = InitStage::CreateTis;
                }
            },
            InitStage::CreateTis => {
                if let InitEvent::Value(v) = e {
                    self.tisn = v;
                    self.stage = InitStage::MapQueues;
                }
            },
            InitStage::MapQueues => {
                if let InitEvent::Addresses(a) = e {
                    self.q_pa = a[0];
                    self.db_pa = a[1];
                    self.stage = InitStage::CreateSq;
                }
            },
            InitStage::CreateSq => {
                if let InitEvent::Value(v) = e {
                    self.sqn = v;
                    self.stage = InitStage::CreateRq;
                }
            },
            InitStage::CreateRq => {
                if let InitEvent::Value(v) = e {
                    self.rqn = v;
                    self.stage = InitStage::ModifySq;
                }
            },
            InitStage::ModifySq => {
                self.stage = InitStage::ModifyRq;
            },
            InitStage::ModifyRq => {
                self.stage = InitStage::QueryVportAgain;
            },
            InitStage::QueryVportAgain => {
                self.stage = InitStage::CreateFlowTable;
            },
            InitStage::CreateFlowTable => {
                if let InitEvent::Value(v) = e {
                    self.ft_id = v;
                    self.stage = InitStage::CreateFlowGroup;
                }
            },
            InitStage::CreateFlowGroup => {
                if let InitEvent::Value(v) = e {
                    self.fg_id = v;
                    self.stage = InitStage::CreateTir;
                }
            },
            InitStage::CreateTir => {
                if let InitEvent::Value(v) = e {
                    self.tirn = v;
                    self.stage = InitStage::SetFlowTableEntry;
                }
            },
            InitStage::SetFlowTableEntry => {
                self.stage = InitStage::SetFlowTableRoot;
            },
            InitStage::SetFlowTableRoot => {
                self.stage = InitStage::Done;
            },
            InitStage::Done => {},
        }
        assert(self@.pending_pages =~= handle_spec(old(self)@, ev)->Ok_0.pending_pages);
        assert(self@.mac_addr =~= handle_spec(old(self)@, ev)->Ok_0.mac_addr);
        Ok(())
    }

    /// The address of the UAR page of the send queue: the page of the UAR's
    /// number from the start of the device memory.
    pub fn uar_page_address(&self) -> (r: u64)
        requires
            self.mem_base + self.uar * PAGE_SIZE <= u64::MAX,
        ensures
            r == uar_address(self.mem_base, self.uar),
    {
        self.mem_base + (self.uar as u64) * (PAGE_SIZE as u64)
    }
}

/// The position of a stage in the start-up sequence.
pub open spec fn stage_rank(stage: InitStage) -> int {
    match stage {
        InitStage::EnableHca => 0,
        InitStage::QueryIssi => 1,
        InitStage::SetIssi => 2,
        InitStage::QueryBootPages => 3,
        InitStage::AllocateBootPages => 4,
        InitStage::GiveBootPages => 5,
        InitStage::QueryCurrentCaps => 6,
        InitStage::QueryMaxCaps => 7,
        InitStage::QueryInitPages => 8,
        InitStage::AllocateInitPages => 9,
        InitStage::GiveInitPages => 10,
        InitStage::InitHca => 11,
        InitStage::QueryRegularPages => 12,
        InitStage::AllocateRegularPages => 13,
        InitStage::GiveRegularPages => 14,
        InitStage::QueryMac => 15,
        InitStage::QueryVport => 16,
        InitStage::QueryMaxMtu => 17,
        InitStage::SetPortMtu => 18,
        InitStage::SetVportMtu => 19,
        InitStage::AllocUar => 20,
        InitStage::MapEq => 21,
        InitStage::CreateEq => 22,
        InitStage::AllocPd => 23,
        InitStage::AllocTd => 24,
        InitStage::QuerySpecialContexts => 25,
        InitStage::MapSendCq => 26,
        InitStage::CreateSendCq => 27,
        InitStage::MapReceiveCq => 28,
        InitStage::CreateReceiveCq => 29,
        InitStage::CreateTis => 30,
        InitStage::MapQueues => 31,
        InitStage::CreateSq => 32,
        InitStage::CreateRq => 33,
        InitStage::ModifySq => 34,
        InitStage::ModifyRq => 35,
        InitStage::QueryVportAgain => 36,
        InitStage::CreateFlowTable => 37,
        InitStage::CreateFlowGroup => 38,
        InitStage::CreateTir => 39,
        InitStage::SetFlowTableEntry => 40,
        InitStage::SetFlowTableRoot => 41,
        InitStage::Done => 42,
    }
}

/// Start-up only moves forward: each report that a stage expects either
/// ends start-up with an error or moves it to a later stage, so the
/// sequence ends after at most as many steps as there are stages; the
/// parameters it was started with stay as they were.
pub proof fn law_init_moves_forward(s: InitView, e: EventView)
    requires
        expects(s, e),
    ensures
        handle_spec(s, e) matches Ok(t) ==> {
            &&& stage_rank(s.stage) < stage_rank(t.stage) <= stage_rank(InitStage::Done)
            &&& t.num_tx_descs == s.num_tx_descs
            &&& t.num_rx_descs == s.num_rx_descs
            &&& t.mtu == s.mtu
            &&& t.mem_base == s.mem_base
            &&& t.sq_bytes == s.sq_bytes
            &&& t.rq_bytes == s.rq_bytes
        },
{
}

/// The page of the one command of `a`, where `a` executes a command that is
/// given exactly one page.
pub open spec fn single_page(a: ActionView) -> Option<u64> {
    match a {
        ActionView::Execute(b) => match b.allocated_pages {
            Some(p) => if p.len() == 1 {
                Some(p[0])
            } else {
                None
            },
            None => None,
        },
        _ => None,
    }
}

/// The receive and send queues share the memory mapped for them without
/// overlapping: after the mapping at `MapQueues` of `m` bytes comes back at
/// address `a[0]`, the receive queue (created second) is given the start of
/// the mapping, the send queue (created first) is given the page right after
/// the receive queue's bytes, and the send queue's bytes end where the
/// mapping ends.
pub proof fn law_queues_share_mapping_without_overlap(s: InitView, a: Seq<u64>, sqn: u32)
    requires
        s.stage == InitStage::MapQueues,
        init_wf(s),
        expects(s, EventView::Addresses(a)),
    ensures
        ({
            let s1 = handle_spec(s, EventView::Addresses(a))->Ok_0;
            let s2 = handle_spec(s1, EventView::Value(sqn))->Ok_0;
            let m = action_spec(s)->MapMemory_0[0];
            &&& single_page(action_spec(s2)) == Some(a[0])
            &&& single_page(action_spec(s1)) matches Some(sq)
            &&& a[0] + s.rq_bytes == sq
            &&& sq + s.sq_bytes == a[0] + m
            &&& action_spec(s1) matches ActionView::Execute(b1)
            &&& action_spec(s2) matches ActionView::Execute(b2)
            &&& b1.opcode == CommandOpcode::CreateSq && b2.opcode == CommandOpcode::CreateRq
            &&& b1.doorbell_page == Some(a[1]) && b2.doorbell_page == Some(a[1])
            &&& b1.queue_size == Some(s.num_tx_descs as u32) && b2.queue_size == Some(s.num_rx_descs as u32)
            &&& b1.completion_queue_num == Some(s.cqn_s) && b2.completion_queue_num == Some(s.cqn_r)
            &&& b1.protection_domain == Some(s.pd) && b2.protection_domain == Some(s.pd)
            &&& b1.transport_interface_send_num == Some(s.tisn)
        }),
{
}

/// The command that the start-up sequence executes after `QUERY_ISSI` asks
/// the device for the ISSI version whose bit it checked in the reply: the
/// `SET_ISSI` command is built without parameters, and once created, its
/// entry's first inline input word is a version `v` with `1 << v` equal to
/// the bit that `handle` requires in the reported versions, so a reply that
/// start-up accepts lists the version that is asked for. The command is
/// created wherever the queue has an entry free.
pub proof fn law_set_issi_asks_for_checked_version(s: InitView, available: u8, q: QueueView, fresh: Seq<u64>)
    requires
        s.stage == InitStage::QueryIssi,
    ensures
        (exists|i: int| 0 <= i < q.available.len() && q.available[i]) ==> create_outcome(
            q,
            new_builder(CommandOpcode::SetIssi),
            fresh,
        ).result is Ok,
        handle_spec(s, EventView::Issi(available)) matches Ok(t) ==> {
            &&& action_spec(t) == ActionView::Execute(new_builder(CommandOpcode::SetIssi))
            &&& create_outcome(q, new_builder(CommandOpcode::SetIssi), fresh).result matches Ok(c) ==> {
                let v = c.entry.command_input_inline_data_0;
                &&& v < 8
                &&& (1u8 << (v as u8)) == ISSI_VERSION_1
                &&& available & (1u8 << (v as u8)) != 0
            }
        },
{
    assert((1u8 << 1u8) == 2u8) by (bit_vector);
    assert(available & 2u8 == 2u8 ==> available & 2u8 != 0) by (bit_vector);
    crate::mlx_ethernet::commands::lemma_first_free(q.available);
}

} // verus!
