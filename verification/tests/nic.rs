use theseus_kernel::mlx5::{
    check_cmdq_layout, check_queue_sizes, InitAction, InitEvent, InitStage, NicInit, ISSI_VERSION_1,
};
use theseus_kernel::mlx_ethernet::capabilities::{get_bit, HCACapabilitiesLayout};
use theseus_kernel::mlx_ethernet::command_entry::{split_address, CommandQueueEntry};
use theseus_kernel::mlx_ethernet::command_queue::{
    CommandDeliveryStatus, CommandOpcode, CommandQueueError, CommandReturnStatus, CommandTransportType, HcaPortType,
};
use theseus_kernel::mlx_ethernet::commands::{check_command_output_validity, read_be32, CommandBuilder, CommandQueue};
use theseus_kernel::mlx_ethernet::contexts::{log2_u32, log_page_size};
use theseus_kernel::mlx_ethernet::queues::{CurrentUARDoorbell, ReceiveQueueState, SendQueueState};

#[test]
fn opcode_values_round_trip() {
    let all = [
        CommandOpcode::QueryHcaCap,
        CommandOpcode::InitHca,
        CommandOpcode::EnableHca,
        CommandOpcode::QueryPages,
        CommandOpcode::ManagePages,
        CommandOpcode::QueryIssi,
        CommandOpcode::SetIssi,
        CommandOpcode::SetDriverVersion,
        CommandOpcode::QuerySpecialContexts,
        CommandOpcode::CreateEq,
        CommandOpcode::CreateCq,
        CommandOpcode::QueryVportState,
        CommandOpcode::QueryNicVportContext,
        CommandOpcode::ModifyNicVportContext,
        CommandOpcode::AllocPd,
        CommandOpcode::AllocUar,
        CommandOpcode::AccessRegister,
        CommandOpcode::AllocTransportDomain,
        CommandOpcode::CreateTir,
        CommandOpcode::CreateSq,
        CommandOpcode::ModifySq,
        CommandOpcode::QuerySq,
        CommandOpcode::CreateRq,
        CommandOpcode::ModifyRq,
        CommandOpcode::QueryRq,
        CommandOpcode::CreateTis,
        CommandOpcode::SetFlowTableRoot,
        CommandOpcode::CreateFlowTable,
        CommandOpcode::CreateFlowGroup,
        CommandOpcode::SetFlowTableEntry,
    ];
    for op in all {
        assert_eq!(CommandOpcode::from_value(op.value()), Some(op));
    }
    assert_eq!(CommandOpcode::EnableHca.value(), 0x104);
    assert_eq!(CommandOpcode::SetFlowTableEntry.value(), 0x936);
    assert_eq!(CommandOpcode::from_value(0x101), None);
    assert_eq!(CommandTransportType::PCIe.value(), 0x0700_0000);
}

#[test]
fn status_values_round_trip() {
    for v in 0u32..=0x10 {
        if let Some(s) = CommandDeliveryStatus::from_value(v) {
            assert_eq!(s.value(), v);
        }
    }
    assert_eq!(CommandDeliveryStatus::from_value(0), Some(CommandDeliveryStatus::Success));
    assert_eq!(CommandDeliveryStatus::from_value(0x20), None);
    for v in 0u8..=0xFF {
        if let Some(s) = CommandReturnStatus::from_value(v) {
            assert_eq!(s.value(), v);
        }
        if let Some(t) = HcaPortType::from_value(v) {
            assert_eq!(t.value(), v);
        }
        if let Some(s) = SendQueueState::from_value(v) {
            assert_eq!(s.value(), v);
        }
        if let Some(s) = ReceiveQueueState::from_value(v) {
            assert_eq!(s.value(), v);
        }
    }
    assert_eq!(SendQueueState::from_value(1), Some(SendQueueState::Ready));
    assert_eq!(ReceiveQueueState::from_value(3), Some(ReceiveQueueState::Error));
    assert_eq!(ReceiveQueueState::from_value(2), None);
}

#[test]
fn doorbells_alternate() {
    let d = CurrentUARDoorbell::Even;
    assert_eq!(d.alternate(), CurrentUARDoorbell::Odd);
    assert_eq!(d.alternate().alternate(), CurrentUARDoorbell::Even);
}

#[test]
fn command_lengths() {
    assert_eq!(CommandOpcode::ManagePages.input_bytes(Some(3)), Ok(0x10 + 24));
    assert_eq!(CommandOpcode::CreateEq.input_bytes(Some(1)), Ok(0x118));
    assert_eq!(CommandOpcode::CreateEq.input_bytes(None), Err(CommandQueueError::MissingInput));
    assert_eq!(CommandOpcode::QueryIssi.input_bytes(None), Ok(8));
    assert_eq!(CommandOpcode::SetDriverVersion.input_bytes(None), Err(CommandQueueError::NotImplemented));
    assert_eq!(CommandOpcode::QueryHcaCap.output_bytes(), Ok(0x110));
    assert_eq!(CommandOpcode::ModifySq.output_bytes(), Ok(8));
    assert_eq!(CommandOpcode::SetDriverVersion.output_bytes(), Err(CommandQueueError::NotImplemented));
    // 512 data bytes per mailbox
    assert_eq!(CommandOpcode::ManagePages.num_input_mailboxes(Some(64)), Ok(1));
    assert_eq!(CommandOpcode::ManagePages.num_input_mailboxes(Some(65)), Ok(2));
    assert_eq!(CommandOpcode::CreateCq.num_input_mailboxes(Some(1)), Ok(1));
    assert_eq!(CommandOpcode::SetFlowTableEntry.num_input_mailboxes(None), Ok(2));
    assert_eq!(CommandOpcode::QueryRq.num_input_mailboxes(None), Err(CommandQueueError::NotImplemented));
    assert_eq!(CommandOpcode::QueryHcaCap.num_output_mailboxes(), Ok(1));
    assert_eq!(CommandOpcode::EnableHca.num_output_mailboxes(), Ok(0));
    assert_eq!(CommandQueueError::InvalidSQState.as_str(), "Invalid SQ State");
    let s: &'static str = CommandQueueError::PageAllocationFailed.into();
    assert_eq!(s, "Failed to allocate MappedPages");
}

#[test]
fn address_halves() {
    assert_eq!(split_address(0x1234_5678_9ABC_DEF0), (0x1234_5678, 0x9ABC_DEF0));
    let (h, l) = split_address(0xFFFF_0000_0000_0001);
    assert_eq!(((h as u64) << 32) | l as u64, 0xFFFF_0000_0000_0001);
}

#[test]
fn log_sizes() {
    assert_eq!(log2_u32(1), 0);
    assert_eq!(log2_u32(64), 6);
    assert_eq!(log2_u32(65), 6);
    assert_eq!(log_page_size(4096), 0);
    assert_eq!(log_page_size(8192), 1);
    assert!(get_bit(0x8000_0000, 31));
    assert!(!get_bit(0x8000_0000, 30));
}

#[test]
fn be_words() {
    let d = vec![0x12u8, 0x34, 0x56, 0x78, 0x9A];
    assert_eq!(read_be32(&d, 0), 0x1234_5678);
    assert_eq!(read_be32(&d, 1), 0x3456_789A);
}

#[test]
fn queue_size_checks() {
    assert_eq!(check_queue_sizes(256, 256), Ok((256 * 64, 4096)));
    assert_eq!(check_queue_sizes(256, 100), Err("RQ size in bytes must be a multiple of the page size."));
    assert_eq!(check_queue_sizes(100, 256), Err("The number of descriptors must be a power of two."));
    assert_eq!(check_queue_sizes(256, 768), Err("The number of descriptors must be a power of two."));
    assert_eq!(check_cmdq_layout(32, 64), Ok(32 * 64));
    assert_eq!(
        check_cmdq_layout(32, 128),
        Err("Command Queue layout is no longer accurate due to invalid assumption.")
    );
}

#[test]
fn commands_take_entries_and_tokens() {
    let mut q = CommandQueue::create(2, vec![0x1000, 0x2000]);
    assert_eq!(q.num_entries(), 2);
    assert_eq!(q.find_free_command_entry(), Some(0));
    let mut fresh: Vec<u64> = Vec::new();
    let c0 = q.create_command(CommandBuilder::new(CommandOpcode::EnableHca), &mut fresh).unwrap();
    assert_eq!(c0.entry_num, 0);
    assert_eq!(c0.token, 0xAA);
    assert!(c0.entry.owned_by_hw());
    assert_eq!(c0.entry.get_command_opcode(), Ok(CommandOpcode::EnableHca));
    assert!(c0.input_mailboxes.is_empty());
    let c1 = q.create_command(CommandBuilder::new(CommandOpcode::InitHca), &mut fresh).unwrap();
    assert_eq!(c1.entry_num, 1);
    assert_eq!(c1.token, 0xAB);
    // both entries are in use now
    let r = q.create_command(CommandBuilder::new(CommandOpcode::InitHca), &mut fresh);
    assert_eq!(r.err(), Some(CommandQueueError::NoCommandEntryAvailable));
    // completing the first frees its entry again
    let mut done = c0.entry;
    done.token_signature_status_own &= !1;
    let st = q.get_command_status(0, &done).unwrap();
    assert_eq!(st.delivery_status, CommandDeliveryStatus::Success);
    assert_eq!(st.return_status, CommandReturnStatus::OK);
    assert_eq!(q.find_free_command_entry(), Some(0));
    let c2 = q.create_command(CommandBuilder::new(CommandOpcode::AllocUar), &mut fresh).unwrap();
    assert_eq!(c2.entry_num, 0);
    assert_eq!(c2.token, 0xAC);
}

#[test]
fn mailboxes_come_from_the_pool_then_fresh_pages() {
    let mut q = CommandQueue::create(1, vec![0x1000]);
    let mut fresh: Vec<u64> = vec![0x5000, 0x6000];
    let b = CommandBuilder::new(CommandOpcode::QueryHcaCap).opmod(1);
    let c = q.create_command(b, &mut fresh).unwrap();
    assert_eq!(c.input_mailboxes.len(), 0);
    assert_eq!(c.output_mailboxes, vec![0x1000]);
    let mut done = c.entry;
    done.token_signature_status_own &= !1;
    q.get_command_status(0, &done).unwrap();
    let pages = vec![0xA000u64, 0xB000];
    let b = CommandBuilder::new(CommandOpcode::ManagePages).opmod(1).allocated_pages(pages);
    let c = q.create_command(b, &mut fresh).unwrap();
    assert_eq!(c.input_mailboxes, vec![0x6000]);
    assert_eq!(fresh, vec![0x5000]);
}

#[test]
fn missing_pages_are_refused() {
    let mut q = CommandQueue::create(1, vec![0x9000]);
    let mut fresh: Vec<u64> = vec![0x5000];
    let r = q.create_command(CommandBuilder::new(CommandOpcode::CreateEq), &mut fresh);
    assert_eq!(r.err(), Some(CommandQueueError::MissingInput));
    let r = q.create_command(CommandBuilder::new(CommandOpcode::SetDriverVersion), &mut fresh);
    assert_eq!(r.err(), Some(CommandQueueError::NotImplemented));
    assert_eq!(q.find_free_command_entry(), Some(0));
}

#[test]
fn output_validity() {
    let mut e = CommandQueueEntry::init(CommandOpcode::AllocPd, None, 1, None).unwrap();
    assert_eq!(check_command_output_validity(&e, CommandOpcode::AllocPd), Err(CommandQueueError::CommandNotCompleted));
    e.token_signature_status_own &= !1;
    assert_eq!(check_command_output_validity(&e, CommandOpcode::AllocPd), Ok(()));
    assert_eq!(
        check_command_output_validity(&e, CommandOpcode::AllocUar),
        Err(CommandQueueError::IncorrectCommandOpcode)
    );
}

#[test]
fn command_outputs_are_read() {
    let mut q = CommandQueue::create(1, vec![0x9000]);
    let mut fresh: Vec<u64> = Vec::new();
    let c = q.create_command(CommandBuilder::new(CommandOpcode::AllocUar), &mut fresh).unwrap();
    let mut done = c.entry;
    done.token_signature_status_own &= !1;
    done.command_output_inline_data_0 = 0xFF00_0007;
    let (uar, st) = q.get_uar(c.entry_num, &done).unwrap();
    assert_eq!(uar, 7);
    assert_eq!(st.return_status, CommandReturnStatus::OK);
    assert_eq!(q.find_free_command_entry(), Some(0));
}

fn respond(nic: &NicInit, action: InitAction) -> InitEvent {
    match action {
        InitAction::AllocatePages(n) => InitEvent::Addresses((0..n as u64).map(|i| 0x10_0000 + i * 0x1000).collect()),
        InitAction::MapMemory(sizes) => {
            InitEvent::Addresses((0..sizes.len() as u64).map(|i| 0x20_0000 + i * 0x10_0000).collect())
        },
        InitAction::Execute(_) => match nic.stage {
            InitStage::QueryIssi => InitEvent::Issi(ISSI_VERSION_1),
            InitStage::QueryBootPages | InitStage::QueryInitPages => InitEvent::Value(2),
            InitStage::QueryRegularPages => InitEvent::Value(0),
            InitStage::QueryCurrentCaps | InitStage::QueryMaxCaps => {
                let layout = HCACapabilitiesLayout::from_words(&vec![0u32; 64]);
                InitEvent::Capabilities(layout.get_capabilities())
            },
            InitStage::QueryMac => InitEvent::Mac([1, 2, 3, 4, 5, 6]),
            InitStage::QueryMaxMtu => InitEvent::MaxMtu(9000),
            InitStage::CreateEq => InitEvent::Eqn(4),
            InitStage::AllocUar
            | InitStage::AllocPd
            | InitStage::AllocTd
            | InitStage::QuerySpecialContexts
            | InitStage::CreateSendCq
            | InitStage::CreateReceiveCq
            | InitStage::CreateTis
            | InitStage::CreateSq
            | InitStage::CreateRq
            | InitStage::CreateFlowTable
            | InitStage::CreateFlowGroup
            | InitStage::CreateTir => InitEvent::Value(3),
            _ => InitEvent::Completed,
        },
        InitAction::Done => panic!("no response to a finished start-up"),
    }
}

#[test]
fn nic_start_up_runs_to_the_end() {
    let mut nic = NicInit::new(256, 256, 1500, 0xF000_0000).unwrap();
    assert_eq!(nic.stage, InitStage::EnableHca);
    let mut steps = 0;
    loop {
        let action = nic.next_action();
        if let InitAction::Done = action {
            break;
        }
        let ev = respond(&nic, action);
        nic.handle(ev).unwrap();
        steps += 1;
        assert!(steps <= 43);
    }
    assert_eq!(nic.stage, InitStage::Done);
    assert_eq!(nic.mac_addr, [1, 2, 3, 4, 5, 6]);
    assert_eq!(nic.max_mtu, 9000);
    assert_eq!(nic.uar, 3);
    assert_eq!(nic.uar_page_address(), 0xF000_0000 + 3 * 4096);
}

#[test]
fn nic_start_up_errors() {
    assert_eq!(NicInit::new(256, 100, 1500, 0).err(), Some("RQ size in bytes must be a multiple of the page size."));
    assert_eq!(NicInit::new(3, 1usize << 58, 1500, 0).err(), Some("The number of descriptors must be a power of two."));
    assert_eq!(
        NicInit::new(4, 1usize << 58, 1500, 0).err(),
        Some("The descriptor rings do not fit in the address space.")
    );
    let mut nic = NicInit::new(256, 256, 1500, 0).unwrap();
    nic.handle(InitEvent::Completed).unwrap();
    assert_eq!(nic.handle(InitEvent::Issi(0x1)), Err("ISSI indicated by PRM is not supported"));
    let mut nic = NicInit::new(256, 256, 9001, 0).unwrap();
    loop {
        if nic.stage == InitStage::QueryMaxMtu {
            break;
        }
        let action = nic.next_action();
        let ev = respond(&nic, action);
        nic.handle(ev).unwrap();
    }
    assert_eq!(nic.handle(InitEvent::MaxMtu(9000)), Err("Required MTU is greater than maximum MTU!"));
}

use theseus_kernel::mlx_ethernet::work_queue::{
    packet_transmitted, CQEOpcode, CompletionQueue, CompletionQueueEntry, EventQueueEntry, ReceiveQueue, SendQueue,
    WQEOpcode, WorkQueueEntrySend, CQE_INIT_OWNER,
};

#[test]
fn wqe_opcodes_round_trip() {
    for v in 0u8..=0xFF {
        if let Some(op) = WQEOpcode::from_value(v) {
            assert_eq!(op.value(), v);
        }
    }
    assert_eq!(WQEOpcode::from_value(0xA), Some(WQEOpcode::Send));
    assert_eq!(WQEOpcode::from_value(0x2), None);
}

fn packet() -> Vec<u8> {
    (0u8..20).collect()
}

#[test]
fn send_wqe_layout() {
    let mut w = WorkQueueEntrySend::zeroed();
    w.send(5, 0x12, 0x77, 0x1_2345_6789, &packet());
    assert_eq!(w.control.opcode, (5 << 8) | 0xA);
    assert_eq!(w.control.ds, (0x12 << 8) | 4);
    assert_eq!(w.control.ce_se, 8);
    assert_eq!(w.eth.inline_headers_0, (16 << 16) | 0x0001);
    assert_eq!(w.eth.inline_headers_1, 0x0203_0405);
    assert_eq!(w.eth.inline_headers_2, 0x0607_0809);
    assert_eq!(w.eth.inline_headers_3, 0x0A0B_0C0D);
    assert_eq!(w.eth.inline_headers_4, 0x0E0F_0000);
    assert_eq!(w.data.byte_count, 20);
    assert_eq!(w.data.l_key, 0x77);
    assert_eq!(w.data.local_address_h, 0x1);
    assert_eq!(w.data.local_address_l, 0x2345_6789);
    let mut n = w;
    n.nop(6, 0x12);
    assert_eq!(n.control.opcode, 6 << 8);
    assert_eq!(n.eth, w.eth);
    assert_eq!(n.data, w.data);
}

#[test]
fn send_queue_rings_doorbells_in_turn() {
    let mut sq = SendQueue::create(2, 0x12, 0x77);
    assert_eq!(sq.send(0x1000, &packet()), 1);
    assert_eq!(sq.doorbell_record().send_counter, 1);
    assert_eq!(sq.uar_doorbells().even.opcode, 0xA);
    assert_eq!(sq.uar_doorbells().even.ds, (0x12 << 8) | 4);
    assert_eq!(sq.nop(), 2);
    assert_eq!(sq.uar_doorbells().odd.opcode, (1 << 8) | 0x0);
    assert_eq!(sq.entry(1).control.opcode, 1 << 8);
    assert_eq!(sq.send(0x2000, &packet()), 3);
    // the ring wrapped around to the first descriptor and the even doorbell
    assert_eq!(sq.entry(0).control.opcode, (2 << 8) | 0xA);
    assert_eq!(sq.entry(0).data.local_address_l, 0x2000);
    assert_eq!(sq.uar_doorbells().even.opcode, (2 << 8) | 0xA);
}

#[test]
fn send_queue_counter_wraps() {
    let mut sq = SendQueue::create(4, 1, 1);
    let mut last = 0u16;
    for _ in 0..0x10000u32 {
        last = sq.nop();
    }
    assert_eq!(last, 0);
    assert_eq!(sq.doorbell_record().send_counter, 0);
}

#[test]
fn receive_queue_is_refilled() {
    let mut rq = ReceiveQueue::create(3, 1500, 9);
    assert_eq!(rq.len(), 3);
    assert_eq!(rq.entry(0).data.byte_count, 0);
    rq.refill(vec![0x1000, 0x2000, 0x3_0000_0000]);
    assert_eq!(rq.entry(1).data.local_address_l, 0x2000);
    assert_eq!(rq.entry(2).data.local_address_h, 0x3);
    assert_eq!(rq.entry(2).data.byte_count, 1500);
    assert_eq!(rq.entry(2).data.l_key, 9);
}

#[test]
fn completion_entries() {
    let e = CompletionQueueEntry::init();
    assert_eq!(e.owner, CQE_INIT_OWNER);
    assert!(e.get_owner());
    assert_eq!(e.get_opcode(), CQEOpcode::InvalidCQE);
    let mut d = e;
    d.owner = (7 << 16) | (0x2 << 4);
    d.flow_tag = 0x0A00_0000;
    d.byte_count = 64;
    assert_eq!(d.get_wqe_counter(), 7);
    assert!(!d.get_owner());
    assert_eq!(d.get_opcode(), CQEOpcode::ResponderSend);
    assert_eq!(d.get_send_wqe_opcode(), Ok(WQEOpcode::Send));
    assert_eq!(d.get_pkt_len(), 64);
    assert!(packet_transmitted(&d, 7));
    assert!(!packet_transmitted(&d, 8));
    d.owner = 0x60;
    assert_eq!(d.get_opcode(), CQEOpcode::Unknown);
    d.flow_tag = 0x0200_0000;
    assert_eq!(d.get_send_wqe_opcode(), Err("Invalid WQE opcode in the CQE"));
    let mut cq = CompletionQueue::init(2, 5);
    assert!(!cq.check_packet_transmission(1, 7));
    d.owner = 7 << 16;
    cq.set_entry(1, d);
    assert!(cq.check_packet_transmission(1, 7));
    assert_eq!(EventQueueEntry::init().signature_owner, 1);
}
