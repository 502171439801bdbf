//! The command queue entry and the command mailbox, each as the 32-bit words
//! that the device reads (in host order; they are stored big-endian), and
//! where the physical addresses of pages go in a command's input mailboxes.

use crate::mlx_ethernet::command_queue::{
    CommandDeliveryStatus, CommandOpcode, CommandQueueError, CommandReturnStatus,
    MAILBOX_DATA_SIZE_IN_BYTES, SIZE_PADDR_IN_BYTES,
};
use vstd::prelude::*;

verus! {

/// The word that marks a command as carried over PCIe.
pub const PCIE_TRANSPORT: u32 = 0x0700_0000;

/// The layout of a command passed to the device: control information, the
/// first 16 bytes of the command's input and the first 16 bytes of its output.
#[derive(Debug, Clone, Copy, PartialEq, Eq, Structural)]
pub struct CommandQueueEntry {
    /// Type of transport that carries the command
    pub type_of_transport: u32,
    /// Input command length in bytes
    pub input_length: u32,
    /// Pointer to the input mailbox, upper 4 bytes
    pub input_mailbox_pointer_h: u32,
    /// Pointer to the input mailbox, lower 4 bytes
    pub input_mailbox_pointer_l: u32,
    /// Command opcode, in bits [31:16]
    pub command_input_opcode: u32,
    /// Opcode modifier for the command
    pub command_input_opmod: u32,
    /// First 4 bytes of command input data
    pub command_input_inline_data_0: u32,
    /// Second 4 bytes of command input data
    pub command_input_inline_data_1: u32,
    /// Command return status, in bits [31:24]
    pub command_output_status: u32,
    /// Syndrome on the command, valid only if the status is 0
    pub command_output_syndrome: u32,
    /// First 4 bytes of command output data
    pub command_output_inline_data_0: u32,
    /// Second 4 bytes of command output data
    pub command_output_inline_data_1: u32,
    /// Pointer to the output mailbox, upper 4 bytes
    pub output_mailbox_pointer_h: u32,
    /// Pointer to the output mailbox, lower 4 bytes
    pub output_mailbox_pointer_l: u32,
    /// Output command length in bytes
    pub output_length: u32,
    /// Token in bits [31:24], signature in [23:8], delivery status in [7:1]
    /// and, in bit 0, the ownership bit that is set while the device owns the entry
    pub token_signature_status_own: u32,
}

/// A command queue entry whose words are all zero.
pub open spec fn zeroed_entry() -> CommandQueueEntry {
    CommandQueueEntry {
        type_of_transport: 0,
        input_length: 0,
        input_mailbox_pointer_h: 0,
        input_mailbox_pointer_l: 0,
        command_input_opcode: 0,
        command_input_opmod: 0,
        command_input_inline_data_0: 0,
        command_input_inline_data_1: 0,
        command_output_status: 0,
        command_output_syndrome: 0,
        command_output_inline_data_0: 0,
        command_output_inline_data_1: 0,
        output_mailbox_pointer_h: 0,
        output_mailbox_pointer_l: 0,
        output_length: 0,
        token_signature_status_own: 0,
    }
}

impl Default for CommandQueueEntry {
    fn default() -> (r: Self)
        ensures
            r == zeroed_entry(),
    {
        CommandQueueEntry {
            type_of_transport: 0,
            input_length: 0,
            input_mailbox_pointer_h: 0,
            input_mailbox_pointer_l: 0,
            command_input_opcode: 0,
            command_input_opmod: 0,
            command_input_inline_data_0: 0,
            command_input_inline_data_1: 0,
            command_output_status: 0,
            command_output_syndrome: 0,
            command_output_inline_data_0: 0,
            command_output_inline_data_1: 0,
            output_mailbox_pointer_h: 0,
            output_mailbox_pointer_l: 0,
            output_length: 0,
            token_signature_status_own: 0,
        }
    }
}

/// The upper 32 bits of a 64-bit address.
pub open spec fn high_word(addr: u64) -> u32 {
    (addr >> 32) as u32
}

/// The lower 32 bits of a 64-bit address.
pub open spec fn low_word(addr: u64) -> u32 {
    (addr & 0xFFFF_FFFF) as u32
}

/// Splits a 64-bit address into its upper and lower 32 bits.
pub fn split_address(addr: u64) -> (r: (u32, u32))
    ensures
        r.0 == high_word(addr),
        r.1 == low_word(addr),
{
    ((addr >> 32) as u32, (addr & 0xFFFF_FFFF) as u32)
}

/// The two halves that an address is split into give the address back.
pub proof fn law_split_address_recombines(addr: u64)
    ensures
        ((high_word(addr) as u64) << 32u64) | (low_word(addr) as u64) == addr,
        high_word(addr) as int * 0x1_0000_0000 + low_word(addr) as int == addr as int,
{
    assert(((((addr >> 32u64) as u32) as u64) << 32u64) | (((addr & 0xFFFF_FFFFu64) as u32) as u64) == addr)
        by (bit_vector);
    assert((((addr >> 32u64) as u32) as int) * 0x1_0000_0000 + (((addr & 0xFFFF_FFFFu64) as u32) as int)
        == addr as int) by (bit_vector);
}

impl CommandQueueEntry {
    /// The entry that `init` builds for a command, or the error it reports.
    pub open spec fn init_spec(
        opcode: CommandOpcode,
        opmod: Option<u16>,
        token: u8,
        num_pages: Option<usize>,
    ) -> Result<CommandQueueEntry, CommandQueueError> {
        match opcode.input_bytes_spec(num_pages) {
            Err(e) => Err(e),
            Ok(input_length) => match opcode.output_bytes_spec() {
                Err(e) => Err(e),
                Ok(output_length) => Ok(
                    CommandQueueEntry {
                        type_of_transport: PCIE_TRANSPORT,
                        input_length,
                        command_input_opcode: opcode.code() << 16,
                        command_input_opmod: match opmod {
                            Some(m) => m as u32,
                            None => 0,
                        },
                        output_length,
                        token_signature_status_own: ((token as u32) << 24) | 1,
                        ..zeroed_entry()
                    },
                ),
            },
        }
    }

    /// Creates a command queue entry for the given `opcode` and `opmod` (0
    /// where it is `None`): the transport type, the command's `token`, the
    /// ownership bit set so that the device owns the entry, and the input and
    /// output lengths of the command, for `num_pages` pages where it carries pages.
    pub fn init(opcode: CommandOpcode, opmod: Option<u16>, token: u8, num_pages: Option<usize>) -> (r:
        Result<Self, CommandQueueError>)
        requires
            opcode.input_bytes_fit(num_pages),
        ensures
            r == Self::init_spec(opcode, opmod, token, num_pages),
    {
        let mut cmdq_entry = Self::default();
        cmdq_entry.type_of_transport = PCIE_TRANSPORT;
        cmdq_entry.token_signature_status_own = (token as u32) << 24;
        cmdq_entry.change_ownership_to_hw();
        let input_length = match opcode.input_bytes(num_pages) {
            Ok(len) => len,
            Err(e) => {
                return Err(e);
            },
        };
        cmdq_entry.input_length = input_length;
        let output_length = match opcode.output_bytes() {
            Ok(len) => len,
            Err(e) => {
                return Err(e);
            },
        };
        cmdq_entry.output_length = output_length;
        let code = opcode.value();
        assert(code <= 0xFFFF);
        cmdq_entry.command_input_opcode = code << 16;
        cmdq_entry.command_input_opmod = match opmod {
            Some(m) => m as u32,
            None => 0,
        };
        Ok(cmdq_entry)
    }

    /// Sets the length of the command's input in bytes.
    pub fn set_input_length(&mut self, length_in_bytes: u32)
        ensures
            *final(self) == (CommandQueueEntry { input_length: length_in_bytes, ..*old(self) }),
    {
        self.input_length = length_in_bytes;
    }

    /// Sets the length of the command's output in bytes.
    pub fn set_output_length(&mut self, length_in_bytes: u32)
        ensures
            *final(self) == (CommandQueueEntry { output_length: length_in_bytes, ..*old(self) }),
    {
        self.output_length = length_in_bytes;
    }

    /// Sets the first 4 bytes of the command's input data.
    pub fn set_input_inline_data_0(&mut self, command0: u32)
        ensures
            *final(self) == (CommandQueueEntry { command_input_inline_data_0: command0, ..*old(self) }),
    {
        self.command_input_inline_data_0 = command0;
    }

    /// Sets the second 4 bytes of the command's input data.
    pub fn set_input_inline_data_1(&mut self, command1: u32)
        ensures
            *final(self) == (CommandQueueEntry { command_input_inline_data_1: command1, ..*old(self) }),
    {
        self.command_input_inline_data_1 = command1;
    }

    /// Sets the pointer to the first input mailbox.
    pub fn set_input_mailbox_pointer(&mut self, mailbox_ptr: u64)
        ensures
            *final(self) == (CommandQueueEntry {
                input_mailbox_pointer_h: high_word(mailbox_ptr),
                input_mailbox_pointer_l: low_word(mailbox_ptr),
                ..*old(self)
            }),
    {
        let (h, l) = split_address(mailbox_ptr);
        self.input_mailbox_pointer_h = h;
        self.input_mailbox_pointer_l = l;
    }

    /// Sets the pointer to the first output mailbox.
    pub fn set_output_mailbox_pointer(&mut self, mailbox_ptr: u64)
        ensures
            *final(self) == (CommandQueueEntry {
                output_mailbox_pointer_h: high_word(mailbox_ptr),
                output_mailbox_pointer_l: low_word(mailbox_ptr),
                ..*old(self)
            }),
    {
        let (h, l) = split_address(mailbox_ptr);
        self.output_mailbox_pointer_h = h;
        self.output_mailbox_pointer_l = l;
    }

    /// Returns the opcode written in the entry, or `InvalidCommandOpcode`
    /// where bits [31:16] of the opcode word encode no known opcode.
    pub fn get_command_opcode(&self) -> (r: Result<CommandOpcode, CommandQueueError>)
        ensures
            r matches Ok(op) ==> op.code() == self.command_input_opcode >> 16,
            r matches Err(e) ==> e == CommandQueueError::InvalidCommandOpcode && forall|op: CommandOpcode|
                op.code() != self.command_input_opcode >> 16,
    {
        match CommandOpcode::from_value(self.command_input_opcode >> 16) {
            Some(op) => Ok(op),
            None => Err(CommandQueueError::InvalidCommandOpcode),
        }
    }

    /// Returns the first 16 bytes of the command's output: the return status
    /// (bits [31:24] of the status word), the syndrome and two data words.
    pub fn get_output_inline_data(&self) -> (r: (u8, u32, u32, u32))
        ensures
            r == ((self.command_output_status >> 24) as u8, self.command_output_syndrome,
            self.command_output_inline_data_0, self.command_output_inline_data_1),
    {
        (
            (self.command_output_status >> 24) as u8,
            self.command_output_syndrome,
            self.command_output_inline_data_0,
            self.command_output_inline_data_1,
        )
    }

    /// Returns the first 4 bytes of the command's output data.
    pub fn get_output_inline_data_0(&self) -> (r: u32)
        ensures
            r == self.command_output_inline_data_0,
    {
        self.command_output_inline_data_0
    }

    /// Returns the second 4 bytes of the command's output data.
    pub fn get_output_inline_data_1(&self) -> (r: u32)
        ensures
            r == self.command_output_inline_data_1,
    {
        self.command_output_inline_data_1
    }

    /// The delivery status field: bits [7:1] of the last word.
    pub open spec fn delivery_status_bits(self) -> u32 {
        (self.token_signature_status_own & 0xFE) >> 1
    }

    /// Returns whether the command was delivered to the device, or
    /// `InvalidCommandDeliveryStatus` where the field holds no known status.
    pub fn get_delivery_status(&self) -> (r: Result<CommandDeliveryStatus, CommandQueueError>)
        ensures
            r matches Ok(s) ==> s.code() == self.delivery_status_bits(),
            r matches Err(e) ==> e == CommandQueueError::InvalidCommandDeliveryStatus && forall|
                s: CommandDeliveryStatus,
            | s.code() != self.delivery_status_bits(),
    {
        let status = (self.token_signature_status_own & 0xFE) >> 1;
        match CommandDeliveryStatus::from_value(status) {
            Some(s) => Ok(s),
            None => Err(CommandQueueError::InvalidCommandDeliveryStatus),
        }
    }

    /// Sets the ownership bit so that the device takes control of the entry.
    pub fn change_ownership_to_hw(&mut self)
        ensures
            *final(self) == (CommandQueueEntry {
                token_signature_status_own: old(self).token_signature_status_own | 1,
                ..*old(self)
            }),
    {
        self.token_signature_status_own = self.token_signature_status_own | 1;
    }

    /// Whether the device owns the entry: bit 0 of the last word.
    pub open spec fn spec_owned_by_hw(self) -> bool {
        self.token_signature_status_own & 1 == 1
    }

    /// Returns true while the device owns the entry, which software must then not touch.
    pub fn owned_by_hw(&self) -> (r: bool)
        ensures
            r == self.spec_owned_by_hw(),
    {
        self.token_signature_status_own & 1 == 1
    }

    /// The return status field: bits [31:24] of the output status word.
    pub open spec fn return_status_bits(self) -> u8 {
        (self.command_output_status >> 24) as u8
    }

    /// Returns how the device completed the command, or
    /// `InvalidCommandReturnStatus` where the field holds no known status.
    pub fn get_return_status(&self) -> (r: Result<CommandReturnStatus, CommandQueueError>)
        ensures
            r matches Ok(s) ==> s.code() == self.return_status_bits(),
            r matches Err(e) ==> e == CommandQueueError::InvalidCommandReturnStatus && forall|
                s: CommandReturnStatus,
            | s.code() != self.return_status_bits(),
    {
        let (status, _syndrome, _, _) = self.get_output_inline_data();
        match CommandReturnStatus::from_value(status) {
            Some(s) => Ok(s),
            None => Err(CommandQueueError::InvalidCommandReturnStatus),
        }
    }
}


/// A mailbox that carries command input or output beyond the first 16 bytes.
#[derive(Debug)]
pub struct CommandInterfaceMailbox {
    /// Data in the mailbox
    pub mailbox_data: Vec<u8>,
    /// Upper bits of the address of the next mailbox, 0 for the last one
    pub next_pointer_h: u32,
    /// Lower bits of the address of the next mailbox, 0 for the last one
    pub next_pointer_l: u32,
    /// Sequence number of the block, counting from 0 along the chain
    pub block_number: u32,
    /// Token of the command in bits [23:16]; the same as in the command entry
    pub token_ctrl_signature: u32,
}

/// The data bytes of a cleared mailbox.
pub open spec fn zeroed_data() -> Seq<u8> {
    Seq::new(MAILBOX_DATA_SIZE_IN_BYTES as nat, |i: int| 0u8)
}

/// `MAILBOX_DATA_SIZE_IN_BYTES` zero bytes.
fn zero_bytes() -> (r: Vec<u8>)
    ensures
        r@ == zeroed_data(),
{
    let mut v: Vec<u8> = Vec::new();
    while v.len() < MAILBOX_DATA_SIZE_IN_BYTES
        invariant
            v.len() <= MAILBOX_DATA_SIZE_IN_BYTES,
            forall|i: int| 0 <= i < v.len() ==> v@[i] == 0u8,
        decreases MAILBOX_DATA_SIZE_IN_BYTES - v.len(),
    {
        v.push(0u8);
    }
    assert(v@ =~= zeroed_data());
    v
}

impl CommandInterfaceMailbox {
    /// Whether this mailbox holds no data and is block `block_num` of a
    /// command with `token`, followed by the mailbox at `next_mb_addr` (0 for none).
    pub open spec fn is_initialized_as(self, block_num: u32, token: u8, next_mb_addr: u64) -> bool {
        &&& self.mailbox_data@ == zeroed_data()
        &&& self.block_number == block_num
        &&& self.token_ctrl_signature == (token as u32) << 16
        &&& self.next_pointer_h == high_word(next_mb_addr)
        &&& self.next_pointer_l == low_word(next_mb_addr)
    }

    /// A mailbox whose fields are all zero.
    pub fn new() -> (r: Self)
        ensures
            r.mailbox_data@ == zeroed_data(),
            r.next_pointer_h == 0,
            r.next_pointer_l == 0,
            r.block_number == 0,
            r.token_ctrl_signature == 0,
    {
        CommandInterfaceMailbox {
            mailbox_data: zero_bytes(),
            next_pointer_h: 0,
            next_pointer_l: 0,
            block_number: 0,
            token_ctrl_signature: 0,
        }
    }

    /// Sets all fields of the mailbox to 0.
    pub fn clear_all_fields(&mut self)
        ensures
            final(self).mailbox_data@ == zeroed_data(),
            final(self).next_pointer_h == 0,
            final(self).next_pointer_l == 0,
            final(self).block_number == 0,
            final(self).token_ctrl_signature == 0,
    {
        self.mailbox_data = zero_bytes();
        self.next_pointer_h = 0;
        self.next_pointer_l = 0;
        self.block_number = 0;
        self.token_ctrl_signature = 0;
    }

    /// Clears the mailbox and makes it block `block_num` of a command with
    /// `token`, followed by the mailbox at `next_mb_addr` (0 for none).
    pub fn init(&mut self, block_num: u32, token: u8, next_mb_addr: u64)
        ensures
            final(self).is_initialized_as(block_num, token, next_mb_addr),
    {
        self.clear_all_fields();
        self.block_number = block_num;
        self.token_ctrl_signature = (token as u32) << 16;
        let (h, l) = split_address(next_mb_addr);
        self.next_pointer_h = h;
        self.next_pointer_l = l;
    }
}

/// The address of the mailbox that follows mailbox `i` in a chain of mailboxes
/// at `addrs`, or 0 after the last one.
pub open spec fn next_mailbox_addr(addrs: Seq<u64>, i: int) -> u64 {
    if i + 1 < addrs.len() {
        addrs[i + 1]
    } else {
        0
    }
}

/// Initializes the mailboxes at `addrs` as the chain of a command with
/// `token`: mailbox `i` is block `i` and points at the next one.
pub fn chain_mailboxes(addrs: &Vec<u64>, token: u8) -> (r: Vec<CommandInterfaceMailbox>)
    ensures
        r.len() == addrs.len(),
        forall|i: int|
            0 <= i < r.len() ==> #[trigger] r[i].is_initialized_as(
                i as u32,
                token,
                next_mailbox_addr(addrs@, i),
            ),
{
    let n = addrs.len();
    let mut r: Vec<CommandInterfaceMailbox> = Vec::new();
    let mut block_num: usize = 0;
    while block_num < n
        invariant
            n == addrs.len(),
            block_num <= n,
            r.len() == block_num,
            forall|i: int|
                0 <= i < r.len() ==> #[trigger] r[i].is_initialized_as(
                    i as u32,
                    token,
                    next_mailbox_addr(addrs@, i),
                ),
        decreases n - block_num,
    {
        let next_mb_addr = if block_num < n - 1 {
            addrs[block_num + 1]
        } else {
            0
        };
        let mut mailbox = CommandInterfaceMailbox::new();
        mailbox.init(block_num as u32, token, next_mb_addr);
        r.push(mailbox);
        block_num = block_num + 1;
    }
    r
}

/// Where one page address goes: the mailbox, the byte offset in it, and the address.
#[derive(Debug, Clone, Copy, PartialEq, Eq, Structural)]
pub struct PagePlacement {
    pub mailbox: usize,
    pub offset: usize,
    pub addr: u64,
}

/// The number of page addresses that fit in the first mailbox when they start at `first`.
pub open spec fn first_mailbox_slots(first: int) -> int {
    (MAILBOX_DATA_SIZE_IN_BYTES - first) / (SIZE_PADDR_IN_BYTES as int)
}

/// The number of page addresses that fit in any later mailbox.
pub open spec fn mailbox_slots() -> int {
    (MAILBOX_DATA_SIZE_IN_BYTES / SIZE_PADDR_IN_BYTES) as int
}

/// The mailbox that the `j`-th page address goes to.
pub open spec fn placement_mailbox(first: int, j: int) -> int {
    if j < first_mailbox_slots(first) {
        0
    } else {
        1 + (j - first_mailbox_slots(first)) / mailbox_slots()
    }
}

/// The byte offset in its mailbox of the `j`-th page address.
pub open spec fn placement_offset(first: int, j: int) -> int {
    if j < first_mailbox_slots(first) {
        first + j * SIZE_PADDR_IN_BYTES
    } else {
        ((j - first_mailbox_slots(first)) % mailbox_slots()) * SIZE_PADDR_IN_BYTES
    }
}

/// How many of `n` page addresses fit in `m` mailboxes, the first of which
/// holds them from byte `first` on.
pub open spec fn placement_count(first: int, m: int, n: int) -> int {
    if m == 0 {
        0
    } else {
        let cap = first_mailbox_slots(first) + mailbox_slots() * (m - 1);
        if n < cap {
            n
        } else {
            cap
        }
    }
}

/// The `j`-th page address lands in one of `m` mailboxes exactly when `j` is
/// below the capacity of those mailboxes.
proof fn lemma_placement_in_mailboxes(first: int, m: int, j: int)
    requires
        m >= 1,
        j >= 0,
        0 <= first <= MAILBOX_DATA_SIZE_IN_BYTES,
    ensures
        (placement_mailbox(first, j) < m) <==> (j < first_mailbox_slots(first) + mailbox_slots() * (m - 1)),
{
    let fs = first_mailbox_slots(first);
    assert(fs >= 0);
    if j >= fs {
        let x = j - fs;
        assert((x / 64 < m - 1) <==> (x < 64 * (m - 1))) by (nonlinear_arith)
            requires
                x >= 0,
                m >= 1,
        ;
    }
}

/// Lays the physical addresses of `pages` out in `num_mailboxes` input
/// mailboxes: the addresses are taken from the end of `pages`, fill the first
/// mailbox from byte `first_mailbox_offset` on and each later one from byte 0,
/// and the addresses that do not fit are left out.
pub fn page_address_placements(num_mailboxes: usize, pages: Vec<u64>, first_mailbox_offset: usize) -> (r: Vec<
    PagePlacement,
>)
    requires
        num_mailboxes > 0 ==> first_mailbox_offset <= MAILBOX_DATA_SIZE_IN_BYTES,
    ensures
        r.len() == placement_count(first_mailbox_offset as int, num_mailboxes as int, pages.len() as int),
        forall|j: int|
            0 <= j < r.len() ==> #[trigger] r[j] == (PagePlacement {
                mailbox: placement_mailbox(first_mailbox_offset as int, j) as usize,
                offset: placement_offset(first_mailbox_offset as int, j) as usize,
                addr: pages[pages.len() - 1 - j],
            }),
{
    let mut r: Vec<PagePlacement> = Vec::new();
    if num_mailboxes == 0 {
        return r;
    }
    let ghost all = pages@;
    let n = pages.len();
    let first = first_mailbox_offset;
    let first_slots = (MAILBOX_DATA_SIZE_IN_BYTES - first) / SIZE_PADDR_IN_BYTES;
    let slots = MAILBOX_DATA_SIZE_IN_BYTES / SIZE_PADDR_IN_BYTES;
    let mut pages = pages;
    let mut j: usize = 0;
    while j < n
        invariant_except_break
            j <= n,
            pages@ == all.subrange(0, n - j),
            r.len() == j,
            n == all.len(),
            num_mailboxes > 0,
            first <= MAILBOX_DATA_SIZE_IN_BYTES,
            first_slots == first_mailbox_slots(first as int),
            slots == mailbox_slots(),
            j <= first_mailbox_slots(first as int) + mailbox_slots() * (num_mailboxes - 1),
            forall|i: int|
                0 <= i < r.len() ==> #[trigger] r[i] == (PagePlacement {
                    mailbox: placement_mailbox(first as int, i) as usize,
                    offset: placement_offset(first as int, i) as usize,
                    addr: all[n - 1 - i],
                }),
        ensures
            r.len() == placement_count(first as int, num_mailboxes as int, n as int),
            forall|i: int|
                0 <= i < r.len() ==> #[trigger] r[i] == (PagePlacement {
                    mailbox: placement_mailbox(first as int, i) as usize,
                    offset: placement_offset(first as int, i) as usize,
                    addr: all[n - 1 - i],
                }),
        decreases n - j,
    {
        let mailbox = if j < first_slots {
            0
        } else {
            1 + (j - first_slots) / slots
        };
        proof {
            lemma_placement_in_mailboxes(first as int, num_mailboxes as int, j as int);
        }
        if mailbox >= num_mailboxes {
            break;
        }
        let offset = if j < first_slots {
            first + j * SIZE_PADDR_IN_BYTES
        } else {
            ((j - first_slots) % slots) * SIZE_PADDR_IN_BYTES
        };
        let addr = pages.pop().unwrap();
        r.push(PagePlacement { mailbox, offset, addr });
        j = j + 1;
    }
    r
}


/// A new command entry holds what it was made for: it reads back its
/// opcode (and no other opcode has that value), the device owns it, and it carries the command's input and output
/// lengths, its opmod (0 for none), its token and the PCIe transport type;
/// where the input or output length cannot be given, making it fails with
/// that error. (Page counts whose input length would pass `u32` are left out.)
pub proof fn law_entry_init_fields(opcode: CommandOpcode, opmod: Option<u16>, token: u8, num_pages: Option<usize>)
    requires
        opcode.input_bytes_fit(num_pages),
    ensures
        match (opcode.input_bytes_spec(num_pages), opcode.output_bytes_spec()) {
            (Ok(il), Ok(ol)) => CommandQueueEntry::init_spec(opcode, opmod, token, num_pages) matches Ok(e) && {
                &&& e.command_input_opcode >> 16 == opcode.code()
                &&& forall|op2: CommandOpcode| op2.code() == e.command_input_opcode >> 16 ==> op2 == opcode
                &&& e.spec_owned_by_hw()
                &&& e.input_length == il
                &&& e.output_length == ol
                &&& e.command_input_opmod == (match opmod {
                    Some(m) => m as u32,
                    None => 0u32,
                })
                &&& e.token_signature_status_own == ((token as u32) << 24) | 1
                &&& e.type_of_transport == 0x0700_0000
            },
            (Err(x), _) => CommandQueueEntry::init_spec(opcode, opmod, token, num_pages) == Err::<
                CommandQueueEntry,
                CommandQueueError,
            >(x),
            (Ok(_), Err(x)) => CommandQueueEntry::init_spec(opcode, opmod, token, num_pages) == Err::<
                CommandQueueEntry,
                CommandQueueError,
            >(x),
        },
{
    let c = opcode.code();
    assert(c <= 0xFFFF);
    assert((c << 16) >> 16 == c) by (bit_vector)
        requires
            c <= 0xFFFF,
    ;
    let t = token as u32;
    assert((((t << 24) | 1) & 1) == 1) by (bit_vector);
    assert forall|op2: CommandOpcode| op2.code() == c implies op2 == opcode by {
        crate::mlx_ethernet::command_queue::law_opcode_value_unique(op2, opcode);
    }
}

} // verus!
