//! The encodings of the command interface: command opcodes and opcode
//! modifiers, the statuses the device writes back, the lengths of each
//! command's input and output, and how many mailboxes each command uses.

use vstd::prelude::*;

verus! {

/// Type of transport that carries the command.
#[derive(Debug, Clone, Copy, PartialEq, Eq, Structural)]
pub enum CommandTransportType {
    PCIe,
}

impl CommandTransportType {
    /// The value that encodes this variant in the device's fields.
    pub open spec fn code(self) -> u32 {
        match self {
            CommandTransportType::PCIe => 0x0700_0000,
        }
    }

    /// Returns the value that encodes this variant.
    pub fn value(&self) -> (r: u32)
        ensures
            r == self.code(),
    {
        match self {
            CommandTransportType::PCIe => 0x0700_0000,
        }
    }
}

/// Return codes written by the device in the delivery status field of a command entry.
#[derive(Debug, Clone, Copy, PartialEq, Eq, Structural)]
pub enum CommandDeliveryStatus {
    Success,
    SignatureErr,
    TokenErr,
    BadBlockNumber,
    BadOutputPointer,
    BadInputPointer,
    InternalErr,
    InputLenErr,
    OutputLenErr,
    ReservedNotZero,
    BadCommandType,
}

impl CommandDeliveryStatus {
    /// The value that encodes this variant in the device's fields.
    pub open spec fn code(self) -> u32 {
        match self {
            CommandDeliveryStatus::Success => 0x0,
            CommandDeliveryStatus::SignatureErr => 0x1,
            CommandDeliveryStatus::TokenErr => 0x2,
            CommandDeliveryStatus::BadBlockNumber => 0x3,
            CommandDeliveryStatus::BadOutputPointer => 0x4,
            CommandDeliveryStatus::BadInputPointer => 0x5,
            CommandDeliveryStatus::InternalErr => 0x6,
            CommandDeliveryStatus::InputLenErr => 0x7,
            CommandDeliveryStatus::OutputLenErr => 0x8,
            CommandDeliveryStatus::ReservedNotZero => 0x9,
            CommandDeliveryStatus::BadCommandType => 0x10,
        }
    }

    /// Returns the value that encodes this variant.
    pub fn value(&self) -> (r: u32)
        ensures
            r == self.code(),
    {
        match self {
            CommandDeliveryStatus::Success => 0x0,
            CommandDeliveryStatus::SignatureErr => 0x1,
            CommandDeliveryStatus::TokenErr => 0x2,
            CommandDeliveryStatus::BadBlockNumber => 0x3,
            CommandDeliveryStatus::BadOutputPointer => 0x4,
            CommandDeliveryStatus::BadInputPointer => 0x5,
            CommandDeliveryStatus::InternalErr => 0x6,
            CommandDeliveryStatus::InputLenErr => 0x7,
            CommandDeliveryStatus::OutputLenErr => 0x8,
            CommandDeliveryStatus::ReservedNotZero => 0x9,
            CommandDeliveryStatus::BadCommandType => 0x10,
        }
    }

    /// The variant encoded by `v`, or `None` where no variant has that value.
    pub fn from_value(v: u32) -> (r: Option<CommandDeliveryStatus>)
        ensures
            r matches Some(s) ==> s.code() == v,
            r is None ==> forall|s: CommandDeliveryStatus| s.code() != v,
    {
        if v == 0x0 {
            Some(CommandDeliveryStatus::Success)
        } else if v == 0x1 {
            Some(CommandDeliveryStatus::SignatureErr)
        } else if v == 0x2 {
            Some(CommandDeliveryStatus::TokenErr)
        } else if v == 0x3 {
            Some(CommandDeliveryStatus::BadBlockNumber)
        } else if v == 0x4 {
            Some(CommandDeliveryStatus::BadOutputPointer)
        } else if v == 0x5 {
            Some(CommandDeliveryStatus::BadInputPointer)
        } else if v == 0x6 {
            Some(CommandDeliveryStatus::InternalErr)
        } else if v == 0x7 {
            Some(CommandDeliveryStatus::InputLenErr)
        } else if v == 0x8 {
            Some(CommandDeliveryStatus::OutputLenErr)
        } else if v == 0x9 {
            Some(CommandDeliveryStatus::ReservedNotZero)
        } else if v == 0x10 {
            Some(CommandDeliveryStatus::BadCommandType)
        } else {
            assert forall|s: CommandDeliveryStatus| s.code() != v by {
                match s {
                    CommandDeliveryStatus::Success => {},
                    CommandDeliveryStatus::SignatureErr => {},
                    CommandDeliveryStatus::TokenErr => {},
                    CommandDeliveryStatus::BadBlockNumber => {},
                    CommandDeliveryStatus::BadOutputPointer => {},
                    CommandDeliveryStatus::BadInputPointer => {},
                    CommandDeliveryStatus::InternalErr => {},
                    CommandDeliveryStatus::InputLenErr => {},
                    CommandDeliveryStatus::OutputLenErr => {},
                    CommandDeliveryStatus::ReservedNotZero => {},
                    CommandDeliveryStatus::BadCommandType => {},
                }
            }
            None
        }
    }
}

/// Command opcode written by the driver in the opcode field of a command entry's input.
#[derive(Debug, Clone, Copy, PartialEq, Eq, Structural)]
pub enum CommandOpcode {
    QueryHcaCap,
    InitHca,
    EnableHca,
    QueryPages,
    ManagePages,
    QueryIssi,
    SetIssi,
    SetDriverVersion,
    QuerySpecialContexts,
    CreateEq,
    CreateCq,
    QueryVportState,
    QueryNicVportContext,
    ModifyNicVportContext,
    AllocPd,
    AllocUar,
    AccessRegister,
    AllocTransportDomain,
    CreateTir,
    CreateSq,
    ModifySq,
    QuerySq,
    CreateRq,
    ModifyRq,
    QueryRq,
    CreateTis,
    SetFlowTableRoot,
    CreateFlowTable,
    CreateFlowGroup,
    SetFlowTableEntry,
}

impl CommandOpcode {
    /// The value that encodes this variant in the device's fields.
    pub open spec fn code(self) -> u32 {
        match self {
            CommandOpcode::QueryHcaCap => 0x100,
            CommandOpcode::InitHca => 0x102,
            CommandOpcode::EnableHca => 0x104,
            CommandOpcode::QueryPages => 0x107,
            CommandOpcode::ManagePages => 0x108,
            CommandOpcode::QueryIssi => 0x10A,
            CommandOpcode::SetIssi => 0x10B,
            CommandOpcode::SetDriverVersion => 0x10D,
            CommandOpcode::QuerySpecialContexts => 0x203,
            CommandOpcode::CreateEq => 0x301,
            CommandOpcode::CreateCq => 0x400,
            CommandOpcode::QueryVportState => 0x750,
            CommandOpcode::QueryNicVportContext => 0x754,
            CommandOpcode::ModifyNicVportContext => 0x755,
            CommandOpcode::AllocPd => 0x800,
            CommandOpcode::AllocUar => 0x802,
            CommandOpcode::AccessRegister => 0x805,
            CommandOpcode::AllocTransportDomain => 0x816,
            CommandOpcode::CreateTir => 0x900,
            CommandOpcode::CreateSq => 0x904,
            CommandOpcode::ModifySq => 0x905,
            CommandOpcode::QuerySq => 0x907,
            CommandOpcode::CreateRq => 0x908,
            CommandOpcode::ModifyRq => 0x909,
            CommandOpcode::QueryRq => 0x90B,
            CommandOpcode::CreateTis => 0x912,
            CommandOpcode::SetFlowTableRoot => 0x92F,
            CommandOpcode::CreateFlowTable => 0x930,
            CommandOpcode::CreateFlowGroup => 0x933,
            CommandOpcode::SetFlowTableEntry => 0x936,
        }
    }

    /// Returns the value that encodes this variant.
    pub fn value(&self) -> (r: u32)
        ensures
            r == self.code(),
    {
        match self {
            CommandOpcode::QueryHcaCap => 0x100,
            CommandOpcode::InitHca => 0x102,
            CommandOpcode::EnableHca => 0x104,
            CommandOpcode::QueryPages => 0x107,
            CommandOpcode::ManagePages => 0x108,
            CommandOpcode::QueryIssi => 0x10A,
            CommandOpcode::SetIssi => 0x10B,
            CommandOpcode::SetDriverVersion => 0x10D,
            CommandOpcode::QuerySpecialContexts => 0x203,
            CommandOpcode::CreateEq => 0x301,
            CommandOpcode::CreateCq => 0x400,
            CommandOpcode::QueryVportState => 0x750,
            CommandOpcode::QueryNicVportContext => 0x754,
            CommandOpcode::ModifyNicVportContext => 0x755,
            CommandOpcode::AllocPd => 0x800,
            CommandOpcode::AllocUar => 0x802,
            CommandOpcode::AccessRegister => 0x805,
            CommandOpcode::AllocTransportDomain => 0x816,
            CommandOpcode::CreateTir => 0x900,
            CommandOpcode::CreateSq => 0x904,
            CommandOpcode::ModifySq => 0x905,
            CommandOpcode::QuerySq => 0x907,
            CommandOpcode::CreateRq => 0x908,
            CommandOpcode::ModifyRq => 0x909,
            CommandOpcode::QueryRq => 0x90B,
            CommandOpcode::CreateTis => 0x912,
            CommandOpcode::SetFlowTableRoot => 0x92F,
            CommandOpcode::CreateFlowTable => 0x930,
            CommandOpcode::CreateFlowGroup => 0x933,
            CommandOpcode::SetFlowTableEntry => 0x936,
        }
    }

    /// The variant encoded by `v`, or `None` where no variant has that value.
    pub fn from_value(v: u32) -> (r: Option<CommandOpcode>)
        ensures
            r matches Some(s) ==> s.code() == v,
            r is None ==> forall|s: CommandOpcode| s.code() != v,
    {
        if v == 0x100 {
            Some(CommandOpcode::QueryHcaCap)
        } else if v == 0x102 {
            Some(CommandOpcode::InitHca)
        } else if v == 0x104 {
            Some(CommandOpcode::EnableHca)
        } else if v == 0x107 {
            Some(CommandOpcode::QueryPages)
        } else if v == 0x108 {
            Some(CommandOpcode::ManagePages)
        } else if v == 0x10A {
            Some(CommandOpcode::QueryIssi)
        } else if v == 0x10B {
            Some(CommandOpcode::SetIssi)
        } else if v == 0x10D {
            Some(CommandOpcode::SetDriverVersion)
        } else if v == 0x203 {
            Some(CommandOpcode::QuerySpecialContexts)
        } else if v == 0x301 {
            Some(CommandOpcode::CreateEq)
        } else if v == 0x400 {
            Some(CommandOpcode::CreateCq)
        } else if v == 0x750 {
            Some(CommandOpcode::QueryVportState)
        } else if v == 0x754 {
            Some(CommandOpcode::QueryNicVportContext)
        } else if v == 0x755 {
            Some(CommandOpcode::ModifyNicVportContext)
        } else if v == 0x800 {
            Some(CommandOpcode::AllocPd)
        } else if v == 0x802 {
            Some(CommandOpcode::AllocUar)
        } else if v == 0x805 {
            Some(CommandOpcode::AccessRegister)
        } else if v == 0x816 {
            Some(CommandOpcode::AllocTransportDomain)
        } else if v == 0x900 {
            Some(CommandOpcode::CreateTir)
        } else if v == 0x904 {
            Some(CommandOpcode::CreateSq)
        } else if v == 0x905 {
            Some(CommandOpcode::ModifySq)
        } else if v == 0x907 {
            Some(CommandOpcode::QuerySq)
        } else if v == 0x908 {
            Some(CommandOpcode::CreateRq)
        } else if v == 0x909 {
            Some(CommandOpcode::ModifyRq)
        } else if v == 0x90B {
            Some(CommandOpcode::QueryRq)
        } else if v == 0x912 {
            Some(CommandOpcode::CreateTis)
        } else if v == 0x92F {
            Some(CommandOpcode::SetFlowTableRoot)
        } else if v == 0x930 {
            Some(CommandOpcode::CreateFlowTable)
        } else if v == 0x933 {
            Some(CommandOpcode::CreateFlowGroup)
        } else if v == 0x936 {
            Some(CommandOpcode::SetFlowTableEntry)
        } else {
            assert forall|s: CommandOpcode| s.code() != v by {
                match s {
                    CommandOpcode::QueryHcaCap => {},
                    CommandOpcode::InitHca => {},
                    CommandOpcode::EnableHca => {},
                    CommandOpcode::QueryPages => {},
                    CommandOpcode::ManagePages => {},
                    CommandOpcode::QueryIssi => {},
                    CommandOpcode::SetIssi => {},
                    CommandOpcode::SetDriverVersion => {},
                    CommandOpcode::QuerySpecialContexts => {},
                    CommandOpcode::CreateEq => {},
                    CommandOpcode::CreateCq => {},
                    CommandOpcode::QueryVportState => {},
                    CommandOpcode::QueryNicVportContext => {},
                    CommandOpcode::ModifyNicVportContext => {},
                    CommandOpcode::AllocPd => {},
                    CommandOpcode::AllocUar => {},
                    CommandOpcode::AccessRegister => {},
                    CommandOpcode::AllocTransportDomain => {},
                    CommandOpcode::CreateTir => {},
                    CommandOpcode::CreateSq => {},
                    CommandOpcode::ModifySq => {},
                    CommandOpcode::QuerySq => {},
                    CommandOpcode::CreateRq => {},
                    CommandOpcode::ModifyRq => {},
                    CommandOpcode::QueryRq => {},
                    CommandOpcode::CreateTis => {},
                    CommandOpcode::SetFlowTableRoot => {},
                    CommandOpcode::CreateFlowTable => {},
                    CommandOpcode::CreateFlowGroup => {},
                    CommandOpcode::SetFlowTableEntry => {},
                }
            }
            None
        }
    }
}

/// Command status written by the device in the status field of a command entry's output.
#[derive(Debug, Clone, Copy, PartialEq, Eq, Structural)]
pub enum CommandReturnStatus {
    OK,
    InternalError,
    BadOp,
    BadParam,
    BadSysState,
    BadResource,
    ResourceBusy,
    ExceedLim,
    BadResState,
    BadIndex,
    NoResources,
    BadInputLen,
    BadOutputLen,
    BadResourceState,
    BadPkt,
    BadSize,
}

impl CommandReturnStatus {
    /// The value that encodes this variant in the device's fields.
    pub open spec fn code(self) -> u8 {
        match self {
            CommandReturnStatus::OK => 0x00,
            CommandReturnStatus::InternalError => 0x01,
            CommandReturnStatus::BadOp => 0x02,
            CommandReturnStatus::BadParam => 0x03,
            CommandReturnStatus::BadSysState => 0x04,
            CommandReturnStatus::BadResource => 0x05,
            CommandReturnStatus::ResourceBusy => 0x06,
            CommandReturnStatus::ExceedLim => 0x08,
            CommandReturnStatus::BadResState => 0x09,
            CommandReturnStatus::BadIndex => 0x0A,
            CommandReturnStatus::NoResources => 0x0F,
            CommandReturnStatus::BadInputLen => 0x50,
            CommandReturnStatus::BadOutputLen => 0x51,
            CommandReturnStatus::BadResourceState => 0x10,
            CommandReturnStatus::BadPkt => 0x30,
            CommandReturnStatus::BadSize => 0x40,
        }
    }

    /// Returns the value that encodes this variant.
    pub fn value(&self) -> (r: u8)
        ensures
            r == self.code(),
    {
        match self {
            CommandReturnStatus::OK => 0x00,
            CommandReturnStatus::InternalError => 0x01,
            CommandReturnStatus::BadOp => 0x02,
            CommandReturnStatus::BadParam => 0x03,
            CommandReturnStatus::BadSysState => 0x04,
            CommandReturnStatus::BadResource => 0x05,
            CommandReturnStatus::ResourceBusy => 0x06,
            CommandReturnStatus::ExceedLim => 0x08,
            CommandReturnStatus::BadResState => 0x09,
            CommandReturnStatus::BadIndex => 0x0A,
            CommandReturnStatus::NoResources => 0x0F,
            CommandReturnStatus::BadInputLen => 0x50,
            CommandReturnStatus::BadOutputLen => 0x51,
            CommandReturnStatus::BadResourceState => 0x10,
            CommandReturnStatus::BadPkt => 0x30,
            CommandReturnStatus::BadSize => 0x40,
        }
    }

    /// The variant encoded by `v`, or `None` where no variant has that value.
    pub fn from_value(v: u8) -> (r: Option<CommandReturnStatus>)
        ensures
            r matches Some(s) ==> s.code() == v,
            r is None ==> forall|s: CommandReturnStatus| s.code() != v,
    {
        if v == 0x00 {
            Some(CommandReturnStatus::OK)
        } else if v == 0x01 {
            Some(CommandReturnStatus::InternalError)
        } else if v == 0x02 {
            Some(CommandReturnStatus::BadOp)
        } else if v == 0x03 {
            Some(CommandReturnStatus::BadParam)
        } else if v == 0x04 {
            Some(CommandReturnStatus::BadSysState)
        } else if v == 0x05 {
            Some(CommandReturnStatus::BadResource)
        } else if v == 0x06 {
            Some(CommandReturnStatus::ResourceBusy)
        } else if v == 0x08 {
            Some(CommandReturnStatus::ExceedLim)
        } else if v == 0x09 {
            Some(CommandReturnStatus::BadResState)
        } else if v == 0x0A {
            Some(CommandReturnStatus::BadIndex)
        } else if v == 0x0F {
            Some(CommandReturnStatus::NoResources)
        } else if v == 0x50 {
            Some(CommandReturnStatus::BadInputLen)
        } else if v == 0x51 {
            Some(CommandReturnStatus::BadOutputLen)
        } else if v == 0x10 {
            Some(CommandReturnStatus::BadResourceState)
        } else if v == 0x30 {
            Some(CommandReturnStatus::BadPkt)
        } else if v == 0x40 {
            Some(CommandReturnStatus::BadSize)
        } else {
            assert forall|s: CommandReturnStatus| s.code() != v by {
                match s {
                    CommandReturnStatus::OK => {},
                    CommandReturnStatus::InternalError => {},
                    CommandReturnStatus::BadOp => {},
                    CommandReturnStatus::BadParam => {},
                    CommandReturnStatus::BadSysState => {},
                    CommandReturnStatus::BadResource => {},
                    CommandReturnStatus::ResourceBusy => {},
                    CommandReturnStatus::ExceedLim => {},
                    CommandReturnStatus::BadResState => {},
                    CommandReturnStatus::BadIndex => {},
                    CommandReturnStatus::NoResources => {},
                    CommandReturnStatus::BadInputLen => {},
                    CommandReturnStatus::BadOutputLen => {},
                    CommandReturnStatus::BadResourceState => {},
                    CommandReturnStatus::BadPkt => {},
                    CommandReturnStatus::BadSize => {},
                }
            }
            None
        }
    }
}

/// Opcode modifier values for `CommandOpcode::ManagePages`.
#[derive(Debug, Clone, Copy, PartialEq, Eq, Structural)]
pub enum ManagePagesOpMod {
    AllocationFail,
    AllocationSuccess,
    HcaReturnPages,
}

impl ManagePagesOpMod {
    /// The value that encodes this variant in the device's fields.
    pub open spec fn code(self) -> u16 {
        match self {
            ManagePagesOpMod::AllocationFail => 0,
            ManagePagesOpMod::AllocationSuccess => 1,
            ManagePagesOpMod::HcaReturnPages => 2,
        }
    }

    /// Returns the value that encodes this variant.
    pub fn value(&self) -> (r: u16)
        ensures
            r == self.code(),
    {
        match self {
            ManagePagesOpMod::AllocationFail => 0,
            ManagePagesOpMod::AllocationSuccess => 1,
            ManagePagesOpMod::HcaReturnPages => 2,
        }
    }
}

/// Opcode modifier values for `CommandOpcode::QueryPages`.
#[derive(Debug, Clone, Copy, PartialEq, Eq, Structural)]
pub enum QueryPagesOpMod {
    BootPages,
    InitPages,
    RegularPages,
}

impl QueryPagesOpMod {
    /// The value that encodes this variant in the device's fields.
    pub open spec fn code(self) -> u16 {
        match self {
            QueryPagesOpMod::BootPages => 1,
            QueryPagesOpMod::InitPages => 2,
            QueryPagesOpMod::RegularPages => 3,
        }
    }

    /// Returns the value that encodes this variant.
    pub fn value(&self) -> (r: u16)
        ensures
            r == self.code(),
    {
        match self {
            QueryPagesOpMod::BootPages => 1,
            QueryPagesOpMod::InitPages => 2,
            QueryPagesOpMod::RegularPages => 3,
        }
    }
}

/// Opcode modifier values for `CommandOpcode::QueryVportState`.
#[derive(Debug, Clone, Copy, PartialEq, Eq, Structural)]
pub enum QueryVportStateOpMod {
    VnicVport,
    EswVport,
    Uplink,
}

impl QueryVportStateOpMod {
    /// The value that encodes this variant in the device's fields.
    pub open spec fn code(self) -> u16 {
        match self {
            QueryVportStateOpMod::VnicVport => 0,
            QueryVportStateOpMod::EswVport => 1,
            QueryVportStateOpMod::Uplink => 2,
        }
    }

    /// Returns the value that encodes this variant.
    pub fn value(&self) -> (r: u16)
        ensures
            r == self.code(),
    {
        match self {
            QueryVportStateOpMod::VnicVport => 0,
            QueryVportStateOpMod::EswVport => 1,
            QueryVportStateOpMod::Uplink => 2,
        }
    }
}

/// Opcode modifier values for `CommandOpcode::QueryHcaCap` asking for the maximum values of capabilities.
#[derive(Debug, Clone, Copy, PartialEq, Eq, Structural)]
pub enum QueryHcaCapMaxOpMod {
    GeneralDeviceCapabilities,
    EthernetOffloadCapabilities,
}

impl QueryHcaCapMaxOpMod {
    /// The value that encodes this variant in the device's fields.
    pub open spec fn code(self) -> u16 {
        match self {
            QueryHcaCapMaxOpMod::GeneralDeviceCapabilities => 0x0,
            QueryHcaCapMaxOpMod::EthernetOffloadCapabilities => 0x2,
        }
    }

    /// Returns the value that encodes this variant.
    pub fn value(&self) -> (r: u16)
        ensures
            r == self.code(),
    {
        match self {
            QueryHcaCapMaxOpMod::GeneralDeviceCapabilities => 0x0,
            QueryHcaCapMaxOpMod::EthernetOffloadCapabilities => 0x2,
        }
    }
}

/// Opcode modifier values for `CommandOpcode::QueryHcaCap` asking for the current values of capabilities.
#[derive(Debug, Clone, Copy, PartialEq, Eq, Structural)]
pub enum QueryHcaCapCurrentOpMod {
    GeneralDeviceCapabilities,
    EthernetOffloadCapabilities,
}

impl QueryHcaCapCurrentOpMod {
    /// The value that encodes this variant in the device's fields.
    pub open spec fn code(self) -> u16 {
        match self {
            QueryHcaCapCurrentOpMod::GeneralDeviceCapabilities => 0x1,
            QueryHcaCapCurrentOpMod::EthernetOffloadCapabilities => 0x3,
        }
    }

    /// Returns the value that encodes this variant.
    pub fn value(&self) -> (r: u16)
        ensures
            r == self.code(),
    {
        match self {
            QueryHcaCapCurrentOpMod::GeneralDeviceCapabilities => 0x1,
            QueryHcaCapCurrentOpMod::EthernetOffloadCapabilities => 0x3,
        }
    }
}

/// Opcode modifier values for `CommandOpcode::AccessRegister`.
#[derive(Debug, Clone, Copy, PartialEq, Eq, Structural)]
pub enum AccessRegisterOpMod {
    Write,
    Read,
}

impl AccessRegisterOpMod {
    /// The value that encodes this variant in the device's fields.
    pub open spec fn code(self) -> u16 {
        match self {
            AccessRegisterOpMod::Write => 0,
            AccessRegisterOpMod::Read => 1,
        }
    }

    /// Returns the value that encodes this variant.
    pub fn value(&self) -> (r: u16)
        ensures
            r == self.code(),
    {
        match self {
            AccessRegisterOpMod::Write => 0,
            AccessRegisterOpMod::Read => 1,
        }
    }
}

/// Port types reported in the device capabilities.
#[derive(Debug, Clone, Copy, PartialEq, Eq, Structural)]
pub enum HcaPortType {
    /// Infiniband
    IB,
    Ethernet,
}

impl HcaPortType {
    /// The value that encodes this variant in the device's fields.
    pub open spec fn code(self) -> u8 {
        match self {
            HcaPortType::IB => 0x0,
            HcaPortType::Ethernet => 0x1,
        }
    }

    /// Returns the value that encodes this variant.
    pub fn value(&self) -> (r: u8)
        ensures
            r == self.code(),
    {
        match self {
            HcaPortType::IB => 0x0,
            HcaPortType::Ethernet => 0x1,
        }
    }

    /// The variant encoded by `v`, or `None` where no variant has that value.
    pub fn from_value(v: u8) -> (r: Option<HcaPortType>)
        ensures
            r matches Some(s) ==> s.code() == v,
            r is None ==> forall|s: HcaPortType| s.code() != v,
    {
        if v == 0x0 {
            Some(HcaPortType::IB)
        } else if v == 0x1 {
            Some(HcaPortType::Ethernet)
        } else {
            assert forall|s: HcaPortType| s.code() != v by {
                match s {
                    HcaPortType::IB => {},
                    HcaPortType::Ethernet => {},
                }
            }
            None
        }
    }
}


/// Size of a mailbox, control fields and data together.
pub const MAILBOX_SIZE_IN_BYTES: usize = 576;

/// Number of bytes of a mailbox that carry command data.
pub const MAILBOX_DATA_SIZE_IN_BYTES: usize = 512;

/// Mailboxes are aligned at 4 KiB, so they always start at offset 0 of a page.
pub const DEFAULT_MAILBOX_OFFSET_IN_PAGE: usize = 0;

/// Each physical address takes 8 bytes in a mailbox.
pub const SIZE_PADDR_IN_BYTES: usize = 8;

/// Possible reasons for failure when executing a command.
#[derive(Debug, Clone, Copy, PartialEq, Eq, Structural)]
pub enum CommandQueueError {
    /// All command entries are currently being used
    NoCommandEntryAvailable,
    /// Allocated pages are not passed to a command that requires them
    MissingInputPages,
    /// Any other input is not passed to a command that requires them
    MissingInput,
    /// Opcode value in the command entry is not what was expected
    IncorrectCommandOpcode,
    /// Opcode in the command entry is not a valid value
    InvalidCommandOpcode,
    /// Delivery status in the command entry is not a valid value
    InvalidCommandDeliveryStatus,
    /// Return status in the command entry is not a valid value
    InvalidCommandReturnStatus,
    /// Trying to access the command entry before the device is done processing it
    CommandNotCompleted,
    /// Offset in a page is too large to hold a mailbox at that offset
    InvalidMailboxOffset,
    /// Creating a mapping for a mailbox page failed
    PageAllocationFailed,
    /// Initializing a command entry for the given opcode has not been implemented
    UnimplementedOpcode,
    /// Some function has not been implemented for the given opcode
    NotImplemented,
    /// The returned port type is not a valid value
    InvalidPortType,
    /// The returned state of the SQ is invalid
    InvalidSQState,
}

impl CommandQueueError {
    /// The message that describes this error.
    pub open spec fn message(self) -> Seq<char> {
        match self {
            CommandQueueError::NoCommandEntryAvailable => "No command entry is available"@,
            CommandQueueError::MissingInputPages => "No pages were passed to the command"@,
            CommandQueueError::MissingInput => "An input was not passed to a command that required it"@,
            CommandQueueError::IncorrectCommandOpcode => "Incorrect command opcode"@,
            CommandQueueError::InvalidCommandOpcode => "Invalid command opcode. This could be because the value is invalid, \n                                                        or because the driver currently doesn't support the opcode."@,
            CommandQueueError::InvalidCommandDeliveryStatus => "Invalid command delivery status"@,
            CommandQueueError::InvalidCommandReturnStatus => "Invalid command return status"@,
            CommandQueueError::CommandNotCompleted => "Command not complete yet"@,
            CommandQueueError::InvalidMailboxOffset => "Invalid offset for mailbox in a page"@,
            CommandQueueError::PageAllocationFailed => "Failed to allocate MappedPages"@,
            CommandQueueError::UnimplementedOpcode => "Opcode is not implemented"@,
            CommandQueueError::NotImplemented => "Function not implemented for the given opcode"@,
            CommandQueueError::InvalidPortType => "Invalid port type"@,
            CommandQueueError::InvalidSQState => "Invalid SQ State"@,
        }
    }

    /// Returns the message that describes this error.
    pub fn as_str(&self) -> (r: &'static str)
        ensures
            r@ == self.message(),
    {
        match self {
            CommandQueueError::NoCommandEntryAvailable => "No command entry is available",
            CommandQueueError::MissingInputPages => "No pages were passed to the command",
            CommandQueueError::MissingInput => "An input was not passed to a command that required it",
            CommandQueueError::IncorrectCommandOpcode => "Incorrect command opcode",
            CommandQueueError::InvalidCommandOpcode => "Invalid command opcode. This could be because the value is invalid, \n                                                        or because the driver currently doesn't support the opcode.",
            CommandQueueError::InvalidCommandDeliveryStatus => "Invalid command delivery status",
            CommandQueueError::InvalidCommandReturnStatus => "Invalid command return status",
            CommandQueueError::CommandNotCompleted => "Command not complete yet",
            CommandQueueError::InvalidMailboxOffset => "Invalid offset for mailbox in a page",
            CommandQueueError::PageAllocationFailed => "Failed to allocate MappedPages",
            CommandQueueError::UnimplementedOpcode => "Opcode is not implemented",
            CommandQueueError::NotImplemented => "Function not implemented for the given opcode",
            CommandQueueError::InvalidPortType => "Invalid port type",
            CommandQueueError::InvalidSQState => "Invalid SQ State",
        }
    }
}

impl From<CommandQueueError> for &'static str {
    fn from(error: CommandQueueError) -> (r: &'static str) {
        match error {
            CommandQueueError::NoCommandEntryAvailable => "No command entry is available",
            CommandQueueError::MissingInputPages => "No pages were passed to the command",
            CommandQueueError::MissingInput => "An input was not passed to a command that required it",
            CommandQueueError::IncorrectCommandOpcode => "Incorrect command opcode",
            CommandQueueError::InvalidCommandOpcode => "Invalid command opcode. This could be because the value is invalid, \n                                                        or because the driver currently doesn't support the opcode.",
            CommandQueueError::InvalidCommandDeliveryStatus => "Invalid command delivery status",
            CommandQueueError::InvalidCommandReturnStatus => "Invalid command return status",
            CommandQueueError::CommandNotCompleted => "Command not complete yet",
            CommandQueueError::InvalidMailboxOffset => "Invalid offset for mailbox in a page",
            CommandQueueError::PageAllocationFailed => "Failed to allocate MappedPages",
            CommandQueueError::UnimplementedOpcode => "Opcode is not implemented",
            CommandQueueError::NotImplemented => "Function not implemented for the given opcode",
            CommandQueueError::InvalidPortType => "Invalid port type",
            CommandQueueError::InvalidSQState => "Invalid SQ State",
        }
    }
}

impl vstd::std_specs::convert::FromSpecImpl<CommandQueueError> for &'static str {
    open spec fn obeys_from_spec() -> bool {
        true
    }

    open spec fn from_spec(error: CommandQueueError) -> &'static str {
        match error {
            CommandQueueError::NoCommandEntryAvailable => "No command entry is available",
            CommandQueueError::MissingInputPages => "No pages were passed to the command",
            CommandQueueError::MissingInput => "An input was not passed to a command that required it",
            CommandQueueError::IncorrectCommandOpcode => "Incorrect command opcode",
            CommandQueueError::InvalidCommandOpcode => "Invalid command opcode. This could be because the value is invalid, \n                                                        or because the driver currently doesn't support the opcode.",
            CommandQueueError::InvalidCommandDeliveryStatus => "Invalid command delivery status",
            CommandQueueError::InvalidCommandReturnStatus => "Invalid command return status",
            CommandQueueError::CommandNotCompleted => "Command not complete yet",
            CommandQueueError::InvalidMailboxOffset => "Invalid offset for mailbox in a page",
            CommandQueueError::PageAllocationFailed => "Failed to allocate MappedPages",
            CommandQueueError::UnimplementedOpcode => "Opcode is not implemented",
            CommandQueueError::NotImplemented => "Function not implemented for the given opcode",
            CommandQueueError::InvalidPortType => "Invalid port type",
            CommandQueueError::InvalidSQState => "Invalid SQ State",
        }
    }
}


/// The number of mailboxes that `size` bytes of command data fill.
pub open spec fn mailboxes_for(size: int) -> int {
    (size + MAILBOX_DATA_SIZE_IN_BYTES - 1) / (MAILBOX_DATA_SIZE_IN_BYTES as int)
}

impl CommandOpcode {
    /// Whether the command carries the physical addresses of pages.
    pub open spec fn takes_pages(self) -> bool {
        match self {
            CommandOpcode::ManagePages => true,
            CommandOpcode::CreateEq => true,
            CommandOpcode::CreateCq => true,
            CommandOpcode::CreateSq => true,
            CommandOpcode::CreateRq => true,
            _ => false,
        }
    }

    /// The input bytes of a page-carrying command that precede its page addresses.
    pub open spec fn input_header_bytes(self) -> int {
        match self {
            CommandOpcode::ManagePages => 0x10,
            _ => 0x110,
        }
    }

    /// The mailbox bytes of a page-carrying command that precede its page addresses.
    pub open spec fn mailbox_header_bytes(self) -> int {
        match self {
            CommandOpcode::ManagePages => 0,
            _ => 0x100,
        }
    }

    /// The input length that `input_bytes` reports, where the page count is
    /// first taken as a `u32`.
    pub open spec fn input_bytes_spec(self, num_pages: Option<usize>) -> Result<u32, CommandQueueError> {
        if self.takes_pages() {
            match num_pages {
                None => Err(CommandQueueError::MissingInput),
                Some(n) => Ok((self.input_header_bytes() + (n as u32) * SIZE_PADDR_IN_BYTES) as u32),
            }
        } else {
            match self {
                CommandOpcode::QueryHcaCap => Ok(16),
                CommandOpcode::InitHca => Ok(16),
                CommandOpcode::EnableHca => Ok(16),
                CommandOpcode::QueryPages => Ok(16),
                CommandOpcode::QueryIssi => Ok(8),
                CommandOpcode::SetIssi => Ok(16),
                CommandOpcode::QuerySpecialContexts => Ok(16),
                CommandOpcode::QueryVportState => Ok(16),
                CommandOpcode::QueryNicVportContext => Ok(16),
                CommandOpcode::ModifyNicVportContext => Ok(0x200),
                CommandOpcode::AllocPd => Ok(16),
                CommandOpcode::AllocUar => Ok(16),
                CommandOpcode::AccessRegister => Ok(0x20),
                CommandOpcode::AllocTransportDomain => Ok(16),
                CommandOpcode::CreateTir => Ok(0x110),
                CommandOpcode::ModifySq => Ok(0x118),
                CommandOpcode::QuerySq => Ok(12),
                CommandOpcode::ModifyRq => Ok(0x118),
                CommandOpcode::QueryRq => Ok(12),
                CommandOpcode::CreateTis => Ok(0xC0),
                CommandOpcode::SetFlowTableRoot => Ok(0x40),
                CommandOpcode::CreateFlowTable => Ok(0x40),
                CommandOpcode::CreateFlowGroup => Ok(0x400),
                CommandOpcode::SetFlowTableEntry => Ok(0x348),
                _ => Err(CommandQueueError::NotImplemented),
            }
        }
    }

    /// The page count, taken as a `u32`, fits the input length in a `u32`.
    pub open spec fn input_bytes_fit(self, num_pages: Option<usize>) -> bool {
        self.takes_pages() ==> (num_pages matches Some(n) ==> self.input_header_bytes() + (n as u32)
            * SIZE_PADDR_IN_BYTES <= u32::MAX)
    }

    /// Returns the input length of the command in bytes; `num_pages` is the
    /// number of pages handed to the device, for the commands that carry pages.
    pub fn input_bytes(&self, num_pages: Option<usize>) -> (r: Result<u32, CommandQueueError>)
        requires
            self.input_bytes_fit(num_pages),
        ensures
            r == self.input_bytes_spec(num_pages),
    {
        match self {
            CommandOpcode::ManagePages => match num_pages {
                None => Err(CommandQueueError::MissingInput),
                Some(n) => {
                    let n = n as u32;
                    Ok(0x10 + n * 8)
                },
            },
            CommandOpcode::CreateEq | CommandOpcode::CreateCq | CommandOpcode::CreateSq
            | CommandOpcode::CreateRq => match num_pages {
                None => Err(CommandQueueError::MissingInput),
                Some(n) => {
                    let n = n as u32;
                    Ok(0x110 + n * 8)
                },
            },
            CommandOpcode::QueryHcaCap => Ok(16),
            CommandOpcode::InitHca => Ok(16),
            CommandOpcode::EnableHca => Ok(16),
            CommandOpcode::QueryPages => Ok(16),
            CommandOpcode::QueryIssi => Ok(8),
            CommandOpcode::SetIssi => Ok(16),
            CommandOpcode::QuerySpecialContexts => Ok(16),
            CommandOpcode::QueryVportState => Ok(16),
            CommandOpcode::QueryNicVportContext => Ok(16),
            CommandOpcode::ModifyNicVportContext => Ok(0x200),
            CommandOpcode::AllocPd => Ok(16),
            CommandOpcode::AllocUar => Ok(16),
            CommandOpcode::AccessRegister => Ok(0x20),
            CommandOpcode::AllocTransportDomain => Ok(16),
            CommandOpcode::CreateTir => Ok(0x20 + 0xF0),
            CommandOpcode::ModifySq => Ok(0x118),
            CommandOpcode::QuerySq => Ok(12),
            CommandOpcode::ModifyRq => Ok(0x118),
            CommandOpcode::QueryRq => Ok(12),
            CommandOpcode::CreateTis => Ok(0x20 + 0xA0),
            CommandOpcode::SetFlowTableRoot => Ok(0x40),
            CommandOpcode::CreateFlowTable => Ok(0x40),
            CommandOpcode::CreateFlowGroup => Ok(0x400),
            CommandOpcode::SetFlowTableEntry => Ok(0x40 + 0x300 + 8),
            CommandOpcode::SetDriverVersion => Err(CommandQueueError::NotImplemented),
        }
    }

    /// The output length that `output_bytes` reports.
    pub open spec fn output_bytes_spec(self) -> Result<u32, CommandQueueError> {
        match self {
            CommandOpcode::QueryHcaCap => Ok(0x110),
            CommandOpcode::EnableHca => Ok(12),
            CommandOpcode::QueryIssi => Ok(0x70),
            CommandOpcode::QueryNicVportContext => Ok(0x118),
            CommandOpcode::ModifySq => Ok(8),
            CommandOpcode::QuerySq => Ok(0x210),
            CommandOpcode::QueryRq => Ok(0x210),
            CommandOpcode::SetDriverVersion => Err(CommandQueueError::NotImplemented),
            _ => Ok(16),
        }
    }

    /// Returns the output length of the command in bytes.
    pub fn output_bytes(&self) -> (r: Result<u32, CommandQueueError>)
        ensures
            r == self.output_bytes_spec(),
    {
        match self {
            CommandOpcode::QueryHcaCap => Ok(16 + 0x100),
            CommandOpcode::InitHca => Ok(16),
            CommandOpcode::EnableHca => Ok(12),
            CommandOpcode::QueryPages => Ok(16),
            CommandOpcode::ManagePages => Ok(16),
            CommandOpcode::QueryIssi => Ok(0x70),
            CommandOpcode::SetIssi => Ok(16),
            CommandOpcode::QuerySpecialContexts => Ok(16),
            CommandOpcode::CreateEq => Ok(16),
            CommandOpcode::CreateCq => Ok(16),
            CommandOpcode::QueryVportState => Ok(16),
            CommandOpcode::QueryNicVportContext => Ok(16 + 0x108),
            CommandOpcode::ModifyNicVportContext => Ok(16),
            CommandOpcode::AllocPd => Ok(16),
            CommandOpcode::AllocUar => Ok(16),
            CommandOpcode::AccessRegister => Ok(16),
            CommandOpcode::AllocTransportDomain => Ok(16),
            CommandOpcode::CreateTir => Ok(16),
            CommandOpcode::CreateSq => Ok(16),
            CommandOpcode::ModifySq => Ok(8),
            CommandOpcode::QuerySq => Ok(0x10 + 512),
            CommandOpcode::CreateRq => Ok(16),
            CommandOpcode::ModifyRq => Ok(16),
            CommandOpcode::QueryRq => Ok(0x10 + 512),
            CommandOpcode::CreateTis => Ok(16),
            CommandOpcode::SetFlowTableRoot => Ok(0x10),
            CommandOpcode::CreateFlowTable => Ok(0x10),
            CommandOpcode::CreateFlowGroup => Ok(0x10),
            CommandOpcode::SetFlowTableEntry => Ok(0x10),
            CommandOpcode::SetDriverVersion => Err(CommandQueueError::NotImplemented),
        }
    }

    /// The number of input mailboxes that `num_input_mailboxes` reports.
    pub open spec fn num_input_mailboxes_spec(self, num_pages: Option<usize>) -> Result<usize, CommandQueueError> {
        if self.takes_pages() {
            match num_pages {
                None => Err(CommandQueueError::MissingInput),
                Some(n) => Ok(mailboxes_for(self.mailbox_header_bytes() + n * SIZE_PADDR_IN_BYTES) as usize),
            }
        } else {
            match self {
                CommandOpcode::ModifyNicVportContext => Ok(1),
                CommandOpcode::AccessRegister => Ok(1),
                CommandOpcode::CreateTir => Ok(1),
                CommandOpcode::ModifySq => Ok(1),
                CommandOpcode::ModifyRq => Ok(1),
                CommandOpcode::CreateTis => Ok(1),
                CommandOpcode::SetFlowTableRoot => Ok(1),
                CommandOpcode::CreateFlowTable => Ok(1),
                CommandOpcode::CreateFlowGroup => Ok(1),
                CommandOpcode::SetFlowTableEntry => Ok(2),
                CommandOpcode::SetDriverVersion => Err(CommandQueueError::NotImplemented),
                CommandOpcode::QueryRq => Err(CommandQueueError::NotImplemented),
                _ => Ok(0),
            }
        }
    }

    /// The bytes of page addresses fit in a `usize` together with what precedes them.
    pub open spec fn input_mailboxes_fit(self, num_pages: Option<usize>) -> bool {
        self.takes_pages() ==> (num_pages matches Some(n) ==> self.mailbox_header_bytes() + n
            * SIZE_PADDR_IN_BYTES <= usize::MAX)
    }

    /// The number of mailboxes that `size_of_data_in_bytes` bytes of command data fill.
    fn num_mailboxes(size_of_data_in_bytes: usize) -> (r: usize)
        ensures
            r == mailboxes_for(size_of_data_in_bytes as int),
    {
        let q = size_of_data_in_bytes / MAILBOX_DATA_SIZE_IN_BYTES;
        if size_of_data_in_bytes % MAILBOX_DATA_SIZE_IN_BYTES == 0 {
            q
        } else {
            q + 1
        }
    }

    /// Returns the number of mailboxes that the command's input needs.
    pub fn num_input_mailboxes(&self, num_pages: Option<usize>) -> (r: Result<usize, CommandQueueError>)
        requires
            self.input_mailboxes_fit(num_pages),
        ensures
            r == self.num_input_mailboxes_spec(num_pages),
    {
        match self {
            CommandOpcode::ManagePages => match num_pages {
                None => Err(CommandQueueError::MissingInput),
                Some(n) => Ok(Self::num_mailboxes(n * SIZE_PADDR_IN_BYTES)),
            },
            CommandOpcode::CreateEq | CommandOpcode::CreateCq => match num_pages {
                None => Err(CommandQueueError::MissingInput),
                Some(n) => Ok(Self::num_mailboxes((0x110 - 0x10) + SIZE_PADDR_IN_BYTES * n)),
            },
            CommandOpcode::CreateSq | CommandOpcode::CreateRq => match num_pages {
                None => Err(CommandQueueError::MissingInput),
                Some(n) => Ok(Self::num_mailboxes(0x10 + 0x30 + 0xC0 + SIZE_PADDR_IN_BYTES * n)),
            },
            CommandOpcode::ModifyNicVportContext => Ok(1),
            CommandOpcode::AccessRegister => Ok(1),
            CommandOpcode::CreateTir => Ok(1),
            CommandOpcode::ModifySq => Ok(1),
            CommandOpcode::ModifyRq => Ok(1),
            CommandOpcode::CreateTis => Ok(1),
            CommandOpcode::SetFlowTableRoot => Ok(1),
            CommandOpcode::CreateFlowTable => Ok(1),
            CommandOpcode::CreateFlowGroup => Ok(1),
            CommandOpcode::SetFlowTableEntry => {
                // one destination entry of 8 bytes follows the flow context
                Ok(Self::num_mailboxes(0x30 + 0x300 + 8))
            },
            CommandOpcode::SetDriverVersion | CommandOpcode::QueryRq => Err(
                CommandQueueError::NotImplemented,
            ),
            _ => Ok(0),
        }
    }

    /// The number of output mailboxes that `num_output_mailboxes` reports.
    pub open spec fn num_output_mailboxes_spec(self) -> Result<usize, CommandQueueError> {
        match self {
            CommandOpcode::QueryHcaCap => Ok(1),
            CommandOpcode::QueryIssi => Ok(1),
            CommandOpcode::QueryNicVportContext => Ok(1),
            CommandOpcode::AccessRegister => Ok(1),
            CommandOpcode::QuerySq => Ok(1),
            CommandOpcode::SetDriverVersion => Err(CommandQueueError::NotImplemented),
            CommandOpcode::QueryRq => Err(CommandQueueError::NotImplemented),
            _ => Ok(0),
        }
    }

    /// Returns the number of mailboxes that the command's output needs.
    pub fn num_output_mailboxes(&self) -> (r: Result<usize, CommandQueueError>)
        ensures
            r == self.num_output_mailboxes_spec(),
    {
        match self {
            CommandOpcode::QueryHcaCap => Ok(1),
            CommandOpcode::QueryIssi => Ok(1),
            CommandOpcode::QueryNicVportContext => Ok(1),
            CommandOpcode::AccessRegister => Ok(1),
            CommandOpcode::QuerySq => Ok(1),
            CommandOpcode::SetDriverVersion | CommandOpcode::QueryRq => Err(
                CommandQueueError::NotImplemented,
            ),
            _ => Ok(0),
        }
    }
}


/// The states a command goes through as the driver fills it and hands it to the device.
#[derive(Debug, Clone, Copy, PartialEq, Eq, Structural)]
pub enum CmdState {
    /// The command entry has been filled, but it is still owned by software
    Initialized,
    /// The command has been handed to the device by ringing the doorbell
    Posted,
    /// The device has processed the command and its output can be read
    Completed,
}

/// The two statuses that the device reports for a completed command.
#[derive(Debug, Clone, Copy, PartialEq, Eq, Structural)]
pub struct CommandCompletionStatus {
    pub delivery_status: CommandDeliveryStatus,
    pub return_status: CommandReturnStatus,
}

/// Distinct delivery statuses have distinct values, so a status's value is
/// read back as that status.
pub proof fn law_delivery_status_value_unique(a: CommandDeliveryStatus, b: CommandDeliveryStatus)
    ensures
        a.code() == b.code() ==> a == b,
{
}

/// Distinct opcodes have distinct values, so an opcode's value is read back
/// as that opcode.
pub proof fn law_opcode_value_unique(a: CommandOpcode, b: CommandOpcode)
    ensures
        a.code() == b.code() ==> a == b,
{
}

/// Distinct return statuses have distinct values, so a status's value is
/// read back as that status.
pub proof fn law_return_status_value_unique(a: CommandReturnStatus, b: CommandReturnStatus)
    ensures
        a.code() == b.code() ==> a == b,
{
}

/// Distinct port types have distinct values, so a port type's value is read
/// back as that port type.
pub proof fn law_port_type_value_unique(a: HcaPortType, b: HcaPortType)
    ensures
        a.code() == b.code() ==> a == b,
{
}


/// The input mailboxes of a command are the fewest 512-byte mailboxes that
/// hold all its input bytes beyond the 16 carried in the command entry
/// itself (none where the input fits there). `CreateFlowGroup`, which is
/// given one mailbox for its larger input, is left out, as are page counts
/// that do not fit a `u32`, which the input length is computed from.
pub proof fn law_input_mailboxes_hold_the_input(op: CommandOpcode, num_pages: Option<usize>)
    requires
        op != CommandOpcode::CreateFlowGroup,
        op.input_bytes_fit(num_pages),
        op.input_mailboxes_fit(num_pages),
        num_pages matches Some(n) ==> n <= u32::MAX,
    ensures
        match (op.input_bytes_spec(num_pages), op.num_input_mailboxes_spec(num_pages)) {
            (Ok(len), Ok(m)) => m == mailboxes_for(if len > 16 { len - 16 } else { 0 }),
            _ => true,
        },
{
    if op.takes_pages() {
        if let Some(n) = num_pages {
            assert((n as u32) as int == n as int);
        }
    }
}

} // verus!
