//! The states of the send and receive queues and the bookkeeping of the send
//! queue: which descriptor comes next and which doorbell register is rung.

use vstd::prelude::*;

verus! {

/// The states a send queue can be in.
#[derive(Debug, Clone, Copy, PartialEq, Eq, Structural)]
pub enum SendQueueState {
    Reset,
    Ready,
    Error,
}

impl SendQueueState {
    /// The value that encodes this variant in the device's fields.
    pub open spec fn code(self) -> u8 {
        match self {
            SendQueueState::Reset => 0x0,
            SendQueueState::Ready => 0x1,
            SendQueueState::Error => 0x3,
        }
    }

    /// Returns the value that encodes this variant.
    pub fn value(&self) -> (r: u8)
        ensures
            r == self.code(),
    {
        match self {
            SendQueueState::Reset => 0x0,
            SendQueueState::Ready => 0x1,
            SendQueueState::Error => 0x3,
        }
    }

    /// The variant encoded by `v`, or `None` where no variant has that value.
    pub fn from_value(v: u8) -> (r: Option<SendQueueState>)
        ensures
            r matches Some(s) ==> s.code() == v,
            r is None ==> forall|s: SendQueueState| s.code() != v,
    {
        if v == 0x0 {
            Some(SendQueueState::Reset)
        } else if v == 0x1 {
            Some(SendQueueState::Ready)
        } else if v == 0x3 {
            Some(SendQueueState::Error)
        } else {
            assert forall|s: SendQueueState| s.code() != v by {
                match s {
                    SendQueueState::Reset => {},
                    SendQueueState::Ready => {},
                    SendQueueState::Error => {},
                }
            }
            None
        }
    }
}

/// The states a receive queue can be in.
#[derive(Debug, Clone, Copy, PartialEq, Eq, Structural)]
pub enum ReceiveQueueState {
    Reset,
    Ready,
    Error,
}

impl ReceiveQueueState {
    /// The value that encodes this variant in the device's fields.
    pub open spec fn code(self) -> u8 {
        match self {
            ReceiveQueueState::Reset => 0x0,
            ReceiveQueueState::Ready => 0x1,
            ReceiveQueueState::Error => 0x3,
        }
    }

    /// Returns the value that encodes this variant.
    pub fn value(&self) -> (r: u8)
        ensures
            r == self.code(),
    {
        match self {
            ReceiveQueueState::Reset => 0x0,
            ReceiveQueueState::Ready => 0x1,
            ReceiveQueueState::Error => 0x3,
        }
    }

    /// The variant encoded by `v`, or `None` where no variant has that value.
    pub fn from_value(v: u8) -> (r: Option<ReceiveQueueState>)
        ensures
            r matches Some(s) ==> s.code() == v,
            r is None ==> forall|s: ReceiveQueueState| s.code() != v,
    {
        if v == 0x0 {
            Some(ReceiveQueueState::Reset)
        } else if v == 0x1 {
            Some(ReceiveQueueState::Ready)
        } else if v == 0x3 {
            Some(ReceiveQueueState::Error)
        } else {
            assert forall|s: ReceiveQueueState| s.code() != v by {
                match s {
                    ReceiveQueueState::Reset => {},
                    ReceiveQueueState::Ready => {},
                    ReceiveQueueState::Error => {},
                }
            }
            None
        }
    }
}

/// The two doorbell registers that packets are sent through, in turn.
#[derive(Debug, Clone, Copy, PartialEq, Eq, Structural)]
pub enum CurrentUARDoorbell {
    Even,
    Odd,
}

impl CurrentUARDoorbell {
    /// The other doorbell register.
    pub open spec fn other(self) -> CurrentUARDoorbell {
        match self {
            CurrentUARDoorbell::Even => CurrentUARDoorbell::Odd,
            CurrentUARDoorbell::Odd => CurrentUARDoorbell::Even,
        }
    }

    /// Returns the doorbell register to use after this one.
    pub fn alternate(&self) -> (r: CurrentUARDoorbell)
        ensures
            r == self.other(),
    {
        match self {
            CurrentUARDoorbell::Even => CurrentUARDoorbell::Odd,
            CurrentUARDoorbell::Odd => CurrentUARDoorbell::Even,
        }
    }
}

/// Distinct send queue states have distinct values, so a state's value is
/// read back as that state.
pub proof fn law_send_queue_state_value_unique(a: SendQueueState, b: SendQueueState)
    ensures
        a.code() == b.code() ==> a == b,
{
}

/// Distinct receive queue states have distinct values, so a state's value is
/// read back as that state.
pub proof fn law_receive_queue_state_value_unique(a: ReceiveQueueState, b: ReceiveQueueState)
    ensures
        a.code() == b.code() ==> a == b,
{
}

/// Packets go through the two doorbell registers in turn: the register
/// after the next one is the current one again, and the next one differs.
pub proof fn law_doorbells_alternate(d: CurrentUARDoorbell)
    ensures
        d.other().other() == d,
        d.other() != d,
{
}

} // verus!
