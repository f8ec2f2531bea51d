use vstd::prelude::*;

verus! {

/// Process-visible sender handle (never zero).
#[derive(Clone, Copy, Debug, PartialEq, Eq, Structural, Hash)]
pub struct SenderId(pub u32);

/// Hardware slot index of a sender (never zero).
#[derive(Clone, Copy, Debug, PartialEq, Eq, Structural, Hash)]
pub struct SenderUintcId(pub u16);

/// Process-visible receiver handle (never zero).
#[derive(Clone, Copy, Debug, PartialEq, Eq, Structural, Hash)]
pub struct ReceiverId(pub u32);

/// Hardware slot index of a receiver (never zero).
#[derive(Clone, Copy, Debug, PartialEq, Eq, Structural, Hash)]
pub struct ReceiverUintcId(pub u16);

/// The pair recorded for a live sender, as handed to user space.
#[derive(Clone, Copy, Debug, PartialEq, Eq, Structural)]
pub struct SenderInfo {
    pub id: SenderId,
    pub uintc_id: SenderUintcId,
}

/// The pair recorded for a live receiver, as handed to user space.
#[derive(Clone, Copy, Debug, PartialEq, Eq, Structural)]
pub struct ReceiverInfo {
    pub id: ReceiverId,
    pub uintc_id: ReceiverUintcId,
}

} // verus!
