use vstd::prelude::*;

verus! {

/// Bit of the rights mask that lets the authority name a new receiver.
pub const CAN_SET_RECEIVER: u8 = 0b0000_0001;

/// Bit of the rights mask that lets the authority move the unlock time.
pub const CAN_SET_DURATION: u8 = 0b0000_0010;

/// An administrative action that a vault's authority may be allowed to take.
#[derive(Clone, Copy, Debug, PartialEq, Eq, Structural)]
pub enum Capability {
    /// Replace the receiver of the locked funds.
    SetReceiver,
    /// Replace the unlock time.
    SetDuration,
}

impl Capability {
    /// The bit of the rights mask that stands for this capability.
    pub open spec fn spec_mask(self) -> u8 {
        match self {
            Capability::SetReceiver => CAN_SET_RECEIVER,
            Capability::SetDuration => CAN_SET_DURATION,
        }
    }

    /// The bit of the rights mask that stands for this capability.
    pub fn mask(self) -> (mask: u8)
        ensures
            mask == self.spec_mask(),
    {
        match self {
            Capability::SetReceiver => CAN_SET_RECEIVER,
            Capability::SetDuration => CAN_SET_DURATION,
        }
    }
}

/// Whether the rights mask `rights` grants `capability`.
pub open spec fn spec_has_right(rights: u8, capability: Capability) -> bool {
    rights & capability.spec_mask() != 0
}

/// Whether the rights mask `rights` grants `capability`.
pub fn has_right(rights: u8, capability: Capability) -> (granted: bool)
    ensures
        granted == spec_has_right(rights, capability),
{
    rights & capability.mask() != 0
}

/// The rights mask that grants exactly the capabilities asked for.
pub fn rights_mask(set_receiver: bool, set_duration: bool) -> (rights: u8)
    ensures
        spec_has_right(rights, Capability::SetReceiver) == set_receiver,
        spec_has_right(rights, Capability::SetDuration) == set_duration,
        rights <= 3,
{
    let low: u8 = if set_receiver { CAN_SET_RECEIVER } else { 0 };
    let high: u8 = if set_duration { CAN_SET_DURATION } else { 0 };
    let rights: u8 = low | high;
    assert((low == 0 || low == 1) && (high == 0 || high == 2) ==> (low | high) <= 3
        && ((low | high) & 1 != 0) == (low == 1)
        && ((low | high) & 2 != 0) == (high == 2)) by (bit_vector);
    rights
}

/// A mask without bits grants nothing.
pub proof fn lemma_no_rights(capability: Capability)
    ensures
        !spec_has_right(0, capability),
{
    assert(0u8 & 1u8 == 0u8) by (bit_vector);
    assert(0u8 & 2u8 == 0u8) by (bit_vector);
}

/// The two capabilities are independent bits: a mask grants one of them
/// without granting the other.
pub proof fn lemma_rights_independent()
    ensures
        spec_has_right(CAN_SET_RECEIVER, Capability::SetReceiver),
        !spec_has_right(CAN_SET_RECEIVER, Capability::SetDuration),
        spec_has_right(CAN_SET_DURATION, Capability::SetDuration),
        !spec_has_right(CAN_SET_DURATION, Capability::SetReceiver),
{
    assert(1u8 & 1u8 == 1u8) by (bit_vector);
    assert(1u8 & 2u8 == 0u8) by (bit_vector);
    assert(2u8 & 2u8 == 2u8) by (bit_vector);
    assert(2u8 & 1u8 == 0u8) by (bit_vector);
}

} // verus!
