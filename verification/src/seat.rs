//! Seat capabilities and the negotiation of a keyboard from a seat.

use crate::registry::ObjectId;
use vstd::prelude::*;

verus! {

/// A class of input device that a seat can expose.
#[derive(Clone, Copy, Debug, PartialEq, Eq, Structural)]
pub enum DeviceClass {
    Pointer,
    Keyboard,
    Touch,
}

impl DeviceClass {
    /// The bit that stands for this class in a capability mask.
    pub open spec fn spec_mask(self) -> u32 {
        match self {
            DeviceClass::Pointer => 1u32,
            DeviceClass::Keyboard => 2u32,
            DeviceClass::Touch => 4u32,
        }
    }

    #[verifier::when_used_as_spec(spec_mask)]
    pub fn mask(self) -> (m: u32)
        ensures
            m == self.spec_mask(),
    {
        match self {
            DeviceClass::Pointer => 1u32,
            DeviceClass::Keyboard => 2u32,
            DeviceClass::Touch => 4u32,
        }
    }
}

/// The device classes a seat currently exposes, as the server last pushed them.
///
/// The mask is kept as received: bits that name no known class are carried
/// along and never change what the set contains.
#[derive(Clone, Copy, Debug, PartialEq, Eq, Structural)]
pub struct CapabilitySet {
    bits: u32,
}

impl View for CapabilitySet {
    type V = Set<DeviceClass>;

    open spec fn view(&self) -> Set<DeviceClass> {
        Set::new(|class: DeviceClass| self.spec_bits() & class.spec_mask() != 0)
    }
}

impl CapabilitySet {
    /// The raw mask.
    pub closed spec fn spec_bits(self) -> u32 {
        self.bits
    }

    pub fn from_bits(bits: u32) -> (set: CapabilitySet)
        ensures
            set.spec_bits() == bits,
    {
        CapabilitySet { bits }
    }

    #[verifier::when_used_as_spec(spec_bits)]
    pub fn bits(self) -> (bits: u32)
        ensures
            bits == self.spec_bits(),
    {
        self.bits
    }

    pub fn contains(self, class: DeviceClass) -> (present: bool)
        ensures
            present == self@.contains(class),
    {
        self.bits & class.mask() != 0
    }

    pub fn has_keyboard(self) -> (present: bool)
        ensures
            present == self@.contains(DeviceClass::Keyboard),
    {
        self.contains(DeviceClass::Keyboard)
    }
}

/// A request for the keyboard sub-object of a seat.
#[derive(Clone, Copy, Debug, PartialEq, Eq, Structural)]
pub struct GetKeyboard {
    pub seat: ObjectId,
}

/// What a capability change on `seat` calls for.
pub open spec fn capability_response(seat: ObjectId, capabilities: CapabilitySet) -> Option<
    GetKeyboard,
> {
    if capabilities@.contains(DeviceClass::Keyboard) {
        Some(GetKeyboard { seat })
    } else {
        None
    }
}

/// Handles a capability change pushed by `seat`: a keyboard is requested from
/// that seat whenever the pushed set holds the keyboard class, once for each
/// such event, whether or not an earlier event already led to a request.
pub fn on_capabilities_changed(seat: ObjectId, capabilities: CapabilitySet) -> (request: Option<
    GetKeyboard,
>)
    ensures
        request == capability_response(seat, capabilities),
{
    if capabilities.has_keyboard() {
        Some(GetKeyboard { seat })
    } else {
        None
    }
}

} // verus!
