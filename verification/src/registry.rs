//! The registry client: which announced globals get bound.

use crate::text::str_eq;
use vstd::prelude::*;

verus! {

/// Identifier of a protocol object, as the server names it.
pub type ObjectId = u32;

/// Name of the interface under which a seat is announced.
pub const SEAT_INTERFACE: &'static str = "seat";

/// The version of the seat interface that is bound, whatever version the
/// server offers.
pub const SEAT_VERSION: u32 = 1;

/// A request to bind the global `global` at `version` of its interface.
#[derive(Clone, Copy, Debug, PartialEq, Eq, Structural)]
pub struct Bind {
    pub global: ObjectId,
    pub version: u32,
}

/// Whether `interface_name` names the seat interface.
pub open spec fn names_seat(interface_name: Seq<char>) -> bool {
    interface_name == SEAT_INTERFACE@
}

/// What the announcement of a global calls for: seats are bound, at
/// [`SEAT_VERSION`]; every other global is left alone.
pub open spec fn announcement_response(
    id: ObjectId,
    interface_name: Seq<char>,
    version: u32,
) -> Option<Bind> {
    if names_seat(interface_name) {
        Some(Bind { global: id, version: SEAT_VERSION })
    } else {
        None
    }
}

/// Handles the announcement of the global `id`, which implements
/// `interface_name` up to `version`.
pub fn on_global_announced(id: ObjectId, interface_name: &str, version: u32) -> (request: Option<
    Bind,
>)
    ensures
        request == announcement_response(id, interface_name@, version),
{
    if str_eq(interface_name, SEAT_INTERFACE) {
        Some(Bind { global: id, version: SEAT_VERSION })
    } else {
        None
    }
}

} // verus!
