//! The requests that the protocol asks its caller to put to the driver.

use crate::control::Type;
use vstd::prelude::*;

verus! {

/// The flag that asks the driver for the control after the given identifier.
pub const FLAG_NEXT_CTRL: u32 = 0x8000_0000;

/// The flag that lets the driver answer with compound controls too.
pub const FLAG_NEXT_COMPOUND: u32 = 0x4000_0000;

/// One query that the caller has to put to the driver.
#[derive(Clone, Copy, Debug, PartialEq, Eq, Structural)]
pub enum Request {
    /// Describe the control that `id` names. With the two advance flags set in
    /// `id`, the driver describes the control that follows instead.
    QueryControl { id: u32 },
    /// Describe the menu item at `index` of the control `id`, whose type is
    /// `typ`.
    QueryMenu { id: u32, index: u32, typ: Type },
    /// Read the current value of the control `id`.
    GetControl { id: u32 },
}

/// The identifier that asks for the control after `cursor`: `cursor` with both
/// advance flags set.
pub open spec fn advance(cursor: u32) -> u32 {
    cursor | FLAG_NEXT_CTRL | FLAG_NEXT_COMPOUND
}

/// Sets both advance flags in `cursor`.
#[verifier::when_used_as_spec(advance)]
pub fn advance_cursor(cursor: u32) -> (id: u32)
    ensures
        id == advance(cursor),
{
    cursor | FLAG_NEXT_CTRL | FLAG_NEXT_COMPOUND
}

} // verus!
