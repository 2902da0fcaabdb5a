//! What keeps the set of drivers closed.
use vstd::prelude::*;

verus! {

/// The mark of a driver of this crate. No type outside the crate can have
/// it, so none can be a [`Device`](crate::device::Device).
pub trait Sealed {

}

} // verus!
