//! The closed set of buffers that the host may fill.

use vstd::prelude::*;

verus! {

/// Marks the integer buffers that a host may fill with values of its own.
///
/// The trait is implemented here for the six buffer types that hosts accept
/// and is meant as a supertrait: a trait that builds on it can be called on
/// these buffers and nothing else.
pub trait Sealed {

}

impl Sealed for [i8] {

}

impl Sealed for [i16] {

}

impl Sealed for [i32] {

}

impl Sealed for [u8] {

}

impl Sealed for [u16] {

}

impl Sealed for [u32] {

}

} // verus!
