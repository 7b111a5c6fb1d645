//! Seals the chain element trait.

use vstd::prelude::*;

verus! {

/// The closed set of chain element shapes.
///
/// Only [`crate::Chain`] and [`crate::Link`] implement this trait. The module
/// holding it is private, so outside code cannot name the trait and therefore
/// cannot add a third shape to the family.
pub trait Sealed {

}

impl<V> Sealed for crate::Chain<V> {

}

impl<V, C: crate::ChainElement> Sealed for crate::Link<V, C> {

}

} // verus!
