//! Create static chains of objects with different types.
//!
//! In general, the chain starts (or ends, depending on your view) with a
//! [`Chain`] element and is built up from any number of [`Link`]s. A chain is
//! nothing but nested value storage: its shape, and the type of every position
//! in it, is fixed at compile time, with no allocation and no dynamic dispatch.
//!
//! This basic structure only allows you to query the number of elements and to
//! reach the object each element owns directly, but you can implement a more
//! useful trait for both `Link` and `Chain` to make this structure more useful.

use vstd::prelude::*;

mod private;

verus! {

/// A generic chain element.
///
/// Exactly two shapes implement this trait: [`Chain`], the terminal element
/// wrapping a single object, and [`Link`], an element wrapping one object
/// together with its owned parent chain. The [`private::Sealed`] supertrait
/// lives in a private module, so no outside type can become a third shape.
pub trait ChainElement: private::Sealed + Sized {
    /// The type of the object this element owns directly.
    type Inner;

    /// The number of objects linked to this chain element: its own object and
    /// those of all its ancestors.
    spec fn spec_len(&self) -> nat;

    /// The object this element owns directly: the one supplied most recently
    /// to this element's own construction, never an ancestor's.
    spec fn spec_get(&self) -> Self::Inner;

    /// This element with its own object replaced and everything else, the
    /// parent chain included, unchanged.
    spec fn with_object(self, object: Self::Inner) -> Self;

    /// Every chain element links at least one object.
    proof fn lemma_len_positive(&self)
        ensures
            self.spec_len() >= 1,
    ;

    /// Replacing the directly owned object is visible through the accessors
    /// and does not alter the length of the chain.
    proof fn lemma_with_object(self, object: Self::Inner)
        ensures
            self.with_object(object).spec_get() == object,
            self.with_object(object).spec_len() == self.spec_len(),
    ;

    /// Append an object to the chain.
    ///
    /// Consumes the receiver and returns a new [`Link`] that owns `item` and
    /// wraps the receiver, unchanged, as its parent. The new chain element is
    /// exactly one longer than the receiver was.
    fn append<T>(self, item: T) -> (r: Link<T, Self>)
        ensures
            r.object == item,
            r.parent == self,
    {
        Link { object: item, parent: self }
    }

    /// Return the number of objects linked to this chain element.
    fn len(&self) -> (n: usize)
        requires
            self.spec_len() <= usize::MAX,
        ensures
            n == self.spec_len(),
    ;

    /// A read-only reference to the object this element owns directly.
    fn get(&self) -> (r: &Self::Inner)
        ensures
            *r == self.spec_get(),
    ;

    /// A mutable reference to the object this element owns directly.
    ///
    /// Writing through the reference replaces that object and leaves the rest
    /// of the chain, its shape and its length included, unchanged.
    fn get_mut(&mut self) -> (r: &mut Self::Inner)
        ensures
            *r == old(self).spec_get(),
            *final(self) == old(self).with_object(*final(r)),
    ;
}

/// This piece of the chain contains some object.
#[derive(Clone, Copy)]
pub struct Link<V, C> where C: ChainElement {
    /// The rest of the object chain.
    pub parent: C,
    /// The current object.
    pub object: V,
}

impl<V, VC> ChainElement for Link<V, VC> where VC: ChainElement {
    type Inner = V;

    open spec fn spec_len(&self) -> nat {
        self.parent.spec_len() + 1
    }

    open spec fn spec_get(&self) -> V {
        self.object
    }

    open spec fn with_object(self, object: V) -> Self {
        Link { object, parent: self.parent }
    }

    proof fn lemma_len_positive(&self) {
    }

    proof fn lemma_with_object(self, object: V) {
    }

    fn len(&self) -> (n: usize) {
        self.parent.len() + 1
    }

    fn get(&self) -> (r: &V) {
        &self.object
    }

    fn get_mut(&mut self) -> (r: &mut V) {
        &mut self.object
    }
}

/// This piece marks the end of a chain.
#[derive(Clone, Copy)]
pub struct Chain<V> {
    /// The wrapped object.
    pub object: V,
}

impl<V> Chain<V> {
    /// Creates a new [`Chain`] by wrapping the given object.
    pub fn new(object: V) -> (r: Self)
        ensures
            r.object == object,
            r.spec_len() == 1,
            r.spec_get() == object,
    {
        Chain { object }
    }
}

impl<V> ChainElement for Chain<V> {
    type Inner = V;

    open spec fn spec_len(&self) -> nat {
        1
    }

    open spec fn spec_get(&self) -> V {
        self.object
    }

    open spec fn with_object(self, object: V) -> Self {
        Chain { object }
    }

    proof fn lemma_len_positive(&self) {
    }

    proof fn lemma_with_object(self, object: V) {
    }

    fn len(&self) -> (n: usize) {
        1
    }

    fn get(&self) -> (r: &V) {
        &self.object
    }

    fn get_mut(&mut self) -> (r: &mut V) {
        &mut self.object
    }
}

/// A terminal element always reports length 1, whatever object it wraps.
pub proof fn lemma_terminal_len<V>(c: Chain<V>)
    ensures
        c.spec_len() == 1,
{
}

/// Appending to any chain element grows its length by exactly one.
pub proof fn lemma_append_len<T, C: ChainElement>(c: C, item: T)
    ensures
        (Link { object: item, parent: c }).spec_len() == c.spec_len() + 1,
{
}

/// The element produced by an append owns the appended object: its accessors
/// yield that object, never an ancestor's.
pub proof fn lemma_append_get<T, C: ChainElement>(c: C, item: T)
    ensures
        (Link { object: item, parent: c }).spec_get() == item,
{
}

/// Appending leaves every object already in the chain unchanged: the new
/// element wraps the old chain element itself, as it was, as its parent.
pub proof fn lemma_append_preserves_parent<T, C: ChainElement>(c: C, item: T)
    ensures
        (Link { object: item, parent: c }).parent == c,
        (Link { object: item, parent: c }).parent.spec_get() == c.spec_get(),
{
}

} // verus!
