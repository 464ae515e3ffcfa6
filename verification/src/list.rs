//! A shared singly linked list and a minimal box-like wrapper.

use std::rc::Rc;
use vstd::prelude::*;

verus! {

/// A cons list whose tails are shared through reference counting.
pub enum List<T> {
    /// A head element followed by the rest of the list.
    Cons(T, Rc<List<T>>),
    /// The empty list.
    Nil,
}

impl<T> List<T> {
    /// A reference to the head element, if any.
    pub fn peek(&self) -> (r: Option<&T>)
        ensures
            (*self) matches List::Cons(v, _) ==> (r matches Some(p) && *p == v),
            (*self) is Nil ==> r is None,
    {
        match self {
            List::Cons(v, _) => Some(v),
            List::Nil => None,
        }
    }

    /// The tail of the list; the tail of the empty list is empty.
    pub fn recurse(&self) -> (r: Rc<List<T>>)
        ensures
            (*self) matches List::Cons(_, rest) ==> r == rest,
            (*self) is Nil ==> r == List::<T>::Nil,
    {
        match self {
            List::Cons(_, p) => p.clone(),
            List::Nil => Rc::new(List::Nil),
        }
    }
}

/// A single-value wrapper holding its content inline.
pub struct Boxlike<T>(pub T);

impl<T> Boxlike<T> {
    /// Wraps `x`.
    pub fn new(x: T) -> (b: Boxlike<T>)
        ensures
            b.0 == x,
    {
        Boxlike(x)
    }
}

} // verus!
