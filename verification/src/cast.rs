//! Typed downcasting: recovering a concrete node kind from a [`Node`].
//!
//! A mismatch is signalled by an absent result, never by a failure: the
//! caller can always recover. Each helper is constrained to the capability
//! the caller is working through, so for instance only field kinds can be
//! asked for via [`cast_field`].

use vstd::prelude::*;

use crate::node::Field;
use crate::node::InteractiveSegment;
use crate::node::Node;
use crate::node::Programic;

verus! {

/// The node's value as the concrete kind `T`, when that is the kind the node
/// holds; absent otherwise.
pub fn cast_interactive_segment<T: InteractiveSegment>(n: &Node) -> (r: Option<&T>)
    ensures
        (r is Some) == T::node_holds(*n),
        r matches Some(x) ==> *x == T::node_value(*n),
{
    T::cast_node(n)
}

/// The node's value as the concrete field kind `T`, when that is the kind
/// the node holds; absent otherwise.
pub fn cast_field<T: Field>(n: &Node) -> (r: Option<&T>)
    ensures
        (r is Some) == T::node_holds(*n),
        r matches Some(x) ==> *x == T::node_value(*n),
{
    T::cast_node(n)
}

/// Mutable access to the node's value as the concrete evaluatable kind `T`,
/// when that is the kind the node holds; absent otherwise, and the node is
/// then left as it was.
pub fn cast_mut_programic<T: Programic>(n: &mut Node) -> (r: Option<&mut T>)
    ensures
        (r is Some) == T::node_holds(*old(n)),
        r matches Some(x) ==> *x == T::node_value(*old(n)) && *final(n) == T::node_wrap(
            *final(x),
        ),
        r is None ==> *final(n) == *old(n),
{
    T::cast_node_mut(n)
}

} // verus!
