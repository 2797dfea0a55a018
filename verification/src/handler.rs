//! Click handlers: callbacks of the host framework, carried from the properties to the
//! markup without being looked into.
use vstd::prelude::*;
use yew::{Callback, MouseEvent};

verus! {

/// The host framework's callback. A value of it is carried along and never looked into.
#[verifier::external_type_specification]
#[verifier::external_body]
#[verifier::reject_recursive_types(IN)]
pub struct ExCallback<IN>(yew::Callback<IN>);

/// The browser's mouse event, which a click handler is called with.
#[verifier::external_type_specification]
#[verifier::external_body]
pub struct ExMouseEvent(yew::MouseEvent);

/// Calls `Callback::clone`: the copy shares the function of `handler` and stands for the
/// same handler.
#[verifier::external_body]
pub(crate) fn clone_handler(handler: &Callback<MouseEvent>) -> (copy: Callback<MouseEvent>)
    ensures
        copy == *handler,
{
    handler.clone()
}

/// Calls `Callback::eq`, which tells whether two callbacks share one function in memory.
/// Nothing is claimed of the answer: it is not a matter of what the callbacks do.
#[verifier::external_body]
pub(crate) fn same_handler(a: &Callback<MouseEvent>, b: &Callback<MouseEvent>) -> bool {
    a == b
}

} // verus!
