use vstd::prelude::*;

verus! {

/// The sending half of the one-shot response channel, from the `futures`
/// crate. Verus treats a value of it as opaque; the two trusted contracts
/// below state what the methods this crate calls do.
#[verifier::external_type_specification]
#[verifier::external_body]
#[verifier::reject_recursive_types(T)]
pub struct ExSender<T>(futures::channel::oneshot::Sender<T>);

/// Relies on futures' `oneshot::Sender::is_canceled`: reports whether the
/// receiving half has been dropped, without consuming the sender. The answer
/// depends on the channel's other half, which may change concurrently, so
/// nothing is promised of it.
pub assume_specification<T>[ futures::channel::oneshot::Sender::<T>::is_canceled ](
    tx: &futures::channel::oneshot::Sender<T>,
) -> bool;

/// Relies on futures' `oneshot::Sender::send`: consumes the sender and
/// enqueues `t` for the receiving half; when the receiver is already gone,
/// `t` comes back unchanged in the error.
pub assume_specification<T>[ futures::channel::oneshot::Sender::<T>::send ](
    tx: futures::channel::oneshot::Sender<T>,
    t: T,
) -> (r: Result<(), T>)
    ensures
        r is Err ==> r->Err_0 == t,
;

} // verus!
