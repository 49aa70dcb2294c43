//! What the library takes from `timed_fsm` and from `std::time`.

use std::time::Duration;

use timed_fsm::{Response, TimerCommand};
use vstd::prelude::*;

verus! {

/// `timed_fsm::TimerCommand`, with its public variants and fields.
#[verifier::external_type_specification]
#[verifier::reject_recursive_types(T)]
pub struct ExTimerCommand<T>(TimerCommand<T>);

/// `timed_fsm::Response`, with its public fields.
#[verifier::external_type_specification]
#[verifier::reject_recursive_types(A)]
#[verifier::reject_recursive_types(T)]
pub struct ExResponse<A, T>(Response<A, T>);

/// The `Duration` that `Duration::from_micros` makes of a number of microseconds.
pub uninterp spec fn micros(us: u64) -> Duration;

/// Calls `Duration::from_micros`; claims that equal numbers give equal durations, and different
/// numbers different ones.
#[verifier::external_body]
pub(crate) fn duration_from_micros(us: u64) -> (d: Duration)
    ensures
        d == micros(us),
        forall|other: u64| #[trigger] micros(other) == d ==> other == us,
{
    Duration::from_micros(us)
}

/// `Response::pass_through`: the event is not consumed, with no action and no timer command.
pub assume_specification<A, T>[ Response::<A, T>::pass_through ]() -> (r: Response<A, T>)
    ensures
        !r.consumed,
        r.actions@ == Seq::<A>::empty(),
        r.timers@ == Seq::<TimerCommand<T>>::empty(),
;

/// `Response::emit`: the event is consumed and the actions are handed on as they are.
pub assume_specification<A, T>[ Response::<A, T>::emit ](actions: Vec<A>) -> (r: Response<A, T>)
    ensures
        r.consumed,
        r.actions == actions,
        r.timers@ == Seq::<TimerCommand<T>>::empty(),
;

} // verus!
