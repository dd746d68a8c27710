//! Scheduling of the `add` operation: it answers at once when no correlation
//! id is given, and after a random delay of one to six seconds otherwise.
use vstd::prelude::*;

use crate::dispatch::{OpCode, OpRegistry};

verus! {

/// Shortest delay, in milliseconds, before an asynchronous `add` completes.
pub const MIN_ADD_DELAY_MS: u64 = 1000;

/// Width of the delay window, in milliseconds.
pub const ADD_DELAY_SPAN_MS: u64 = 5000;

/// Relies on rand::random: a value drawn from the thread-local generator.
/// Nothing is known of the value.
pub assume_specification<T>[ rand::random::<T> ]() -> (r: T)
    where
        rand::distributions::Standard: rand::distributions::Distribution<T>,
;

/// The delay that a random draw `r` selects.
pub open spec fn delay_for_draw(r: u64) -> u64 {
    (MIN_ADD_DELAY_MS + r % ADD_DELAY_SPAN_MS) as u64
}

/// The delay, in milliseconds, that the random draw `r` selects: a uniform
/// draw gives a nearly uniform delay over the window `[1000, 6000)`.
pub fn delay_from_draw(r: u64) -> (d: u64)
    ensures
        d == delay_for_draw(r),
        MIN_ADD_DELAY_MS <= d < MIN_ADD_DELAY_MS + ADD_DELAY_SPAN_MS,
{
    MIN_ADD_DELAY_MS + r % ADD_DELAY_SPAN_MS
}

/// How long `add` waits before reporting its result: nothing when it runs
/// synchronously (no correlation id), a random delay in `[1000, 6000)`
/// milliseconds otherwise.
pub fn add_delay_ms(promise_id: Option<u64>) -> (d: u64)
    ensures
        promise_id is None ==> d == 0,
        promise_id is Some ==> MIN_ADD_DELAY_MS <= d < MIN_ADD_DELAY_MS + ADD_DELAY_SPAN_MS,
{
    match promise_id {
        None => 0,
        Some(_) => {
            let r: u64 = rand::random::<u64>();
            delay_from_draw(r)
        },
    }
}

/// Registers the `add` operation.
pub fn init(registry: &mut OpRegistry)
    requires
        old(registry).wf(),
    ensures
        final(registry).wf(),
        final(registry).handler_for("add"@) == Some(OpCode::Add),
        forall|other: Seq<char>|
            other != "add"@ ==> #[trigger] final(registry).handler_for(other) == old(
                registry,
            ).handler_for(other),
{
    registry.register("add", OpCode::Add);
}

} // verus!
