//! The decisions of flushing a semaphore: bringing its value back to zero by
//! waiting on it (or posting to it) one step at a time.
use vstd::prelude::*;

verus! {

/// The next operation of a flush.
#[derive(Debug, Clone, Copy, PartialEq, Eq, Structural)]
pub enum FlushAction {
    /// Decrement the semaphore (a wait, or a try-wait).
    Wait,
    /// Increment the semaphore.
    Post,
    /// The semaphore is at zero: the flush is over.
    Done,
}

/// Flushing an image semaphore: wait while its value is not zero.
pub open spec fn spec_image_flush_step(value: i32) -> FlushAction {
    if value == 0 {
        FlushAction::Done
    } else {
        FlushAction::Wait
    }
}

/// The phase of flushing a named semaphore.
#[derive(Debug, Clone, Copy, PartialEq, Eq, Structural)]
pub enum FlushPhase {
    /// Taking the value down while it is positive.
    Draining,
    /// Bringing the value up while it is negative.
    Raising,
}

/// Flushing a named semaphore: first take it down while its value is
/// positive, then bring it up while it is negative. Given the phase and the
/// value just read, the next phase and operation.
pub open spec fn spec_named_flush_step(phase: FlushPhase, value: i32) -> (FlushPhase, FlushAction) {
    match phase {
        FlushPhase::Draining => if value > 0 {
            (FlushPhase::Draining, FlushAction::Wait)
        } else if value < 0 {
            (FlushPhase::Raising, FlushAction::Post)
        } else {
            (FlushPhase::Raising, FlushAction::Done)
        },
        FlushPhase::Raising => if value < 0 {
            (FlushPhase::Raising, FlushAction::Post)
        } else {
            (FlushPhase::Raising, FlushAction::Done)
        },
    }
}

/// The next step of flushing an image semaphore whose value is `value`.
pub fn image_flush_step(value: i32) -> (r: FlushAction)
    ensures
        r == spec_image_flush_step(value),
{
    if value == 0 {
        FlushAction::Done
    } else {
        FlushAction::Wait
    }
}

/// The next phase and operation of flushing a named semaphore, in phase
/// `phase`, whose value is `value`.
pub fn named_flush_step(phase: FlushPhase, value: i32) -> (r: (FlushPhase, FlushAction))
    ensures
        r == spec_named_flush_step(phase, value),
{
    match phase {
        FlushPhase::Draining => if value > 0 {
            (FlushPhase::Draining, FlushAction::Wait)
        } else if value < 0 {
            (FlushPhase::Raising, FlushAction::Post)
        } else {
            (FlushPhase::Raising, FlushAction::Done)
        },
        FlushPhase::Raising => if value < 0 {
            (FlushPhase::Raising, FlushAction::Post)
        } else {
            (FlushPhase::Raising, FlushAction::Done)
        },
    }
}

/// A flush ends only on reading a zero value (a named semaphore read as
/// positive once raising has begun ends it too), each step moves the value
/// toward zero, and once a named flush raises it never drains again.
pub proof fn lemma_flush_ends_at_zero(phase: FlushPhase, value: i32)
    ensures
        spec_image_flush_step(value) == FlushAction::Done <==> value == 0,
        phase == FlushPhase::Draining ==> (spec_named_flush_step(phase, value).1
            == FlushAction::Done <==> value == 0),
        value > 0 ==> spec_image_flush_step(value) == FlushAction::Wait,
        value > 0 && phase == FlushPhase::Draining ==> spec_named_flush_step(phase, value)
            == (FlushPhase::Draining, FlushAction::Wait),
        value < 0 ==> spec_named_flush_step(phase, value).1 == FlushAction::Post,
        phase == FlushPhase::Raising ==> spec_named_flush_step(phase, value).0
            == FlushPhase::Raising,
{
}

/// The value a semaphore holds when a named flush started in `phase` at
/// `value` reports `Done`, each `Wait` taking one from the value and each
/// `Post` adding one, or `None` if it has not ended within `steps` steps.
pub open spec fn named_flush_outcome(phase: FlushPhase, value: int, steps: nat) -> Option<int>
    decreases steps,
{
    if !(i32::MIN <= value <= i32::MAX) {
        None
    } else {
        let (next, action) = spec_named_flush_step(phase, value as i32);
        match action {
            FlushAction::Done => Some(value),
            FlushAction::Wait => if steps == 0 {
                None
            } else {
                named_flush_outcome(next, value - 1, (steps - 1) as nat)
            },
            FlushAction::Post => if steps == 0 {
                None
            } else {
                named_flush_outcome(next, value + 1, (steps - 1) as nat)
            },
        }
    }
}

/// The value an image semaphore holds when a flush started at `value`
/// reports `Done`, each `Wait` taking one from the value, or `None` if it
/// has not ended within `steps` steps.
pub open spec fn image_flush_outcome(value: int, steps: nat) -> Option<int>
    decreases steps,
{
    if !(i32::MIN <= value <= i32::MAX) {
        None
    } else {
        match spec_image_flush_step(value as i32) {
            FlushAction::Done => Some(value),
            _ => if steps == 0 {
                None
            } else {
                image_flush_outcome(value - 1, (steps - 1) as nat)
            },
        }
    }
}

/// A named flush, from any value, ends with the semaphore at zero after one
/// step per unit of the value's distance from zero: it drains a positive
/// value all the way down and raises a negative one all the way up.
pub proof fn lemma_named_flush_reaches_zero(phase: FlushPhase, value: i32)
    requires
        phase == FlushPhase::Draining || value <= 0,
    ensures
        named_flush_outcome(
            phase,
            value as int,
            (if value >= 0 { value as int } else { -value }) as nat,
        ) == Some(0int),
    decreases (if value >= 0 { value as int } else { -value }),
{
    if value > 0 {
        lemma_named_flush_reaches_zero(FlushPhase::Draining, (value - 1) as i32);
    } else if value < 0 {
        lemma_named_flush_reaches_zero(FlushPhase::Raising, (value + 1) as i32);
    }
}

/// An image flush from a non-negative value ends with the semaphore at zero
/// after as many waits as the value.
pub proof fn lemma_image_flush_reaches_zero(value: i32)
    requires
        value >= 0,
    ensures
        image_flush_outcome(value as int, value as nat) == Some(0int),
    decreases value,
{
    if value > 0 {
        lemma_image_flush_reaches_zero((value - 1) as i32);
    }
}

} // verus!
