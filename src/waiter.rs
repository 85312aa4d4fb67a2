use vstd::prelude::*;

verus! {

#[verifier::external_type_specification]
#[verifier::external_body]
pub struct ExWaker(std::task::Waker);

/// The state shared between a wall-clock wait and the timer that ends it: a
/// completion flag and the continuation to wake, if one is attached. Both
/// sides touch it only under one lock, so a wake cannot be missed.
pub struct TimeSharedState {
    pub completed: bool,
    pub waker: Option<std::task::Waker>,
}

impl TimeSharedState {
    /// Not completed, with nothing attached.
    pub fn new() -> (r: TimeSharedState)
        ensures
            !r.completed,
            r.waker is None,
    {
        TimeSharedState { completed: false, waker: None }
    }

    /// A poll: ready once completed, and then nothing changes; otherwise
    /// `waker` is attached, replacing any earlier one, to be woken at
    /// completion.
    pub fn poll_with(&mut self, waker: std::task::Waker) -> (r: bool)
        ensures
            r == old(self).completed,
            final(self).completed == old(self).completed,
            r ==> final(self).waker == old(self).waker,
            !r ==> final(self).waker == Some(waker),
    {
        if self.completed {
            true
        } else {
            self.waker = Some(waker);
            false
        }
    }

    /// The timer's end: marks completion and hands out the attached
    /// continuation, if any, to be woken.
    pub fn complete(&mut self) -> (r: Option<std::task::Waker>)
        ensures
            final(self).completed,
            final(self).waker is None,
            r == old(self).waker,
    {
        self.completed = true;
        self.waker.take()
    }
}

} // verus!
