//! Barge-in for spoken replies: every stop request bumps a generation
//! counter, and a reply that started under an older generation stops
//! playing.

use vstd::prelude::*;

verus! {

/// The generation after one more stop request (the counter wraps, as an
/// atomic `fetch_add` does).
pub open spec fn after_stop(generation: usize) -> usize {
    if generation < usize::MAX {
        (generation + 1) as usize
    } else {
        0
    }
}

/// A reply that began at generation `ticket` is cancelled once the counter
/// has moved past it.
pub open spec fn is_cancelled(generation: usize, ticket: usize) -> bool {
    generation > ticket
}

/// The stop-request counter shared by the speaking tasks.
pub struct PlaybackGate {
    generation: usize,
}

impl PlaybackGate {
    /// How many stop requests there have been (modulo the counter's width).
    pub closed spec fn generation(&self) -> usize {
        self.generation
    }

    /// A counter with no stop request yet.
    pub fn new() -> (r: Self)
        ensures
            r.generation() == 0,
    {
        PlaybackGate { generation: 0 }
    }

    /// The ticket a reply takes when it starts.
    pub fn ticket(&self) -> (t: usize)
        ensures
            t == self.generation(),
    {
        self.generation
    }

    /// Requests that whatever is playing stop.
    pub fn stop(&mut self)
        ensures
            final(self).generation() == after_stop(old(self).generation()),
    {
        self.generation = if self.generation < usize::MAX { self.generation + 1 } else { 0 };
    }

    /// Whether the reply holding `ticket` must stop.
    pub fn cancelled(&self, ticket: usize) -> (r: bool)
        ensures
            r == is_cancelled(self.generation(), ticket),
    {
        self.generation > ticket
    }
}

/// A reply is not cancelled by the generation it started under, and a stop
/// request cancels every reply started before it (until the counter wraps).
pub proof fn law_stop_cancels_earlier_replies(generation: usize, ticket: usize)
    requires
        ticket <= generation,
        generation < usize::MAX,
    ensures
        !is_cancelled(ticket, ticket),
        is_cancelled(after_stop(generation), ticket),
{
}

} // verus!
