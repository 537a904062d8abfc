//! Sequence numbers for switch requests.
//!
//! Every accepted request draws a fresh number from one counter. A request is
//! stale as soon as a later request has drawn a number, and a stale request
//! gives way at its next checkpoint instead of being queued.

use vstd::prelude::*;

verus! {

/// What a switch request carries from the moment it is accepted.
#[derive(Debug, PartialEq, Eq)]
pub struct RequestTicket {
    pub sequence: u64,
    pub target_profile: Option<String>,
}

/// The mathematical content of a [`RequestTicket`].
pub struct TicketModel {
    pub sequence: u64,
    pub target: Option<Seq<char>>,
}

impl View for RequestTicket {
    type V = TicketModel;

    open spec fn view(&self) -> TicketModel {
        TicketModel { sequence: self.sequence, target: self.target_profile.deep_view() }
    }
}

/// A ticket is stale once the counter has moved past its number.
pub open spec fn stale_at(sequence: u64, counter: u64) -> bool {
    sequence < counter
}

/// The counter that numbers the requests.
#[derive(Debug)]
pub struct RequestSequencer {
    counter: u64,
}

impl Clone for RequestSequencer {
    fn clone(&self) -> (copy: Self)
        ensures
            copy.current() == self.current(),
    {
        RequestSequencer { counter: self.counter }
    }
}

impl RequestSequencer {
    /// The number drawn last; zero before the first draw.
    pub closed spec fn current(&self) -> u64 {
        self.counter
    }

    pub fn new() -> (sequencer: Self)
        ensures
            sequencer.current() == 0,
    {
        RequestSequencer { counter: 0 }
    }

    /// Reads the number drawn last.
    pub fn load(&self) -> (counter: u64)
        ensures
            counter == self.current(),
    {
        self.counter
    }

    /// Whether another draw is still possible.
    pub fn has_next(&self) -> (free: bool)
        ensures
            free == (self.current() < u64::MAX),
    {
        self.counter < u64::MAX
    }

    /// Draws the next number: one more than the last one.
    pub fn next_sequence(&mut self) -> (sequence: u64)
        requires
            old(self).current() < u64::MAX,
        ensures
            sequence == old(self).current() + 1,
            final(self).current() == sequence,
    {
        self.counter = self.counter + 1;
        self.counter
    }

    /// Whether a request with this number has been overtaken.
    pub fn is_stale(&self, sequence: u64) -> (stale: bool)
        ensures
            stale == stale_at(sequence, self.current()),
    {
        sequence < self.counter
    }
}

/// A draw overtakes every number handed out before it and is not itself
/// overtaken: with `counter` the value before the draw, the new number
/// `counter + 1` is fresh, and every number up to `counter` is stale.
pub proof fn lemma_draw_overtakes_earlier(counter: u64, earlier: u64)
    requires
        counter < u64::MAX,
        earlier <= counter,
    ensures
        !stale_at((counter + 1) as u64, (counter + 1) as u64),
        stale_at(earlier, (counter + 1) as u64),
{
}

/// Staleness is permanent: the counter only grows.
pub proof fn lemma_stale_stays_stale(sequence: u64, counter: u64, later: u64)
    requires
        stale_at(sequence, counter),
        counter <= later,
    ensures
        stale_at(sequence, later),
{
}

} // verus!
