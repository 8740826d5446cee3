use crate::events::subscription_created::{EventPayload, SubscriptionCreated};
use vstd::prelude::*;

verus! {

/// The event channel: the events that were published and that no worker
/// has taken yet, oldest first.
pub struct EventChannel {
    pending: Vec<SubscriptionCreated>,
}

impl View for EventChannel {
    type V = Seq<EventPayload>;

    closed spec fn view(&self) -> Seq<EventPayload> {
        self.pending@.map_values(|event: SubscriptionCreated| event@)
    }
}

impl EventChannel {
    /// A channel on which nothing was published.
    pub fn new() -> (channel: EventChannel)
        ensures
            channel@ == Seq::<EventPayload>::empty(),
    {
        let channel = EventChannel { pending: Vec::new() };
        proof {
            assert(channel@ =~= Seq::<EventPayload>::empty());
        }
        channel
    }

    /// Publishes `event`: it waits behind the events published before it.
    pub fn publish(&mut self, event: SubscriptionCreated)
        ensures
            final(self)@ == old(self)@.push(event@),
    {
        self.pending.push(event);
        proof {
            assert(self@ =~= old(self)@.push(event@));
        }
    }

    /// Takes the oldest event that waits, if any does.
    pub fn next(&mut self) -> (taken: Option<SubscriptionCreated>)
        ensures
            old(self)@.len() == 0 ==> taken is None && final(self)@ == old(self)@,
            old(self)@.len() > 0 ==> taken is Some && taken->Some_0@ == old(self)@[0],
            old(self)@.len() > 0 ==> final(self)@ == old(self)@.drop_first(),
    {
        if self.pending.len() == 0 {
            None
        } else {
            let event = self.pending.remove(0);
            proof {
                assert(self@ =~= old(self)@.drop_first());
            }
            Some(event)
        }
    }

    /// How many events wait.
    pub fn len(&self) -> (count: usize)
        ensures
            count == self@.len(),
    {
        self.pending.len()
    }
}

} // verus!
