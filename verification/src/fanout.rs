//! The distributor: every sample of the source goes once to every channel.

use crate::channel::{channel_bounded, channel_try_send, send_blocking, Delivery,
    MAX_CHANNEL_CAPACITY};
use crossbeam_channel::{Receiver, Sender};
use vstd::prelude::*;

verus! {

/// What the distributor does when a channel is full.
#[derive(Clone, Copy, Debug, PartialEq, Eq, Structural)]
pub enum OverflowPolicy {
    /// Wait for room. Only for a distributor on a thread without a deadline.
    Backpressure,
    /// Leave the sample out of this channel and go on.
    Reject,
}

/// The producer half of one channel, with its policy.
#[verifier::reject_recursive_types(T)]
pub struct Outlet<T> {
    producer: Sender<T>,
    policy: OverflowPolicy,
}

impl<T> Outlet<T> {
    /// The producer endpoint.
    pub closed spec fn producer(&self) -> Sender<T> {
        self.producer
    }

    /// What happens when the channel is full.
    pub closed spec fn policy(&self) -> OverflowPolicy {
        self.policy
    }
}

/// Whether a send under `policy` can end in `delivery`: waiting for room
/// never ends in `Full`.
pub open spec fn may_end_in(policy: OverflowPolicy, delivery: Delivery) -> bool {
    policy == OverflowPolicy::Backpressure ==> delivery != Delivery::Full
}

/// Forwards each sample to every registered channel.
#[verifier::reject_recursive_types(T)]
pub struct FanoutDistributor<T> {
    outlets: Vec<Outlet<T>>,
}

impl<T: Copy> FanoutDistributor<T> {
    /// The registered channels, in the order of their registration.
    pub closed spec fn view(&self) -> Seq<Outlet<T>> {
        self.outlets@
    }

    /// A distributor without channels.
    pub fn new() -> (distributor: Self)
        ensures
            distributor@ == Seq::<Outlet<T>>::empty(),
    {
        FanoutDistributor { outlets: Vec::new() }
    }

    /// How many channels are registered.
    pub fn channels(&self) -> (count: usize)
        ensures
            count == self@.len(),
    {
        self.outlets.len()
    }

    /// The policy of the channel at `index`.
    pub fn policy(&self, index: usize) -> (policy: Option<OverflowPolicy>)
        ensures
            policy == if index < self@.len() {
                Some(self@[index as int].policy())
            } else {
                None
            },
    {
        if index < self.outlets.len() {
            Some(self.outlets[index].policy)
        } else {
            None
        }
    }

    /// Registers the producer half of an existing channel as the last one.
    pub fn attach(&mut self, producer: Sender<T>, policy: OverflowPolicy)
        ensures
            final(self)@.len() == old(self)@.len() + 1,
            final(self)@.subrange(0, old(self)@.len() as int) == old(self)@,
            final(self)@.last().producer() == producer,
            final(self)@.last().policy() == policy,
    {
        self.outlets.push(Outlet { producer, policy });
        assert(self.outlets@.subrange(0, old(self)@.len() as int) =~= old(self)@);
    }

    /// Opens a channel of `capacity` slots, registers its producer half as
    /// the last one and returns its consumer half.
    pub fn open_channel(&mut self, capacity: usize, policy: OverflowPolicy) -> (consumer: Receiver<
        T,
    >)
        requires
            capacity <= MAX_CHANNEL_CAPACITY,
        ensures
            final(self)@.len() == old(self)@.len() + 1,
            final(self)@.subrange(0, old(self)@.len() as int) == old(self)@,
            final(self)@.last().policy() == policy,
    {
        let (producer, consumer) = channel_bounded::<T>(capacity);
        self.attach(producer, policy);
        consumer
    }

    /// Sends `sample` into one channel as its policy says.
    fn offer(outlet: &Outlet<T>, sample: T) -> (delivery: Delivery)
        ensures
            may_end_in(outlet.policy(), delivery),
    {
        match outlet.policy {
            OverflowPolicy::Backpressure => send_blocking(&outlet.producer, sample),
            OverflowPolicy::Reject => channel_try_send(&outlet.producer, sample),
        }
    }

    /// Offers `sample` to every channel, in the order of registration, and
    /// reports how each offer ended. A failure at one channel keeps the
    /// sample from none of the others.
    pub fn distribute(&self, sample: T) -> (deliveries: Vec<Delivery>)
        ensures
            deliveries@.len() == self@.len(),
            forall|i: int|
                0 <= i < self@.len() ==> may_end_in(
                    (#[trigger] self@[i]).policy(),
                    deliveries@[i],
                ),
    {
        let mut deliveries: Vec<Delivery> = Vec::new();
        let n: usize = self.outlets.len();
        let mut i: usize = 0;
        while i < n
            invariant
                n == self.outlets@.len(),
                i <= n,
                deliveries@.len() == i,
                forall|j: int|
                    0 <= j < i ==> may_end_in(
                        (#[trigger] self.outlets@[j]).policy(),
                        deliveries@[j],
                    ),
            decreases n - i,
        {
            let delivery = Self::offer(&self.outlets[i], sample);
            deliveries.push(delivery);
            i += 1;
        }
        deliveries
    }

    /// Drops every producer half, which closes every channel: each consumer
    /// then sees `Closed` once it has drained what was queued.
    pub fn close(&mut self)
        ensures
            final(self)@ == Seq::<Outlet<T>>::empty(),
    {
        self.outlets = Vec::new();
    }
}

} // verus!
