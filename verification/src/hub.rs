use crate::broadcaster::{Broadcaster, QueueView, SubscriberName};
use crate::broadcaster::{offered, no_subscribers, replaced_frames};
use crate::errors::RithmicApiError;
use crate::plants::SysInfraType;
use vstd::prelude::*;

verus! {

/// The broadcasters of all plants. A plant gets its broadcaster when it
/// first connects and keeps it from then on.
pub struct BroadcastHub {
    slots: Vec<Option<Broadcaster>>,
}

/// The place of a plant's broadcaster in the hub.
pub open spec fn slot_of(plant: SysInfraType) -> int {
    plant.code() - 1
}

impl BroadcastHub {
    /// The hub has a place for each plant, and every broadcaster in it is
    /// well-formed.
    pub closed spec fn wf(&self) -> bool {
        &&& self.slots@.len() == 5
        &&& forall|i: int|
            0 <= i < 5 ==> ((#[trigger] self.slots@[i]) matches Some(broadcaster)
                ==> broadcaster.wf())
    }

    /// The queues of the plant's subscribers, or `None` for a plant that has
    /// never connected.
    pub closed spec fn channel(&self, plant: SysInfraType) -> Option<Map<Seq<char>, QueueView>> {
        match self.slots@[slot_of(plant)] {
            Some(broadcaster) => Some(broadcaster@),
            None => None,
        }
    }

    /// Every plant but `plant` has the channel it had in `before`.
    pub open spec fn same_elsewhere(&self, before: &BroadcastHub, plant: SysInfraType) -> bool {
        forall|other: SysInfraType| other != plant ==> self.channel(other) == before.channel(other)
    }

    /// A hub that differs from `before` in the place of one plant at most has
    /// the channels of all other plants as they were.
    proof fn lemma_same_elsewhere(&self, before: &BroadcastHub, plant: SysInfraType)
        requires
            self.slots@.len() == 5,
            before.slots@.len() == 5,
            forall|i: int|
                0 <= i < self.slots@.len() && i != slot_of(plant) ==> self.slots@[i]
                    == before.slots@[i],
        ensures
            self.same_elsewhere(before, plant),
    {
        assert forall|other: SysInfraType| other != plant implies self.channel(other)
            == before.channel(other) by {
            assert(slot_of(other) != slot_of(plant));
            assert(self.slots@[slot_of(other)] == before.slots@[slot_of(other)]);
        }
    }

    /// A hub in which no plant has a broadcaster yet.
    pub fn new() -> (hub: Self)
        ensures
            hub.wf(),
            forall|plant: SysInfraType| hub.channel(plant) is None,
    {
        let mut slots: Vec<Option<Broadcaster>> = Vec::new();
        slots.push(None);
        slots.push(None);
        slots.push(None);
        slots.push(None);
        slots.push(None);
        Self { slots }
    }

    fn index(plant: SysInfraType) -> (i: usize)
        ensures
            i == slot_of(plant),
            i < 5,
    {
        match plant {
            SysInfraType::TickerPlant => 0,
            SysInfraType::OrderPlant => 1,
            SysInfraType::HistoryPlant => 2,
            SysInfraType::PnlPlant => 3,
            SysInfraType::RepositoryPlant => 4,
        }
    }

    /// Gives the plant a broadcaster without subscribers unless it has one
    /// already.
    pub fn open(&mut self, plant: SysInfraType)
        requires
            old(self).wf(),
        ensures
            final(self).wf(),
            final(self).channel(plant) == (match old(self).channel(plant) {
                Some(queues) => Some(queues),
                None => Some(no_subscribers()),
            }),
            final(self).same_elsewhere(old(self), plant),
    {
        let i = Self::index(plant);
        if self.slots[i].is_none() {
            self.slots[i] = Some(Broadcaster::new());
        }
        proof {
            self.lemma_same_elsewhere(old(self), plant);
        }
    }

    /// Tells whether the plant has a broadcaster.
    pub fn is_open(&self, plant: SysInfraType) -> (b: bool)
        requires
            self.wf(),
        ensures
            b == (self.channel(plant) is Some),
    {
        self.slots[Self::index(plant)].is_some()
    }

    /// Tells whether a subscriber of that name is registered on the plant.
    pub fn is_subscribed(&self, plant: SysInfraType, subscriber_name: &SubscriberName) -> (b: bool)
        requires
            self.wf(),
        ensures
            b == (self.channel(plant) matches Some(queues) && queues.contains_key(
                subscriber_name@,
            )),
    {
        match &self.slots[Self::index(plant)] {
            Some(broadcaster) => broadcaster.is_subscribed(subscriber_name),
            None => false,
        }
    }

    /// Registers a subscriber on the plant's broadcaster. A plant that has
    /// never connected has no broadcaster, and subscribing to it is an error
    /// of the caller. A subscriber already registered under the name is
    /// replaced; the answer tells how many waiting frames went with it.
    pub fn subscribe(
        &mut self,
        plant: SysInfraType,
        subscriber_name: SubscriberName,
        buffer_size: usize,
    ) -> (r: Result<Option<usize>, RithmicApiError>)
        requires
            old(self).wf(),
            0 < buffer_size <= usize::MAX / 8,
        ensures
            final(self).wf(),
            final(self).same_elsewhere(old(self), plant),
            match old(self).channel(plant) {
                Some(queues) => r == Ok::<Option<usize>, RithmicApiError>(
                    replaced_frames(queues, subscriber_name@),
                ) && final(self).channel(plant) == Some(
                    queues.insert(subscriber_name@, QueueView::empty(buffer_size as nat)),
                ),
                None => r matches Err(RithmicApiError::ClientErrorDebug(_)) && final(self).channel(
                    plant,
                ) is None,
            },
    {
        let i = Self::index(plant);
        let r = match &mut self.slots[i] {
            Some(broadcaster) => Ok(broadcaster.subscribe(subscriber_name, buffer_size)),
            None => Err(
                RithmicApiError::ClientErrorDebug(
                    "You have not ran connect_and_login for this plant".to_owned(),
                ),
            ),
        };
        proof {
            self.lemma_same_elsewhere(old(self), plant);
        }
        r
    }

    /// Removes a subscriber from the plant's broadcaster. Nothing happens
    /// when the subscriber or the broadcaster does not exist.
    pub fn unsubscribe(&mut self, plant: SysInfraType, subscriber_name: &SubscriberName)
        requires
            old(self).wf(),
        ensures
            final(self).wf(),
            final(self).same_elsewhere(old(self), plant),
            final(self).channel(plant) == (match old(self).channel(plant) {
                Some(queues) => Some(queues.remove(subscriber_name@)),
                None => None,
            }),
    {
        let i = Self::index(plant);
        match &mut self.slots[i] {
            Some(broadcaster) => {
                broadcaster.unsubscribe(subscriber_name);
            },
            None => {},
        }
        proof {
            self.lemma_same_elsewhere(old(self), plant);
        }
    }

    /// Offers a frame that arrived on the plant to each of the plant's
    /// subscribers. A full queue misses the frame. Subscribers of other
    /// plants see nothing of it.
    pub fn publish(&mut self, plant: SysInfraType, frame: Vec<u8>)
        requires
            old(self).wf(),
        ensures
            final(self).wf(),
            final(self).same_elsewhere(old(self), plant),
            final(self).channel(plant) == (match old(self).channel(plant) {
                Some(queues) => Some(offered(queues, frame@)),
                None => None,
            }),
    {
        let i = Self::index(plant);
        match &mut self.slots[i] {
            Some(broadcaster) => {
                broadcaster.broadcast(frame);
            },
            None => {},
        }
        proof {
            self.lemma_same_elsewhere(old(self), plant);
        }
    }

    /// Takes the oldest waiting frame out of a subscriber's queue.
    pub fn receive(&mut self, plant: SysInfraType, subscriber_name: &SubscriberName) -> (frame:
        Option<Vec<u8>>)
        requires
            old(self).wf(),
        ensures
            final(self).wf(),
            final(self).same_elsewhere(old(self), plant),
            match frame {
                Some(bytes) => {
                    &&& old(self).channel(plant) matches Some(queues)
                    &&& queues.contains_key(subscriber_name@)
                    &&& queues[subscriber_name@].pending.len() > 0
                    &&& bytes@ == queues[subscriber_name@].pending[0]
                    &&& final(self).channel(plant) == Some(
                        queues.insert(subscriber_name@, queues[subscriber_name@].without_first()),
                    )
                },
                None => {
                    &&& final(self).channel(plant) == old(self).channel(plant)
                    &&& old(self).channel(plant) matches Some(queues) ==> (queues.contains_key(
                        subscriber_name@,
                    ) ==> queues[subscriber_name@].pending.len() == 0)
                },
            },
    {
        let i = Self::index(plant);
        let frame = match &mut self.slots[i] {
            Some(broadcaster) => broadcaster.receive(subscriber_name),
            None => None,
        };
        proof {
            self.lemma_same_elsewhere(old(self), plant);
        }
        frame
    }

    /// Drops every subscriber of the plant, as when the plant's inbound
    /// stream has ended. The plant keeps its broadcaster.
    pub fn clear(&mut self, plant: SysInfraType)
        requires
            old(self).wf(),
        ensures
            final(self).wf(),
            final(self).same_elsewhere(old(self), plant),
            final(self).channel(plant) == (match old(self).channel(plant) {
                Some(_) => Some(no_subscribers()),
                None => None,
            }),
    {
        let i = Self::index(plant);
        if self.slots[i].is_some() {
            self.slots[i] = Some(Broadcaster::new());
        }
        proof {
            self.lemma_same_elsewhere(old(self), plant);
        }
    }
}

} // verus!
