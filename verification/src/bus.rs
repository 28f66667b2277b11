//! The fan-out bus: one publisher, many subscribers, bounded and lossy.

use vstd::prelude::*;
use crate::frame::{DataFrame, FrameView};
use crate::sink::BusEvent;
use crate::trusted::{
    bus_channel, bus_cursor, bus_feeds, bus_published, bus_receivers, bus_room, bus_send,
    bus_subscribe, bus_try_recv,
};
use tokio::sync::broadcast::{Receiver, Sender};

verus! {

/// The most subscribers that one bus takes.
pub const MAX_SUBSCRIBERS: usize = 65536;

/// A bus as contracts speak of it.
pub struct BusView {
    /// Every frame that was published, oldest first.
    pub published: Seq<FrameView>,
    /// For each subscriber, how many of the published frames it has passed.
    pub cursors: Seq<nat>,
    /// How many frames the bus keeps for subscribers that lag.
    pub room: nat,
}

/// A stream's bus together with its subscribers.
pub struct FanoutBus {
    tx: Sender<DataFrame>,
    subscribers: Vec<Receiver<DataFrame>>,
}

impl View for FanoutBus {
    type V = BusView;

    closed spec fn view(&self) -> BusView {
        BusView {
            published: bus_published(self.tx),
            cursors: Seq::new(
                self.subscribers@.len(),
                |i: int| bus_cursor(self.subscribers@[i]),
            ),
            room: bus_room(self.tx),
        }
    }
}

/// No subscriber is ahead of what was published.
pub open spec fn cursors_in_range(bus: BusView) -> bool {
    forall|k: int| 0 <= k < bus.cursors.len() ==> #[trigger] bus.cursors[k] <= bus.published.len()
}

/// How many published frames the subscriber `k` has not passed yet.
pub open spec fn behind(bus: BusView, k: int) -> int {
    bus.published.len() - bus.cursors[k]
}

/// Where the subscriber `k` stands after it was asked for its next frame:
/// where it stood if it has passed everything, one further if its next
/// frame is still kept, and at the oldest frame that is kept if it is not.
pub open spec fn cursor_after_poll(bus: BusView, k: int) -> nat {
    if behind(bus, k) <= 0 {
        bus.cursors[k]
    } else if behind(bus, k) <= bus.room {
        bus.cursors[k] + 1
    } else {
        (bus.published.len() - bus.room) as nat
    }
}

/// Whether `event` is what the subscriber `k` gets when it is asked for its
/// next frame.
pub open spec fn is_poll_event(bus: BusView, k: int, event: BusEvent) -> bool {
    if behind(bus, k) <= 0 {
        event is Empty
    } else if behind(bus, k) <= bus.room {
        event is Frame && event->frame@ == bus.published[bus.cursors[k] as int]
    } else {
        event is Lagged && event->skipped == behind(bus, k) - bus.room
    }
}

/// The place of the oldest frame that the subscriber `k` can still get.
pub open spec fn first_kept(bus: BusView, k: int) -> int {
    if behind(bus, k) <= bus.room {
        bus.cursors[k] as int
    } else {
        bus.published.len() - bus.room
    }
}

/// The frames that the subscriber `k` gets when it takes all it can: those
/// from its own place on, or from the oldest frame that is kept, up to the
/// newest, in the order of their publication.
pub open spec fn pending(bus: BusView, k: int) -> Seq<FrameView> {
    bus.published.subrange(first_kept(bus, k), bus.published.len() as int)
}

/// The frames given, each by its view.
pub open spec fn views(frames: Seq<DataFrame>) -> Seq<FrameView> {
    Seq::new(frames.len(), |i: int| frames[i]@)
}

impl FanoutBus {
    /// What holds of every bus that `new` has made, whatever was done with
    /// it since: its subscribers are those of its own channel, and none is
    /// ahead of what was published.
    pub closed spec fn wf(&self) -> bool {
        &&& self.subscribers@.len() <= MAX_SUBSCRIBERS
        &&& bus_receivers(self.tx) == self.subscribers@.len()
        &&& forall|i: int|
            0 <= i < self.subscribers@.len() ==> bus_feeds(self.tx, #[trigger] self.subscribers@[i])
                && bus_cursor(self.subscribers@[i]) <= bus_published(self.tx).len()
    }

    /// In a well-formed bus no subscriber is ahead of what was published.
    pub proof fn lemma_wf_cursors(&self)
        requires
            self.wf(),
        ensures
            cursors_in_range(self@),
            self@.cursors.len() <= MAX_SUBSCRIBERS,
    {
    }

    /// A bus that keeps at least `capacity` frames for subscribers that lag,
    /// with one subscriber attached: the subscriber 0. There is no bus of
    /// capacity zero, nor one of a capacity above half the address space.
    pub fn new(capacity: usize) -> (made: Option<Self>)
        ensures
            made is Some <==> 0 < capacity <= usize::MAX / 2,
            made is Some ==> made->Some_0.wf() && made->Some_0@.published == Seq::<
                FrameView,
            >::empty() && made->Some_0@.cursors == seq![0nat] && made->Some_0@.room >= capacity,
    {
        if capacity == 0 || capacity > usize::MAX / 2 {
            return None;
        }
        let (tx, rx) = bus_channel(capacity);
        let mut subscribers: Vec<Receiver<DataFrame>> = Vec::new();
        subscribers.push(rx);
        let bus = FanoutBus { tx, subscribers };
        assert(bus@.cursors =~= seq![0nat]);
        Some(bus)
    }

    /// How many subscribers are attached.
    pub fn subscriber_count(&self) -> (count: usize)
        ensures
            count == self@.cursors.len(),
    {
        self.subscribers.len()
    }

    /// Attaches one more subscriber. It has passed everything that was
    /// published so far, so it gets what is published from now on. A bus
    /// that has `MAX_SUBSCRIBERS` subscribers takes no more.
    pub fn subscribe(&mut self) -> (subscriber: Option<usize>)
        requires
            old(self).wf(),
        ensures
            final(self).wf(),
            final(self)@.published == old(self)@.published,
            final(self)@.room == old(self)@.room,
            match subscriber {
                Some(k) => k == old(self)@.cursors.len() && final(self)@.cursors == old(
                    self,
                )@.cursors.push(old(self)@.published.len()),
                None => old(self)@.cursors.len() >= MAX_SUBSCRIBERS && final(self)@.cursors == old(
                    self,
                )@.cursors,
            },
    {
        if self.subscribers.len() >= MAX_SUBSCRIBERS {
            return None;
        }
        let k: usize = self.subscribers.len();
        let rx = bus_subscribe(&mut self.tx);
        self.subscribers.push(rx);
        assert(final(self)@.cursors =~= old(self)@.cursors.push(old(self)@.published.len()));
        Some(k)
    }

    /// Publishes a frame: it becomes the newest of the published frames.
    /// This never waits for a subscriber.
    pub fn publish(&mut self, frame: DataFrame)
        requires
            old(self).wf(),
        ensures
            final(self).wf(),
            final(self)@.published == old(self)@.published.push(frame@),
            final(self)@.cursors == old(self)@.cursors,
            final(self)@.room == old(self)@.room,
    {
        bus_send(&mut self.tx, frame);
        assert(final(self)@.cursors =~= old(self)@.cursors);
    }

    /// Asks for the next frame of the subscriber `k`. A subscriber that has
    /// passed everything gets nothing; one whose next frame is still kept
    /// gets it; one that has fallen further behind than the bus keeps is
    /// told how many frames it has missed, and goes on from the oldest frame
    /// that is kept. Nobody else's place changes. Where there is no
    /// subscriber `k`, nothing happens.
    pub fn poll(&mut self, k: usize) -> (event: Option<BusEvent>)
        requires
            old(self).wf(),
        ensures
            final(self).wf(),
            final(self)@.published == old(self)@.published,
            final(self)@.room == old(self)@.room,
            match event {
                Some(e) => k < old(self)@.cursors.len() && is_poll_event(old(self)@, k as int, e)
                    && final(self)@.cursors == old(self)@.cursors.update(
                    k as int,
                    cursor_after_poll(old(self)@, k as int),
                ),
                None => k >= old(self)@.cursors.len() && final(self)@.cursors == old(self)@.cursors,
            },
    {
        if k >= self.subscribers.len() {
            return None;
        }
        let event = bus_try_recv(&mut self.subscribers[k], &self.tx);
        proof {
            assert(final(self)@.cursors =~= old(self)@.cursors.update(
                k as int,
                cursor_after_poll(old(self)@, k as int),
            ));
        }
        Some(event)
    }

    /// Takes every frame that the subscriber `k` can get, oldest first, and
    /// leaves it as one that has passed everything. Where there is no
    /// subscriber `k`, nothing happens.
    pub fn drain(&mut self, k: usize) -> (frames: Option<Vec<DataFrame>>)
        requires
            old(self).wf(),
        ensures
            final(self).wf(),
            final(self)@.published == old(self)@.published,
            final(self)@.room == old(self)@.room,
            match frames {
                Some(got) => k < old(self)@.cursors.len() && views(got@) == pending(
                    old(self)@,
                    k as int,
                ) && final(self)@.cursors == old(self)@.cursors.update(
                    k as int,
                    old(self)@.published.len(),
                ),
                None => k >= old(self)@.cursors.len() && final(self)@.cursors == old(self)@.cursors,
            },
    {
        if k >= self.subscribers.len() {
            return None;
        }
        let mut got: Vec<DataFrame> = Vec::new();
        let ghost start = first_kept(old(self)@, k as int);
        proof {
            self.lemma_wf_cursors();
            assert(self@.cursors =~= old(self)@.cursors.update(k as int, self@.cursors[k as int]));
            assert(views(got@) =~= self@.published.subrange(start, start));
        }
        loop
            invariant
                self.wf(),
                k < self@.cursors.len(),
                self@.cursors.len() == old(self)@.cursors.len(),
                self@.published == old(self)@.published,
                self@.room == old(self)@.room,
                self@.cursors == old(self)@.cursors.update(k as int, self@.cursors[k as int]),
                start == first_kept(old(self)@, k as int),
                0 <= start <= self@.published.len(),
                behind(self@, k as int) > self@.room ==> self@.cursors[k as int] == old(
                    self,
                )@.cursors[k as int] && got@.len() == 0,
                behind(self@, k as int) <= self@.room ==> start <= self@.cursors[k as int]
                    <= self@.published.len() && views(got@) == self@.published.subrange(
                    start,
                    self@.cursors[k as int] as int,
                ),
            ensures
                self.wf(),
                self@.published == old(self)@.published,
                self@.room == old(self)@.room,
                self@.cursors == old(self)@.cursors.update(
                    k as int,
                    old(self)@.published.len(),
                ),
                views(got@) == pending(old(self)@, k as int),
            decreases self@.published.len() - self@.cursors[k as int],
        {
            let ghost before = self@;
            let ghost had = got@;
            proof {
                self.lemma_wf_cursors();
            }
            match self.poll(k) {
                Some(BusEvent::Frame { frame }) => {
                    got.push(frame);
                    proof {
                        let at = before.cursors[k as int] as int;
                        assert(views(got@) =~= views(had).push(frame@));
                        assert(self@.published.subrange(start, at).push(self@.published[at])
                            =~= self@.published.subrange(start, at + 1));
                        assert(self@.cursors =~= old(self)@.cursors.update(
                            k as int,
                            self@.cursors[k as int],
                        ));
                    }
                },
                Some(BusEvent::Lagged { skipped }) => {
                    proof {
                        assert(self@.cursors =~= old(self)@.cursors.update(
                            k as int,
                            self@.cursors[k as int],
                        ));
                        assert(views(got@) =~= self@.published.subrange(start, start));
                    }
                },
                _ => {
                    proof {
                        assert(self@.cursors =~= old(self)@.cursors.update(
                            k as int,
                            old(self)@.published.len(),
                        ));
                    }
                    break ;
                },
            }
        }
        Some(got)
    }
}

/// Fan-out to those attached: a subscriber that had passed everything when
/// some frames were published, and that the bus has room for, gets exactly
/// those frames, in the order of their publication. This holds of each
/// subscriber by itself, however many there are and whatever the others do.
pub proof fn lemma_attached_subscriber_gets_all(bus: BusView, k: int, frames: Seq<FrameView>)
    requires
        0 <= k < bus.cursors.len(),
        bus.cursors[k] == bus.published.len(),
        frames.len() <= bus.room,
    ensures
        pending(
            BusView { published: bus.published + frames, cursors: bus.cursors, room: bus.room },
            k,
        ) == frames,
{
    let after = BusView { published: bus.published + frames, cursors: bus.cursors, room: bus.room };
    assert(pending(after, k) =~= frames);
}

/// No backfill: a subscriber that attaches after some frames were published
/// gets none of them. It gets what is published after it attached, in the
/// order of publication, as far as the bus has room for it.
pub proof fn lemma_late_subscriber_gets_rest(bus: BusView, later: Seq<FrameView>)
    requires
        later.len() <= bus.room,
    ensures
        pending(
            BusView {
                published: bus.published + later,
                cursors: bus.cursors.push(bus.published.len()),
                room: bus.room,
            },
            bus.cursors.len() as int,
        ) == later,
{
    let attached = BusView {
        published: bus.published,
        cursors: bus.cursors.push(bus.published.len()),
        room: bus.room,
    };
    lemma_attached_subscriber_gets_all(attached, bus.cursors.len() as int, later);
}

/// Lossy, in order, at most once: whatever a subscriber gets is a run of
/// consecutive published frames that ends with the newest; it holds nothing
/// before the subscriber's own place, and where the subscriber has fallen
/// behind by more than the bus keeps it holds exactly the frames kept.
pub proof fn lemma_pending_is_newest_run(bus: BusView, k: int)
    requires
        0 <= k < bus.cursors.len(),
        bus.cursors[k] <= bus.published.len(),
    ensures
        bus.cursors[k] <= first_kept(bus, k) <= bus.published.len(),
        pending(bus, k).len() == bus.published.len() - first_kept(bus, k),
        forall|i: int|
            0 <= i < pending(bus, k).len() ==> pending(bus, k)[i] == bus.published[first_kept(
                bus,
                k,
            ) + i],
        behind(bus, k) > bus.room ==> pending(bus, k).len() == bus.room,
{
}

/// No reordering and no duplication: asking a subscriber for its next frame
/// never moves it back. A frame that it gets is the one at its place, and
/// it then stands behind that frame; after a gap it stands further on
/// still; and it stays in place only where it gets nothing.
pub proof fn lemma_poll_moves_forward(bus: BusView, k: int, event: BusEvent)
    requires
        0 <= k < bus.cursors.len(),
        bus.cursors[k] <= bus.published.len(),
        is_poll_event(bus, k, event),
    ensures
        bus.cursors[k] <= cursor_after_poll(bus, k) <= bus.published.len(),
        event is Frame ==> event->frame@ == bus.published[bus.cursors[k] as int]
            && cursor_after_poll(bus, k) == bus.cursors[k] + 1,
        event is Lagged ==> cursor_after_poll(bus, k) == bus.cursors[k] + event->skipped,
        event is Empty ==> cursor_after_poll(bus, k) == bus.cursors[k],
        !(event is Closed),
{
}

} // verus!
