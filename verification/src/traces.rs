//! What holds of the render loop over whole sequences of events.

use crate::input::{quits, InputEvent};
use crate::render_loop::{Action, Event, LoopState, ROUND_SIZE};
use crate::snapshot::{Delivery, Snapshot, Source, Sources};
use vstd::prelude::*;

verus! {

/// Whether every event of the sequence is the closure of a source.
pub open spec fn only_closures<Q, S, T>(events: Seq<Event<Q, S, T>>) -> bool {
    forall|i: int| 0 <= i < events.len() ==> (#[trigger] events[i]) is Closed
}

/// Whether the sequence holds the closure of `source`.
pub open spec fn closes<Q, S, T>(events: Seq<Event<Q, S, T>>, source: Source) -> bool {
    exists|i: int| 0 <= i < events.len() && #[trigger] events[i] == Event::<Q, S, T>::Closed(source)
}

/// A sequence holds a closure if it is its last event or lies before it.
proof fn lemma_closes_last<Q, S, T>(events: Seq<Event<Q, S, T>>, source: Source)
    requires
        events.len() > 0,
    ensures
        closes(events, source) <==> closes(events.drop_last(), source) || events.last()
            == Event::<Q, S, T>::Closed(source),
{
    let before = events.drop_last();
    if closes(events, source) {
        let i = choose|i: int| 0 <= i < events.len() && #[trigger] events[i] == Event::<
            Q,
            S,
            T,
        >::Closed(source);
        if i < before.len() {
            assert(before[i] == Event::<Q, S, T>::Closed(source));
        }
    }
    if closes(before, source) {
        let i = choose|i: int| 0 <= i < before.len() && #[trigger] before[i] == Event::<
            Q,
            S,
            T,
        >::Closed(source);
        assert(events[i] == Event::<Q, S, T>::Closed(source));
    }
    if events.last() == Event::<Q, S, T>::Closed(source) {
        assert(events[events.len() - 1] == Event::<Q, S, T>::Closed(source));
    }
}

impl<Q, S, T> LoopState<Q, S, T> {
    /// Every step keeps the loop well-formed.
    pub proof fn lemma_next_keeps_wf(self, event: Event<Q, S, T>)
        requires
            self.wf(),
        ensures
            self.next(event).wf(),
    {
    }

    /// Every sequence of events keeps the loop well-formed.
    pub proof fn lemma_run_keeps_wf(self, events: Seq<Event<Q, S, T>>)
        requires
            self.wf(),
        ensures
            self.run(events).wf(),
        decreases events.len(),
    {
        if events.len() > 0 {
            self.lemma_run_keeps_wf(events.drop_last());
            self.run(events.drop_last()).lemma_next_keeps_wf(events.last());
        }
    }

    /// Whatever the sources deliver and in whatever order, a frame is drawn
    /// only from a snapshot in which every facet is present: after every
    /// sequence of events, and so after each of its prefixes, a loop that asks
    /// for a frame holds a complete snapshot.
    pub proof fn lemma_frames_have_every_facet(events: Seq<Event<Q, S, T>>)
        ensures
            Self::init().run(events).action() == Action::Draw ==> Self::init().run(
                events,
            ).snapshot.complete(),
            forall|n: int|
                0 <= n <= events.len() && (#[trigger] Self::init().run(events.take(n))).action()
                    == Action::Draw ==> Self::init().run(events.take(n)).snapshot.complete(),
    {
        Self::init().lemma_run_keeps_wf(events);
        assert forall|n: int|
            0 <= n <= events.len() && (#[trigger] Self::init().run(events.take(n))).action()
                == Action::Draw implies Self::init().run(events.take(n)).snapshot.complete() by {
            Self::init().lemma_run_keeps_wf(events.take(n));
        }
    }

    /// No frame is drawn in the middle of a round: the loop turns to drawing
    /// only on the delivery that completes a round.
    pub proof fn lemma_draw_follows_a_complete_round(self, event: Event<Q, S, T>)
        requires
            self.wf(),
            !(self.phase is Drawing),
            self.next(event).phase is Drawing,
        ensures
            self.phase is Receiving,
            event is Delivered,
            self.received + 1 == ROUND_SIZE,
            self.next(event).received == 0,
            self.next(event).snapshot.complete(),
    {
    }

    /// After each frame the terminal is polled once, and the poll is followed
    /// by the next round unless it stops the loop.
    pub proof fn lemma_poll_follows_each_frame(self, input: Option<InputEvent>)
        requires
            self.wf(),
            self.phase is Drawing,
        ensures
            self.next(Event::Drawn).action() == Action::Poll,
            self.next(Event::Drawn).next(Event::Input(input)).action() == Action::Stop
                || self.next(Event::Drawn).next(Event::Input(input)).action() == Action::Receive(
                self.open,
            ),
    {
    }

    /// A quit key read by the poll ends the loop and fires the shutdown
    /// signal. Any other input, and none, leaves the signal alone and starts
    /// the next round.
    pub proof fn lemma_quit_stops(self, input: Option<InputEvent>)
        requires
            self.wf(),
            self.phase is Polling,
        ensures
            (input matches Some(event) && quits(event)) ==> {
                &&& self.next(Event::Input(input)).action() == Action::Stop
                &&& self.next(Event::Input(input)).fired
            },
            !(input matches Some(event) && quits(event)) ==> {
                &&& self.next(Event::Input(input)).action() == Action::Receive(self.open)
                &&& !self.next(Event::Input(input)).fired
            },
    {
    }

    /// A loop that has stopped stays as it is, whatever is reported to it.
    pub proof fn lemma_stopped_is_final(self, events: Seq<Event<Q, S, T>>)
        requires
            self.phase is Stopped,
        ensures
            self.run(events) == self,
        decreases events.len(),
    {
        if events.len() > 0 {
            self.lemma_stopped_is_final(events.drop_last());
        }
    }

    /// The loop fires the shutdown signal on exactly two occasions: when the
    /// poll reads a quit key, and when the last open source closes.
    pub proof fn lemma_fires_on_quit_or_last_closure(self, event: Event<Q, S, T>)
        requires
            self.wf(),
            !self.fired,
        ensures
            self.next(event).fired <==> {
                ||| self.phase is Polling && (event matches Event::Input(Some(pressed)) && quits(
                    pressed,
                ))
                ||| self.phase is Receiving && (event matches Event::Closed(source)
                    && self.open.without(source).none_left())
            },
    {
    }

    /// Closures alone draw nothing. After a sequence of closures, with no
    /// delivery before or between them, the snapshot is empty, the open
    /// sources are those of which no closure was reported, and the loop has
    /// stopped exactly if all three sources have closed; until then it waits
    /// for the open ones.
    pub proof fn lemma_closures_alone_never_draw(events: Seq<Event<Q, S, T>>)
        requires
            only_closures(events),
        ensures
            Self::init().run(events).snapshot == Snapshot::<Q, S, T>::empty_of(),
            Self::init().run(events).phase is Receiving || Self::init().run(events).phase is Stopped,
            forall|source: Source| #[trigger]
                Self::init().run(events).open.has(source) <==> !closes(events, source),
            Self::init().run(events).phase is Stopped <==> closes(events, Source::Queries)
                && closes(events, Source::Statistics) && closes(events, Source::Status),
        decreases events.len(),
    {
        let end = Self::init().run(events);
        if events.len() == 0 {
            assert forall|source: Source| #[trigger] end.open.has(source) <==> !closes(events, source) by {
            }
        } else {
            let before = events.drop_last();
            let mid = Self::init().run(before);
            assert(only_closures(before)) by {
                assert forall|i: int| 0 <= i < before.len() implies (#[trigger] before[i]) is Closed by {
                    assert(before[i] == events[i]);
                }
            }
            Self::lemma_closures_alone_never_draw(before);
            Self::init().lemma_run_keeps_wf(before);
            let last = events.last();
            assert(last == events[events.len() - 1]);
            assert(last is Closed);
            let closed = last->Closed_0;
            lemma_closes_last(events, Source::Queries);
            lemma_closes_last(events, Source::Statistics);
            lemma_closes_last(events, Source::Status);
            assert(mid.open.has(Source::Queries) <==> !closes(before, Source::Queries));
            assert(mid.open.has(Source::Statistics) <==> !closes(before, Source::Statistics));
            assert(mid.open.has(Source::Status) <==> !closes(before, Source::Status));
            assert(end == mid.next(last));
            assert forall|source: Source| #[trigger] end.open.has(source) <==> !closes(events, source) by {
                match source {
                    Source::Queries => {},
                    Source::Statistics => {},
                    Source::Status => {},
                }
            }
        }
    }

    /// A source that is not open never changes its facet again: whatever
    /// follows, the facet keeps the value it has, and the source stays out of
    /// the race.
    pub proof fn lemma_closed_source_keeps_facet(self, source: Source, events: Seq<Event<Q, S, T>>)
        requires
            !self.open.has(source),
        ensures
            self.run(events).snapshot.same_facet(self.snapshot, source),
            !self.run(events).open.has(source),
        decreases events.len(),
    {
        if events.len() > 0 {
            self.lemma_closed_source_keeps_facet(source, events.drop_last());
        }
    }

    /// When a source closes, its facet keeps its last value through everything
    /// that follows.
    pub proof fn lemma_facet_survives_closure(self, source: Source, events: Seq<Event<Q, S, T>>)
        requires
            self.phase is Receiving,
        ensures
            self.next(Event::Closed(source)).run(events).snapshot.same_facet(self.snapshot, source),
    {
        self.next(Event::Closed(source)).lemma_closed_source_keeps_facet(source, events);
    }

    /// Between frames, any three deliveries of open sources make a round,
    /// whichever of the sources they come from. If every facet was present
    /// before the round, the round ends in a frame, drawn from the snapshot
    /// with the three values stored in their order: a facet whose source has
    /// closed, or did not deliver in this round, is drawn with its last value.
    pub proof fn lemma_round_ends_in_frame(
        self,
        first: Delivery<Q, S, T>,
        second: Delivery<Q, S, T>,
        third: Delivery<Q, S, T>,
    )
        requires
            self.wf(),
            self.phase is Receiving,
            self.received == 0,
            self.snapshot.complete(),
            self.open.has(first.source_of()),
            self.open.has(second.source_of()),
            self.open.has(third.source_of()),
        ensures
            self.next(Event::Delivered(first)).action() == Action::Receive(self.open),
            self.next(Event::Delivered(first)).next(Event::Delivered(second)).action()
                == Action::Receive(self.open),
            self.next(Event::Delivered(first)).next(Event::Delivered(second)).next(
                Event::Delivered(third),
            ).action() == Action::Draw,
            self.next(Event::Delivered(first)).next(Event::Delivered(second)).next(
                Event::Delivered(third),
            ).snapshot == self.snapshot.with(first).with(second).with(third),
    {
    }

    /// The first frame: when each source delivers once, in any order, the
    /// third delivery is followed by a frame, and no frame comes before it.
    pub proof fn lemma_first_round_draws(
        first: Delivery<Q, S, T>,
        second: Delivery<Q, S, T>,
        third: Delivery<Q, S, T>,
    )
        requires
            first.source_of() != second.source_of(),
            first.source_of() != third.source_of(),
            second.source_of() != third.source_of(),
        ensures
            Self::init().next(Event::Delivered(first)).action() == Action::Receive(Sources::all_of()),
            Self::init().next(Event::Delivered(first)).next(Event::Delivered(second)).action()
                == Action::Receive(Sources::all_of()),
            Self::init().next(Event::Delivered(first)).next(Event::Delivered(second)).next(
                Event::Delivered(third),
            ).action() == Action::Draw,
            Self::init().next(Event::Delivered(first)).next(Event::Delivered(second)).next(
                Event::Delivered(third),
            ).snapshot == Snapshot::<Q, S, T>::empty_of().with(first).with(second).with(third),
    {
    }
}

} // verus!
