//! The render loop as a state machine.
//!
//! The loop alternates work on the outside with decisions. The work is done by
//! a driver: waiting for the sources, drawing, polling the terminal. The
//! decisions are made here: [`RenderLoop::step`] takes what the driver's last
//! piece of work brought, an [`Event`], and answers with the next piece of
//! work, an [`Action`].
//!
//! A round collects [`ROUND_SIZE`] deliveries, whichever open sources they come
//! from. When a round is complete and every facet is present, one frame is
//! drawn and the terminal is polled once; a round that ends with a facet still
//! absent is followed by the next round at once. A source that has closed
//! leaves the race. The loop stops, and fires the shutdown signal, when a quit
//! key is read or when the last source has closed.

use crate::input::{is_quit, quits, InputEvent};
use crate::shutdown::ShutdownSignal;
use crate::snapshot::{Delivery, Snapshot, Source, Sources};
use std::sync::Arc;
use vstd::prelude::*;

verus! {

/// The number of deliveries that make a round.
pub const ROUND_SIZE: u8 = 3;

/// What the driver's last piece of work brought.
#[derive(Clone, Debug, PartialEq, Eq)]
pub enum Event<Q, S, T> {
    /// The race was won by a source that delivered a value.
    Delivered(Delivery<Q, S, T>),
    /// The race showed that a source has closed for good.
    Closed(Source),
    /// The frame has been drawn.
    Drawn,
    /// The terminal has been polled; `None` where no event was pending.
    Input(Option<InputEvent>),
}

/// The next piece of work for the driver.
#[derive(Clone, Copy, Debug, PartialEq, Eq, Structural)]
pub enum Action {
    /// Race these sources, which are the open ones, and report the first
    /// delivery or closure.
    Receive(Sources),
    /// Draw one frame from the snapshot, and report it drawn.
    Draw,
    /// Poll the terminal once without waiting, and report what was pending.
    Poll,
    /// Leave the loop.
    Stop,
}

/// What the loop is waiting for.
#[derive(Clone, Copy, Debug, PartialEq, Eq, Structural)]
pub enum Phase {
    /// For a delivery or a closure.
    Receiving,
    /// For the frame to be drawn.
    Drawing,
    /// For the result of the poll.
    Polling,
    /// For nothing: the loop is over.
    Stopped,
}

/// The state of the loop, as the contracts speak of it.
pub struct LoopState<Q, S, T> {
    /// The latest value of each facet.
    pub snapshot: Snapshot<Q, S, T>,
    /// The sources that have not closed.
    pub open: Sources,
    /// The deliveries counted in the current round.
    pub received: nat,
    /// What the loop is waiting for.
    pub phase: Phase,
    /// Whether the loop has fired the shutdown signal.
    pub fired: bool,
}

impl<Q, S, T> LoopState<Q, S, T> {
    /// The state at the start: nothing delivered, every source open, the
    /// signal not fired.
    pub open spec fn init() -> LoopState<Q, S, T> {
        LoopState {
            snapshot: Snapshot::empty_of(),
            open: Sources::all_of(),
            received: 0,
            phase: Phase::Receiving,
            fired: false,
        }
    }

    /// What holds of every state that the loop reaches: a round in progress
    /// is short of [`ROUND_SIZE`]; a frame is drawn, and the terminal polled,
    /// only between rounds and with every facet present; while the loop runs,
    /// a source is open; and it has fired the signal exactly if it has stopped.
    pub open spec fn wf(self) -> bool {
        &&& self.received < ROUND_SIZE
        &&& (self.phase is Drawing || self.phase is Polling) ==> self.snapshot.complete()
            && self.received == 0
        &&& !(self.phase is Stopped) ==> !self.open.none_left()
        &&& self.phase is Stopped <==> self.fired
    }

    /// The piece of work that the loop is waiting for.
    pub open spec fn action(self) -> Action {
        match self.phase {
            Phase::Receiving => Action::Receive(self.open),
            Phase::Drawing => Action::Draw,
            Phase::Polling => Action::Poll,
            Phase::Stopped => Action::Stop,
        }
    }

    /// The loop stopped, with the signal fired.
    pub open spec fn stopped(self) -> LoopState<Q, S, T> {
        LoopState { phase: Phase::Stopped, fired: true, ..self }
    }

    /// A delivery of an open source while receiving: the value replaces its
    /// facet and counts toward the round. The delivery that completes the
    /// round starts the next one, after a frame if every facet is present.
    pub open spec fn deliver(self, delivery: Delivery<Q, S, T>) -> LoopState<Q, S, T> {
        let snapshot = self.snapshot.with(delivery);
        if self.received + 1 < ROUND_SIZE {
            LoopState { snapshot, received: self.received + 1, ..self }
        } else if snapshot.complete() {
            LoopState { snapshot, received: 0, phase: Phase::Drawing, ..self }
        } else {
            LoopState { snapshot, received: 0, ..self }
        }
    }

    /// A closure while receiving: the source leaves the race, and the loop
    /// stops if it was the last one open. The round's count stays as it is.
    pub open spec fn close(self, source: Source) -> LoopState<Q, S, T> {
        let open = self.open.without(source);
        if open.none_left() {
            LoopState { open, ..self }.stopped()
        } else {
            LoopState { open, ..self }
        }
    }

    /// The result of the poll: a quit key stops the loop, anything else, or
    /// nothing, starts the next round.
    pub open spec fn react(self, input: Option<InputEvent>) -> LoopState<Q, S, T> {
        if input matches Some(event) && quits(event) {
            self.stopped()
        } else {
            LoopState { phase: Phase::Receiving, ..self }
        }
    }

    /// The state after `event`. An event that the loop is not waiting for,
    /// and a delivery of a source that has closed, change nothing.
    pub open spec fn next(self, event: Event<Q, S, T>) -> LoopState<Q, S, T> {
        match (self.phase, event) {
            (Phase::Receiving, Event::Delivered(delivery)) => if self.open.has(delivery.source_of()) {
                self.deliver(delivery)
            } else {
                self
            },
            (Phase::Receiving, Event::Closed(source)) => self.close(source),
            (Phase::Drawing, Event::Drawn) => LoopState { phase: Phase::Polling, ..self },
            (Phase::Polling, Event::Input(input)) => self.react(input),
            _ => self,
        }
    }

    /// The state after a sequence of events.
    pub open spec fn run(self, events: Seq<Event<Q, S, T>>) -> LoopState<Q, S, T>
        decreases events.len(),
    {
        if events.len() == 0 {
            self
        } else {
            self.run(events.drop_last()).next(events.last())
        }
    }
}

/// The render loop: the snapshot, the open sources, the count of the current
/// round, and the shutdown signal.
pub struct RenderLoop<Q, S, T> {
    snapshot: Snapshot<Q, S, T>,
    open: Sources,
    received: u8,
    phase: Phase,
    shutdown: ShutdownSignal,
}

impl<Q, S, T> View for RenderLoop<Q, S, T> {
    type V = LoopState<Q, S, T>;

    closed spec fn view(&self) -> LoopState<Q, S, T> {
        LoopState {
            snapshot: self.snapshot,
            open: self.open,
            received: self.received as nat,
            phase: self.phase,
            fired: self.shutdown.fired(),
        }
    }
}

impl<Q, S, T> RenderLoop<Q, S, T> {
    /// The notification over which the loop fires its shutdown signal.
    pub closed spec fn notify(&self) -> Arc<tokio::sync::Notify> {
        self.shutdown.notify()
    }

    /// A loop at its start, which will signal shutdown over `notify`.
    pub fn new(notify: Arc<tokio::sync::Notify>) -> (render_loop: RenderLoop<Q, S, T>)
        ensures
            render_loop@ == LoopState::<Q, S, T>::init(),
            render_loop@.wf(),
            render_loop.notify() == notify,
    {
        RenderLoop {
            snapshot: Snapshot::empty(),
            open: Sources::all(),
            received: 0,
            phase: Phase::Receiving,
            shutdown: ShutdownSignal::new(notify),
        }
    }

    /// The piece of work that the loop is waiting for.
    pub fn pending(&self) -> (action: Action)
        ensures
            action == self@.action(),
    {
        match self.phase {
            Phase::Receiving => Action::Receive(self.open),
            Phase::Drawing => Action::Draw,
            Phase::Polling => Action::Poll,
            Phase::Stopped => Action::Stop,
        }
    }

    /// The snapshot as it stands.
    pub fn snapshot(&self) -> (snapshot: &Snapshot<Q, S, T>)
        ensures
            *snapshot == self@.snapshot,
    {
        &self.snapshot
    }

    /// The sources that have not closed.
    pub fn open_sources(&self) -> (open: Sources)
        ensures
            open == self@.open,
    {
        self.open
    }

    /// Whether the loop is over.
    pub fn is_stopped(&self) -> (stopped: bool)
        ensures
            stopped == (self@.phase is Stopped),
    {
        match self.phase {
            Phase::Stopped => true,
            _ => false,
        }
    }

    /// Whether the loop has fired the shutdown signal.
    pub fn has_fired(&self) -> (fired: bool)
        ensures
            fired == self@.fired,
    {
        self.shutdown.is_fired()
    }

    /// Takes in what the driver's last piece of work brought, and answers
    /// with the next piece of work.
    pub fn step(&mut self, event: Event<Q, S, T>) -> (action: Action)
        requires
            old(self)@.wf(),
        ensures
            final(self)@ == old(self)@.next(event),
            final(self)@.wf(),
            final(self).notify() == old(self).notify(),
            action == final(self)@.action(),
    {
        match self.phase {
            Phase::Receiving => match event {
                Event::Delivered(delivery) => {
                    if self.open.contains(delivery.source()) {
                        self.snapshot.store(delivery);
                        self.received = self.received + 1;
                        if self.received == ROUND_SIZE {
                            self.received = 0;
                            if self.snapshot.is_complete() {
                                self.phase = Phase::Drawing;
                            }
                        }
                    }
                },
                Event::Closed(source) => {
                    self.open.remove(source);
                    if self.open.is_empty() {
                        self.stop();
                    }
                },
                _ => {},
            },
            Phase::Drawing => match event {
                Event::Drawn => {
                    self.phase = Phase::Polling;
                },
                _ => {},
            },
            Phase::Polling => match event {
                Event::Input(input) => {
                    let quit = match input {
                        Some(pressed) => is_quit(&pressed),
                        None => false,
                    };
                    if quit {
                        self.stop();
                    } else {
                        self.phase = Phase::Receiving;
                    }
                },
                _ => {},
            },
            Phase::Stopped => {},
        }
        self.pending()
    }

    /// Fires the shutdown signal and ends the loop.
    fn stop(&mut self)
        requires
            !old(self)@.fired,
        ensures
            final(self)@ == old(self)@.stopped(),
            final(self).notify() == old(self).notify(),
    {
        proof {
            self.shutdown.lemma_after_fire();
        }
        self.shutdown.fire();
        self.phase = Phase::Stopped;
    }
}

} // verus!
