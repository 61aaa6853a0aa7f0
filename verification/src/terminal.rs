//! The terminal modes that the dashboard holds and has to give back.
//!
//! The dashboard runs in raw mode, on the alternate screen, with mouse capture.
//! Whatever ends it, each mode that was taken is given back once. The record
//! kept here says which modes are held, and hands them out for release in the
//! order of [`teardown`]; what has been handed out is no longer held, so that a
//! second release finds nothing to do.

use vstd::prelude::*;

verus! {

/// A terminal mode that is taken at the start and given back at the end.
#[derive(Clone, Copy, Debug, PartialEq, Eq, Structural)]
pub enum Mode {
    /// Input arrives unbuffered and unechoed.
    RawMode,
    /// Output goes to the alternate screen buffer.
    AlternateScreen,
    /// Mouse events are reported.
    MouseCapture,
}

/// The held modes in the order in which they are given back.
pub open spec fn teardown(held: Set<Mode>) -> Seq<Mode> {
    (if held.contains(Mode::RawMode) { seq![Mode::RawMode] } else { seq![] })
        + (if held.contains(Mode::AlternateScreen) { seq![Mode::AlternateScreen] } else { seq![] })
        + (if held.contains(Mode::MouseCapture) { seq![Mode::MouseCapture] } else { seq![] })
}

/// The record of the terminal modes that are held.
#[derive(Debug)]
pub struct TerminalModes {
    raw_mode: bool,
    alternate_screen: bool,
    mouse_capture: bool,
}

impl View for TerminalModes {
    type V = Set<Mode>;

    /// The set of the modes that are held.
    closed spec fn view(&self) -> Set<Mode> {
        Set::new(
            |mode: Mode|
                match mode {
                    Mode::RawMode => self.raw_mode,
                    Mode::AlternateScreen => self.alternate_screen,
                    Mode::MouseCapture => self.mouse_capture,
                },
        )
    }
}

impl TerminalModes {
    /// The record of a terminal of which no mode is held.
    pub fn new() -> (modes: TerminalModes)
        ensures
            modes@ == Set::<Mode>::empty(),
    {
        let modes = TerminalModes { raw_mode: false, alternate_screen: false, mouse_capture: false };
        assert(modes@ =~= Set::<Mode>::empty());
        modes
    }

    /// Whether `mode` is held.
    pub fn holds(&self, mode: Mode) -> (held: bool)
        ensures
            held == self@.contains(mode),
    {
        match mode {
            Mode::RawMode => self.raw_mode,
            Mode::AlternateScreen => self.alternate_screen,
            Mode::MouseCapture => self.mouse_capture,
        }
    }

    /// Whether any mode is held.
    pub fn holds_any(&self) -> (any: bool)
        ensures
            any == (self@ != Set::<Mode>::empty()),
    {
        let any = self.raw_mode || self.alternate_screen || self.mouse_capture;
        proof {
            if any {
                assert(self@.contains(Mode::RawMode) || self@.contains(Mode::AlternateScreen)
                    || self@.contains(Mode::MouseCapture));
            } else {
                assert(self@ =~= Set::<Mode>::empty());
            }
        }
        any
    }

    /// Records that `mode` has been taken.
    pub fn acquire(&mut self, mode: Mode)
        ensures
            final(self)@ == old(self)@.insert(mode),
    {
        match mode {
            Mode::RawMode => {
                self.raw_mode = true;
            },
            Mode::AlternateScreen => {
                self.alternate_screen = true;
            },
            Mode::MouseCapture => {
                self.mouse_capture = true;
            },
        }
        assert(self@ =~= old(self)@.insert(mode));
    }

    /// Hands out the held modes for release, in the order of [`teardown`].
    /// Afterwards none is held.
    pub fn release(&mut self) -> (steps: Vec<Mode>)
        ensures
            steps@ == teardown(old(self)@),
            final(self)@ == Set::<Mode>::empty(),
    {
        let mut steps: Vec<Mode> = Vec::new();
        if self.raw_mode {
            steps.push(Mode::RawMode);
        }
        if self.alternate_screen {
            steps.push(Mode::AlternateScreen);
        }
        if self.mouse_capture {
            steps.push(Mode::MouseCapture);
        }
        self.raw_mode = false;
        self.alternate_screen = false;
        self.mouse_capture = false;
        assert(steps@ =~= teardown(old(self)@));
        assert(self@ =~= Set::<Mode>::empty());
        steps
    }
}

/// A release gives back exactly the held modes, each of them once.
pub proof fn lemma_teardown_gives_back_each_once(held: Set<Mode>)
    ensures
        forall|mode: Mode| teardown(held).contains(mode) <==> held.contains(mode),
        teardown(held).no_duplicates(),
{
    let steps = teardown(held);
    let raw = if held.contains(Mode::RawMode) { seq![Mode::RawMode] } else { seq![] };
    let alt = if held.contains(Mode::AlternateScreen) { seq![Mode::AlternateScreen] } else { seq![] };
    let mouse = if held.contains(Mode::MouseCapture) { seq![Mode::MouseCapture] } else { seq![] };
    assert(steps == raw + alt + mouse);
    assert forall|mode: Mode| steps.contains(mode) <==> held.contains(mode) by {
        if held.contains(mode) {
            match mode {
                Mode::RawMode => {
                    assert(steps[0] == mode);
                },
                Mode::AlternateScreen => {
                    assert(steps[raw.len() as int] == mode);
                },
                Mode::MouseCapture => {
                    assert(steps[(raw.len() + alt.len()) as int] == mode);
                },
            }
        }
        if steps.contains(mode) {
            let i = choose|i: int| 0 <= i < steps.len() && steps[i] == mode;
            assert(steps[i] == mode);
        }
    }
    assert forall|i: int, j: int| 0 <= i < steps.len() && 0 <= j < steps.len() && i != j
        implies steps[i] != steps[j] by {
    }
}

/// After a release nothing is held, so a second release gives back nothing:
/// each mode is given back at most once.
pub proof fn lemma_second_release_is_empty()
    ensures
        teardown(Set::<Mode>::empty()) == Seq::<Mode>::empty(),
{
    assert(teardown(Set::<Mode>::empty()) =~= Seq::<Mode>::empty());
}

} // verus!
