//! The decisions of the draw loop.
//!
//! The loop draws a frame, waits a bounded time for input, and starts over
//! until the key `q` arrives or the terminal fails. Drawing and waiting are
//! done by the caller; what to do next is decided here, from what the last
//! step gave.

use vstd::prelude::*;

verus! {

/// The longest time, in milliseconds, that one poll waits for input.
pub const POLL_TIMEOUT_MS: u64 = 250;

/// An input event, as far as the loop tells events apart.
#[derive(Clone, Copy, Debug, PartialEq, Eq, Structural)]
pub enum KeyEvent {
    /// A key that stands for a character was pressed.
    Char(char),
    /// Any other event.
    Other,
}

/// What the loop does next. It is running while the step is `Draw` or
/// `Poll`, and terminated once it is `Stop`.
#[derive(Debug, PartialEq, Eq)]
pub enum Step<E> {
    /// Draw one frame.
    Draw,
    /// Wait for input, `timeout_ms` milliseconds at most.
    Poll { timeout_ms: u64 },
    /// Leave the loop and return this result.
    Stop(Result<(), E>),
}

impl KeyEvent {
    /// Whether the event asks the loop to end: the character key `q`.
    pub open spec fn quits(self) -> bool {
        self == KeyEvent::Char('q')
    }

    /// Tells whether the event asks the loop to end.
    pub fn is_quit(&self) -> (quit: bool)
        ensures
            quit == self.quits(),
    {
        match self {
            KeyEvent::Char(c) => *c == 'q',
            KeyEvent::Other => false,
        }
    }
}

impl<E> Step<E> {
    /// Whether the loop is still running.
    pub open spec fn running(self) -> bool {
        !(self is Stop)
    }

    /// The step that follows a draw which gave `drawn`.
    pub open spec fn following_draw(drawn: Result<(), E>) -> Step<E> {
        match drawn {
            Ok(_) => Step::Poll { timeout_ms: POLL_TIMEOUT_MS },
            Err(error) => Step::Stop(Err(error)),
        }
    }

    /// The step that follows a poll which gave `polled`: `Ok(None)` stands
    /// for a poll that timed out.
    pub open spec fn following_poll(polled: Result<Option<KeyEvent>, E>) -> Step<E> {
        match polled {
            Ok(Some(event)) => if event.quits() {
                Step::Stop(Ok(()))
            } else {
                Step::Draw
            },
            Ok(None) => Step::Draw,
            Err(error) => Step::Stop(Err(error)),
        }
    }

    /// The first step of the loop: it starts by drawing.
    pub fn first() -> (step: Step<E>)
        ensures
            step == Step::<E>::Draw,
    {
        Step::Draw
    }

    /// Decides what follows a draw: a poll of `POLL_TIMEOUT_MS` after a
    /// frame was drawn, the end of the loop with the error after a failure.
    pub fn after_draw(drawn: Result<(), E>) -> (step: Step<E>)
        ensures
            step == Step::following_draw(drawn),
    {
        match drawn {
            Ok(_) => Step::Poll { timeout_ms: POLL_TIMEOUT_MS },
            Err(error) => Step::Stop(Err(error)),
        }
    }

    /// Decides what follows a poll: the end of the loop with success after
    /// the key `q`, the end with the error after a failure, and another draw
    /// after any other event or none.
    pub fn after_poll(polled: Result<Option<KeyEvent>, E>) -> (step: Step<E>)
        ensures
            step == Step::following_poll(polled),
    {
        match polled {
            Ok(Some(event)) => if event.is_quit() {
                Step::Stop(Ok(()))
            } else {
                Step::Draw
            },
            Ok(None) => Step::Draw,
            Err(error) => Step::Stop(Err(error)),
        }
    }
}

/// The loop goes on after a draw exactly when the frame was drawn, and after
/// a poll exactly when the poll did not fail and did not give the key `q`.
/// A failure ends the loop with the error that the draw or the poll gave.
pub proof fn lemma_ends_on_quit_or_failure<E>(drawn: Result<(), E>, polled: Result<Option<KeyEvent>, E>)
    ensures
        Step::following_draw(drawn).running() <==> drawn is Ok,
        Step::following_poll(polled).running() <==> polled is Ok && polled->Ok_0 != Some(
            KeyEvent::Char('q'),
        ),
        drawn is Err ==> Step::following_draw(drawn) == Step::<E>::Stop(Err(drawn->Err_0)),
        polled is Err ==> Step::following_poll(polled) == Step::<E>::Stop(Err(polled->Err_0)),
{
}

} // verus!
