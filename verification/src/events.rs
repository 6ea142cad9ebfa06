use vstd::prelude::*;

verus! {

/// What the event source hands over when it is polled once.
#[derive(Clone, Copy, Debug, PartialEq, Eq, Structural)]
pub enum Signal {
    /// Nothing is waiting.
    Idle,
    /// The user asked to leave.
    Quit,
    /// A key went down.
    KeyPressed,
    /// Text was typed.
    TextInput,
    /// Anything else.
    Other,
}

/// What the frame loop does after one poll.
#[derive(Clone, Copy, Debug, PartialEq, Eq, Structural)]
pub enum Step {
    /// Poll again: more may be waiting.
    PollAgain,
    /// The queue is empty: draw the frame.
    Draw,
    /// Leave the loop.
    Stop,
}

/// Decides what follows a poll: a request to quit stops the loop at once,
/// an empty queue lets the frame be drawn, and everything else is passed
/// over for the next poll.
pub fn on_signal(signal: Signal) -> (step: Step)
    ensures
        signal == Signal::Quit <==> step == Step::Stop,
        signal == Signal::Idle <==> step == Step::Draw,
        signal != Signal::Quit && signal != Signal::Idle <==> step == Step::PollAgain,
{
    match signal {
        Signal::Quit => Step::Stop,
        Signal::Idle => Step::Draw,
        _ => Step::PollAgain,
    }
}

} // verus!
