//! The unrecoverable fault path. The host offers no way to end the program, so a fault reports a
//! fixed line on the chat and then halts for good: every later step only sleeps until the next
//! tick, and control never returns to the program.
use vstd::prelude::*;
use crate::chat::NEWLINE;
use crate::fmt::MciWriteStream;

verus! {

/// The line that a fault writes to the chat.
pub const FAULT_MESSAGE: &'static str = "RUST PANIC - entering infinite loop!";

/// The characters a fault hands to the host: the message and its newline.
pub open spec fn fault_line() -> Seq<char> {
    FAULT_MESSAGE@ + seq![NEWLINE]
}

/// Whether the program is running or has faulted and halted.
#[derive(PartialEq, Eq, Structural, Clone, Copy, Debug)]
pub enum RunState {
    Running,
    Faulted,
}

/// What happens at a step of the program.
#[derive(PartialEq, Eq, Structural, Clone, Copy, Debug)]
pub enum Event {
    /// The host resumes the program for another tick.
    Tick,
    /// The program hit an unrecoverable fault.
    Fault,
}

/// What the program does after a step.
#[derive(PartialEq, Eq, Structural, Clone, Copy, Debug)]
pub enum Action {
    /// Control goes back to the program's own code.
    Continue,
    /// The program sleeps until the next tick.
    Sleep,
}

/// One step: the next state, the characters handed to the host, and the action taken.
pub open spec fn step_spec(state: RunState, event: Event) -> (RunState, Seq<char>, Action) {
    match state {
        RunState::Running => match event {
            Event::Tick => (RunState::Running, Seq::<char>::empty(), Action::Continue),
            Event::Fault => (RunState::Faulted, fault_line(), Action::Sleep),
        },
        RunState::Faulted => (RunState::Faulted, Seq::<char>::empty(), Action::Sleep),
    }
}

/// The steps for `events` in order from `state`: the last state, every character handed to the
/// host, and the actions taken, one per event.
pub open spec fn run(state: RunState, events: Seq<Event>) -> (RunState, Seq<char>, Seq<Action>)
    decreases events.len(),
{
    if events.len() == 0 {
        (state, Seq::<char>::empty(), Seq::<Action>::empty())
    } else {
        let first = step_spec(state, events[0]);
        let rest = run(first.0, events.skip(1));
        (rest.0, first.1 + rest.1, seq![first.2] + rest.2)
    }
}

/// `n` steps of sleeping.
pub open spec fn sleeps(n: nat) -> Seq<Action> {
    Seq::new(n, |i: int| Action::Sleep)
}

/// Handles a fault: a running program writes the fault line and halts; a halted one stays halted
/// and writes nothing more.
pub fn panic(state: &mut RunState, out: &mut MciWriteStream)
    ensures
        *final(state) == RunState::Faulted,
        final(out)@ == old(out)@ + (if *old(state) == RunState::Running {
            fault_line()
        } else {
            Seq::<char>::empty()
        }),
{
    if *state == RunState::Running {
        crate::println(out, FAULT_MESSAGE);
        *state = RunState::Faulted;
    } else {
        assert(out@ + Seq::<char>::empty() =~= out@);
    }
}

/// Takes one step of the program for `event`.
pub fn step(state: &mut RunState, event: Event, out: &mut MciWriteStream) -> (a: Action)
    ensures
        *final(state) == step_spec(*old(state), event).0,
        final(out)@ == old(out)@ + step_spec(*old(state), event).1,
        a == step_spec(*old(state), event).2,
{
    match (*state, event) {
        (RunState::Running, Event::Tick) => {
            assert(out@ + Seq::<char>::empty() =~= out@);
            Action::Continue
        },
        _ => {
            panic(state, out);
            Action::Sleep
        },
    }
}

/// Once halted, the program stays halted whatever happens: it writes nothing more and only
/// sleeps, so control never returns to it.
pub proof fn lemma_faulted_is_terminal(events: Seq<Event>)
    ensures
        run(RunState::Faulted, events) == (RunState::Faulted, Seq::<char>::empty(), sleeps(
            events.len(),
        )),
    decreases events.len(),
{
    if events.len() == 0 {
        assert(sleeps(0) =~= Seq::<Action>::empty());
    } else {
        lemma_faulted_is_terminal(events.skip(1));
        assert(seq![Action::Sleep] + sleeps((events.len() - 1) as nat) =~= sleeps(events.len()));
        assert(Seq::<char>::empty() + Seq::<char>::empty() =~= Seq::<char>::empty());
    }
}

/// A fault in a running program writes the fault line exactly once, and from then on, for any
/// number of further steps, nothing more is written and the program only sleeps.
pub proof fn lemma_fault_reported_once(events: Seq<Event>)
    ensures
        run(RunState::Running, seq![Event::Fault] + events) == (
            RunState::Faulted,
            fault_line(),
            sleeps(events.len() + 1),
        ),
{
    let all = seq![Event::Fault] + events;
    assert(all[0] == Event::Fault);
    assert(all.skip(1) =~= events);
    lemma_faulted_is_terminal(events);
    assert(fault_line() + Seq::<char>::empty() =~= fault_line());
    assert(seq![Action::Sleep] + sleeps(events.len()) =~= sleeps(events.len() + 1));
}

} // verus!
