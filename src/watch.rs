use vstd::prelude::*;

verus! {

/// How long the watch sleeps after a drain, in milliseconds.
pub const SLEEP_MILLIS: u64 = 50;

/// Where the watch loop stands.
#[derive(Debug, Clone, Copy, PartialEq, Eq, Structural)]
pub enum Phase {
    /// At the top of a cycle: the shutdown flag is read next.
    CheckFlag,
    /// Draining queued events: the server is polled next.
    Draining,
    /// Stopped; the loop has returned.
    Stopped,
}

/// What one non-blocking poll for an event gave.
#[derive(Debug, Clone, Copy, PartialEq, Eq, Structural)]
pub enum PollOutcome {
    /// An event was queued; it is handed to the dispatcher.
    Event,
    /// No event was queued.
    Empty,
    /// Reading from the server failed; treated as no event.
    Failed,
}

/// What the loop is told.
#[derive(Debug, Clone, Copy, PartialEq, Eq, Structural)]
pub enum Input {
    /// The shutdown flag holds this value ("keep running").
    Flag(bool),
    /// A poll gave this.
    Polled(PollOutcome),
}

/// What the loop asks for next.
#[derive(Debug, Clone, Copy, PartialEq, Eq, Structural)]
pub enum Action {
    /// Poll for the next event.
    Poll,
    /// Dispatch the event just polled, then poll again.
    Dispatch,
    /// Sleep for the interval, then read the shutdown flag.
    Sleep,
    /// Return from the loop.
    Exit,
}

/// Whether the loop, in this phase, takes this input.
pub open spec fn accepts(phase: Phase, input: Input) -> bool {
    match phase {
        Phase::CheckFlag => input is Flag,
        Phase::Draining => input is Polled,
        Phase::Stopped => false,
    }
}

/// The phase and the action that follow an accepted input.
pub open spec fn next(input: Input) -> (Phase, Action) {
    match input {
        Input::Flag(true) => (Phase::Draining, Action::Poll),
        Input::Flag(false) => (Phase::Stopped, Action::Exit),
        Input::Polled(PollOutcome::Event) => (Phase::Draining, Action::Dispatch),
        Input::Polled(_) => (Phase::CheckFlag, Action::Sleep),
    }
}

/// The phase reached and the actions asked for while the loop takes a run of
/// inputs, up to the first one that it does not accept.
pub open spec fn run(phase: Phase, inputs: Seq<Input>) -> (Phase, Seq<Action>)
    decreases inputs.len(),
{
    if inputs.len() == 0 || !accepts(phase, inputs[0]) {
        (phase, Seq::empty())
    } else {
        let (p, a) = next(inputs[0]);
        let (q, rest) = run(p, inputs.drop_first());
        (q, seq![a] + rest)
    }
}

/// `n` polls that each found an event.
pub open spec fn queued_events(n: nat) -> Seq<Input> {
    Seq::new(n, |i: int| Input::Polled(PollOutcome::Event))
}

/// `n` dispatches.
pub open spec fn dispatches(n: nat) -> Seq<Action> {
    Seq::new(n, |i: int| Action::Dispatch)
}

/// The watch loop's state.
#[derive(Debug)]
pub struct WatchLoop {
    pub phase: Phase,
}

impl WatchLoop {
    /// A loop at the top of its first cycle.
    pub fn new() -> (r: WatchLoop)
        ensures
            r.phase == Phase::CheckFlag,
    {
        WatchLoop { phase: Phase::CheckFlag }
    }

    /// Whether the loop has returned.
    pub fn is_stopped(&self) -> (r: bool)
        ensures
            r == (self.phase is Stopped),
    {
        match self.phase {
            Phase::Stopped => true,
            _ => false,
        }
    }

    /// Whether the loop, where it stands, takes this input.
    pub fn accepts(&self, input: &Input) -> (r: bool)
        ensures
            r == accepts(self.phase, *input),
    {
        match (&self.phase, input) {
            (Phase::CheckFlag, Input::Flag(_)) => true,
            (Phase::Draining, Input::Polled(_)) => true,
            _ => false,
        }
    }

    /// Takes one input and says what to do next.
    pub fn step(&mut self, input: Input) -> (r: Action)
        requires
            accepts(old(self).phase, input),
        ensures
            (final(self).phase, r) == next(input),
    {
        match input {
            Input::Flag(keep_running) => {
                if keep_running {
                    self.phase = Phase::Draining;
                    Action::Poll
                } else {
                    self.phase = Phase::Stopped;
                    Action::Exit
                }
            },
            Input::Polled(PollOutcome::Event) => {
                self.phase = Phase::Draining;
                Action::Dispatch
            },
            Input::Polled(_) => {
                self.phase = Phase::CheckFlag;
                Action::Sleep
            },
        }
    }
}

/// While draining, each queued event is dispatched in turn, and the loop is
/// still draining afterwards.
pub proof fn lemma_drain_prefix(n: nat, tail: Seq<Input>)
    ensures
        run(Phase::Draining, queued_events(n) + tail) == (
        run(Phase::Draining, tail).0,
        dispatches(n) + run(Phase::Draining, tail).1,
        ),
    decreases n,
{
    let ins = queued_events(n) + tail;
    if n == 0 {
        assert(queued_events(0) + tail =~= tail);
        assert(dispatches(0) + run(Phase::Draining, tail).1 =~= run(Phase::Draining, tail).1);
    } else {
        lemma_drain_prefix((n - 1) as nat, tail);
        assert(ins[0] == Input::Polled(PollOutcome::Event));
        assert(ins.drop_first() =~= queued_events((n - 1) as nat) + tail);
        assert(seq![Action::Dispatch] + (dispatches((n - 1) as nat) + run(Phase::Draining, tail).1)
            =~= dispatches(n) + run(Phase::Draining, tail).1);
    }
}

/// Draining is exhaustive: with `n` events queued, all `n` are dispatched
/// before the loop sleeps, and it then goes back to reading the flag.
pub proof fn lemma_drain_exhaustive(n: nat)
    ensures
        run(Phase::Draining, queued_events(n).push(Input::Polled(PollOutcome::Empty))) == (
        Phase::CheckFlag,
        dispatches(n).push(Action::Sleep),
        ),
{
    let tail = seq![Input::Polled(PollOutcome::Empty)];
    lemma_drain_prefix(n, tail);
    assert(queued_events(n).push(Input::Polled(PollOutcome::Empty)) =~= queued_events(n) + tail);
    assert(tail.drop_first() =~= Seq::<Input>::empty());
    assert(run(Phase::Draining, tail) == (Phase::CheckFlag, seq![Action::Sleep]) ) by {
        assert(run(Phase::CheckFlag, tail.drop_first()) == (Phase::CheckFlag, Seq::<Action>::empty()));
        assert(seq![Action::Sleep] + Seq::<Action>::empty() =~= seq![Action::Sleep]);
    }
    assert(dispatches(n) + seq![Action::Sleep] =~= dispatches(n).push(Action::Sleep));
}

/// Shutdown is honoured within one cycle: once the flag reads false, the loop
/// finishes the drain under way, sleeps once and returns, however many events
/// that drain still finds; a stopped loop takes no further input.
pub proof fn lemma_shutdown_within_one_cycle(n: nat, input: Input)
    ensures
        run(
            Phase::Draining,
            queued_events(n).push(Input::Polled(PollOutcome::Empty)).push(Input::Flag(false)),
        ) == (Phase::Stopped, dispatches(n).push(Action::Sleep).push(Action::Exit)),
        run(Phase::CheckFlag, seq![Input::Flag(false)]) == (Phase::Stopped, seq![Action::Exit]),
        !accepts(Phase::Stopped, input),
{
    let tail = seq![Input::Polled(PollOutcome::Empty), Input::Flag(false)];
    lemma_drain_prefix(n, tail);
    assert(queued_events(n).push(Input::Polled(PollOutcome::Empty)).push(Input::Flag(false))
        =~= queued_events(n) + tail);
    let last = seq![Input::Flag(false)];
    assert(tail.drop_first() =~= last);
    assert(last.drop_first() =~= Seq::<Input>::empty());
    assert(run(Phase::Stopped, Seq::<Input>::empty()) == (Phase::Stopped, Seq::<Action>::empty()));
    assert(run(Phase::CheckFlag, last) == (Phase::Stopped, seq![Action::Exit])) by {
        assert(seq![Action::Exit] + Seq::<Action>::empty() =~= seq![Action::Exit]);
    }
    assert(run(Phase::Draining, tail) == (Phase::Stopped, seq![Action::Sleep, Action::Exit])) by {
        assert(seq![Action::Sleep] + seq![Action::Exit] =~= seq![Action::Sleep, Action::Exit]);
    }
    assert(dispatches(n) + seq![Action::Sleep, Action::Exit] =~= dispatches(n).push(
        Action::Sleep,
    ).push(Action::Exit));
}

} // verus!
