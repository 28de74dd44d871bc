//! The scheduler: when passes run, when the runner sleeps, when it stops.
//!
//! The program around the library performs each action and reports back the
//! event that ends it: a sleep ends with `SleepElapsed`, a pass with
//! `PassFinished`.

use vstd::prelude::*;

verus! {

/// Seconds to wait before the first pass in loop mode.
pub const GRACE_SECS: u64 = 5;

/// Seconds to wait after each pass in loop mode, from the end of one pass
/// to the start of the next.
pub const DELAY_SECS: u64 = 5;

/// Where the scheduler stands.
#[derive(Debug, Clone, Copy, PartialEq, Eq, Structural)]
pub enum Phase {
    /// Not started yet.
    Idle,
    /// A sleep was asked for and has not ended.
    Waiting,
    /// A pass was asked for and has not ended.
    Running,
    /// The runner is to exit; nothing more happens.
    Done,
}

/// What ends the current action, or starts the scheduler.
#[derive(Debug, Clone, Copy, PartialEq, Eq, Structural)]
pub enum Event {
    Start,
    SleepElapsed,
    PassFinished { alerted: bool },
}

/// What the runner is to do next.
#[derive(Debug, Clone, Copy, PartialEq, Eq, Structural)]
pub enum Action {
    Sleep { secs: u64 },
    RunPass,
    /// Leave the process with this exit code: 1 after a pass that alerted,
    /// 0 after a clean one, so that automation can tell them apart.
    Exit { code: i32 },
}

/// The scheduler of the runner.
#[derive(Debug, Clone, Copy, PartialEq, Eq, Structural)]
pub struct Scheduler {
    /// Run passes forever, with a delay between them, rather than once.
    pub loop_mode: bool,
    pub phase: Phase,
}

/// The next scheduler and action for `e`; an event that does not end the
/// current action changes nothing and asks for nothing.
pub open spec fn transition(s: Scheduler, e: Event) -> (Scheduler, Option<Action>) {
    match (s.phase, e) {
        (Phase::Idle, Event::Start) => if s.loop_mode {
            (Scheduler { phase: Phase::Waiting, ..s }, Some(Action::Sleep { secs: GRACE_SECS }))
        } else {
            (Scheduler { phase: Phase::Running, ..s }, Some(Action::RunPass))
        },
        (Phase::Waiting, Event::SleepElapsed) => (
            Scheduler { phase: Phase::Running, ..s },
            Some(Action::RunPass),
        ),
        (Phase::Running, Event::PassFinished { alerted }) => if s.loop_mode {
            (Scheduler { phase: Phase::Waiting, ..s }, Some(Action::Sleep { secs: DELAY_SECS }))
        } else {
            (
                Scheduler { phase: Phase::Done, ..s },
                Some(Action::Exit { code: if alerted { 1i32 } else { 0i32 } }),
            )
        },
        _ => (s, None),
    }
}

/// The scheduler and the actions asked for after feeding `events` to `s`.
pub open spec fn replay(s: Scheduler, events: Seq<Event>) -> (Scheduler, Seq<Action>)
    decreases events.len(),
{
    if events.len() == 0 {
        (s, Seq::empty())
    } else {
        let (s1, acts) = replay(s, events.drop_last());
        let (s2, a) = transition(s1, events.last());
        match a {
            Some(x) => (s2, acts.push(x)),
            None => (s2, acts),
        }
    }
}

impl Scheduler {
    /// A scheduler that has not started.
    pub fn new(loop_mode: bool) -> (r: Scheduler)
        ensures
            r.loop_mode == loop_mode,
            r.phase is Idle,
    {
        Scheduler { loop_mode, phase: Phase::Idle }
    }

    /// Takes the event that ended the last action and gives the next one.
    pub fn on_event(&mut self, e: Event) -> (r: Option<Action>)
        ensures
            (*final(self), r) == transition(*old(self), e),
    {
        let loop_mode = self.loop_mode;
        match (&self.phase, e) {
            (Phase::Idle, Event::Start) => {
                if loop_mode {
                    self.phase = Phase::Waiting;
                    Some(Action::Sleep { secs: GRACE_SECS })
                } else {
                    self.phase = Phase::Running;
                    Some(Action::RunPass)
                }
            },
            (Phase::Waiting, Event::SleepElapsed) => {
                self.phase = Phase::Running;
                Some(Action::RunPass)
            },
            (Phase::Running, Event::PassFinished { alerted }) => {
                if loop_mode {
                    self.phase = Phase::Waiting;
                    Some(Action::Sleep { secs: DELAY_SECS })
                } else {
                    self.phase = Phase::Done;
                    let code: i32 = if alerted { 1 } else { 0 };
                    Some(Action::Exit { code })
                }
            },
            _ => None,
        }
    }
}

/// In loop mode the actions alternate sleeps and passes, starting with the
/// grace sleep: no pass starts before the grace delay has elapsed, each
/// later pass follows a sleep of the fixed delay begun when the previous
/// pass ended, and the runner never exits.
pub proof fn loop_mode_spacing(events: Seq<Event>)
    ensures
        ({
            let acts = replay(Scheduler { loop_mode: true, phase: Phase::Idle }, events).1;
            &&& acts.len() > 0 ==> acts[0] == (Action::Sleep { secs: GRACE_SECS })
            &&& forall|i: int|
                0 < i < acts.len() && i % 2 == 0 ==> #[trigger] acts[i] == (Action::Sleep {
                    secs: DELAY_SECS,
                })
            &&& forall|i: int| 0 <= i < acts.len() && i % 2 == 1 ==> #[trigger] acts[i] is RunPass
        }),
    decreases events.len(),
{
    loop_mode_phase(events);
    if events.len() > 0 {
        loop_mode_spacing(events.drop_last());
    }
}

/// In loop mode the phase tells how many actions were asked for: none
/// before the start, an odd number while a sleep runs, an even number while
/// a pass runs.
proof fn loop_mode_phase(events: Seq<Event>)
    ensures
        ({
            let (s, acts) = replay(Scheduler { loop_mode: true, phase: Phase::Idle }, events);
            &&& s.loop_mode
            &&& s.phase is Idle <==> acts.len() == 0
            &&& s.phase is Waiting ==> acts.len() % 2 == 1
            &&& s.phase is Running ==> acts.len() > 0 && acts.len() % 2 == 0
            &&& !(s.phase is Done)
        }),
    decreases events.len(),
{
    if events.len() > 0 {
        loop_mode_phase(events.drop_last());
    }
}

/// In single-pass mode the runner runs exactly one pass and then exits,
/// with code 1 when that pass alerted and 0 when it did not.
pub proof fn single_pass_runs_once(events: Seq<Event>)
    ensures
        ({
            let (s, acts) = replay(Scheduler { loop_mode: false, phase: Phase::Idle }, events);
            &&& acts.len() <= 2
            &&& acts.len() > 0 ==> acts[0] is RunPass
            &&& acts.len() == 2 ==> acts[1] is Exit
            &&& s.phase is Done <==> acts.len() == 2
        }),
{
    single_pass_phase(events);
}

/// In single-pass mode the phase tells how many actions were asked for.
proof fn single_pass_phase(events: Seq<Event>)
    ensures
        ({
            let (s, acts) = replay(Scheduler { loop_mode: false, phase: Phase::Idle }, events);
            &&& !s.loop_mode
            &&& !(s.phase is Waiting)
            &&& s.phase is Idle <==> acts.len() == 0
            &&& s.phase is Running <==> acts.len() == 1
            &&& s.phase is Done <==> acts.len() == 2
            &&& acts.len() > 0 ==> acts[0] is RunPass
            &&& acts.len() == 2 ==> acts[1] is Exit
        }),
    decreases events.len(),
{
    if events.len() > 0 {
        single_pass_phase(events.drop_last());
    }
}

} // verus!
