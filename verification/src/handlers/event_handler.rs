//! What the bot decides when Discord reports an event. Each decision is a step
//! from a state and an event to the next state and the action to perform; the
//! caller performs the action and reports its outcome as the next event.

use vstd::prelude::*;

verus! {

/// The status the bot shows once its cache is ready ("Watching ...").
pub const WATCHING_STATUS: &'static str = "you >:)";

/// The handler's own state: whether the start-up work is still to be done.
pub struct SerenityHandler {
    pub run_loop: bool,
}

/// The handler state after a cache-ready event, and whether the start-up work
/// runs on it: it runs exactly when it had not run yet.
pub open spec fn cache_ready_next(run_loop: bool) -> (bool, bool) {
    (false, run_loop)
}

/// Whether the start-up work runs on each of `n` successive cache-ready events.
pub open spec fn cache_ready_runs(run_loop: bool, n: nat) -> Seq<bool>
    decreases n,
{
    if n == 0 {
        Seq::empty()
    } else {
        seq![cache_ready_next(run_loop).1] + cache_ready_runs(cache_ready_next(run_loop).0, (n - 1) as nat)
    }
}

impl SerenityHandler {
    /// A handler whose start-up work is still to be done.
    pub fn new() -> (h: SerenityHandler)
        ensures
            h.run_loop,
    {
        SerenityHandler { run_loop: true }
    }

    /// The cache is ready: returns whether the start-up work (pruning guilds,
    /// loading mute timers, starting the deletion loop, setting the status)
    /// runs now.
    pub fn cache_ready(&mut self) -> (run: bool)
        ensures
            (final(self).run_loop, run) == cache_ready_next(old(self).run_loop),
    {
        let run = self.run_loop;
        if run {
            self.run_loop = false;
        }
        run
    }

    /// What to tell a channel after a reaction there could not be dispatched:
    /// nothing when the dispatch succeeded.
    pub fn reaction_reply(dispatch_failed: bool) -> (reply: Option<String>)
        ensures
            dispatch_failed ==> (reply matches Some(text) && text@ == reaction_failure_text()),
            !dispatch_failed ==> reply is None,
    {
        if dispatch_failed {
            Some(
                String::from_str(
                    "Looks like there was an error when you reacted! \nPlease make sure you have the `Add Reactions` permission enabled for both the channel and bot role",
                ),
            )
        } else {
            None
        }
    }
}

/// The notice posted when a reaction could not be dispatched.
pub open spec fn reaction_failure_text() -> Seq<char> {
    "Looks like there was an error when you reacted! \nPlease make sure you have the `Add Reactions` permission enabled for both the channel and bot role"@
}

/// Start-up work runs on the first cache-ready event of a new handler and on
/// no later one.
pub proof fn lemma_startup_runs_once(n: nat)
    requires
        n >= 1,
    ensures
        cache_ready_runs(true, n) == seq![true] + Seq::new((n - 1) as nat, |i: int| false),
{
    lemma_no_startup_after_first(false, (n - 1) as nat);
}

/// Once the start-up work has run, no cache-ready event runs it again.
pub proof fn lemma_no_startup_after_first(run_loop: bool, n: nat)
    requires
        !run_loop,
    ensures
        cache_ready_runs(run_loop, n) == Seq::new(n, |i: int| false),
    decreases n,
{
    if n > 0 {
        lemma_no_startup_after_first(false, (n - 1) as nat);
    }
}

/// The start-up work that runs once the cache is ready.
#[derive(Clone, Copy, Debug, PartialEq, Eq, Structural)]
pub enum StartupStep {
    PruneGuilds,
    LoadMuteTimers,
    StartDeletionLoop,
    SetStatus,
}

/// What to do next during start-up.
#[derive(Clone, Copy, Debug, PartialEq, Eq, Structural)]
pub enum StartupAction {
    /// Perform this step.
    Run(StartupStep),
    /// This step failed and start-up cannot go on: stop with its error.
    Abort(StartupStep),
    /// All steps were performed.
    Finish,
}

/// The start-up steps, in the order they are performed: prune the guilds left
/// while the bot was away, load the mute timers, start the guild deletion
/// loop, then set the "Watching" status.
pub open spec fn startup_sequence() -> Seq<StartupStep> {
    seq![
        StartupStep::PruneGuilds,
        StartupStep::LoadMuteTimers,
        StartupStep::StartDeletionLoop,
        StartupStep::SetStatus,
    ]
}

/// Whether a failure of this step stops start-up. The deletion loop runs on
/// its own, so its failure stops only the loop; setting the status cannot fail.
pub open spec fn halts_on_failure(step: StartupStep) -> bool {
    step == StartupStep::PruneGuilds || step == StartupStep::LoadMuteTimers
}

/// The next start-up action once `completed` steps were performed and the
/// last of them `failed` or not.
pub open spec fn startup_next(completed: nat, failed: bool) -> StartupAction {
    if 0 < completed <= startup_sequence().len() && failed && halts_on_failure(
        startup_sequence()[completed - 1],
    ) {
        StartupAction::Abort(startup_sequence()[completed - 1])
    } else if completed < startup_sequence().len() {
        StartupAction::Run(startup_sequence()[completed as int])
    } else {
        StartupAction::Finish
    }
}

/// The start-up steps, in order.
pub fn startup_steps() -> (steps: Vec<StartupStep>)
    ensures
        steps@ == startup_sequence(),
{
    let mut steps: Vec<StartupStep> = Vec::new();
    steps.push(StartupStep::PruneGuilds);
    steps.push(StartupStep::LoadMuteTimers);
    steps.push(StartupStep::StartDeletionLoop);
    steps.push(StartupStep::SetStatus);
    assert(steps@ =~= startup_sequence());
    steps
}

/// The next start-up action once `completed` steps were performed and the last
/// of them `failed` or not.
pub fn startup_step(completed: usize, failed: bool) -> (action: StartupAction)
    ensures
        action == startup_next(completed as nat, failed),
{
    let steps = startup_steps();
    if completed > 0 && completed <= steps.len() && failed {
        let last = steps[completed - 1];
        let fatal = match last {
            StartupStep::PruneGuilds => true,
            StartupStep::LoadMuteTimers => true,
            StartupStep::StartDeletionLoop => false,
            StartupStep::SetStatus => false,
        };
        if fatal {
            return StartupAction::Abort(last);
        }
    }
    if completed < steps.len() {
        StartupAction::Run(steps[completed])
    } else {
        StartupAction::Finish
    }
}

/// The steps performed, and the action pending at the end, when the steps
/// performed report these outcomes (`true` for a failure), starting after
/// `completed` steps.
pub open spec fn startup_run(completed: nat, failed: bool, failures: Seq<bool>) -> (
    Seq<StartupStep>,
    StartupAction,
)
    decreases failures.len(),
{
    match startup_next(completed, failed) {
        StartupAction::Run(step) => if failures.len() == 0 {
            (Seq::empty(), StartupAction::Run(step))
        } else {
            let (rest, end) = startup_run(completed + 1, failures[0], failures.skip(1));
            (seq![step] + rest, end)
        },
        other => (Seq::empty(), other),
    }
}

/// Start-up performs its steps in order. When pruning the guilds or loading
/// the mute timers fails, nothing after it is performed and start-up aborts
/// with that step; otherwise all four steps are performed and start-up
/// finishes, whatever the deletion loop reports.
pub proof fn lemma_startup_order(failures: Seq<bool>)
    requires
        failures.len() == 4,
    ensures
        failures[0] ==> startup_run(0, false, failures) == (
            seq![StartupStep::PruneGuilds],
            StartupAction::Abort(StartupStep::PruneGuilds),
        ),
        !failures[0] && failures[1] ==> startup_run(0, false, failures) == (
            seq![StartupStep::PruneGuilds, StartupStep::LoadMuteTimers],
            StartupAction::Abort(StartupStep::LoadMuteTimers),
        ),
        !failures[0] && !failures[1] ==> startup_run(0, false, failures) == (
            startup_sequence(),
            StartupAction::Finish,
        ),
{
    reveal_with_fuel(startup_run, 6);
    let f1 = failures.skip(1);
    let f2 = f1.skip(1);
    let f3 = f2.skip(1);
    assert(f1[0] == failures[1]);
    assert(f2[0] == failures[2]);
    assert(f3[0] == failures[3]);
    assert(f3.skip(1).len() == 0);
    assert(startup_run(0, false, failures).0 =~= (if failures[0] {
        seq![StartupStep::PruneGuilds]
    } else if failures[1] {
        seq![StartupStep::PruneGuilds, StartupStep::LoadMuteTimers]
    } else {
        startup_sequence()
    }));
}

} // verus!
