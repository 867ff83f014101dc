//! The owners' `restart` and `stop` commands: what the bot does, in order,
//! when one of them is run.

use vstd::prelude::*;

verus! {

/// A file to write before shutting down.
pub struct MarkerFile {
    pub path: String,
    pub contents: String,
}

/// The steps of an owner command, performed in this order: write the marker
/// file if there is one, post the reply, then shut all shards down if asked.
pub struct ShutdownPlan {
    pub marker_file: Option<MarkerFile>,
    pub reply: String,
    pub shutdown: bool,
}

/// One step of an owner command.
#[derive(Clone, Copy, Debug, PartialEq, Eq, Structural)]
pub enum OwnerStep {
    WriteMarker,
    Reply,
    Shutdown,
}

/// What to do next while carrying out an owner command.
#[derive(Clone, Copy, Debug, PartialEq, Eq, Structural)]
pub enum OwnerAction {
    /// Perform this step.
    Run(OwnerStep),
    /// This step failed: the command ends with its error, and no later step runs.
    Fail(OwnerStep),
    /// Every step was performed.
    Finish,
}

/// The steps of a plan, in the order they are performed.
pub open spec fn plan_steps(plan: &ShutdownPlan) -> Seq<OwnerStep> {
    (if plan.marker_file is Some {
        seq![OwnerStep::WriteMarker]
    } else {
        Seq::empty()
    }) + seq![OwnerStep::Reply] + (if plan.shutdown {
        seq![OwnerStep::Shutdown]
    } else {
        Seq::empty()
    })
}

/// The next action once `completed` of `steps` were performed and the last of
/// them `failed` or not: any failure ends the command.
pub open spec fn owner_next(steps: Seq<OwnerStep>, completed: nat, failed: bool) -> OwnerAction {
    if 0 < completed <= steps.len() && failed {
        OwnerAction::Fail(steps[completed - 1])
    } else if completed < steps.len() {
        OwnerAction::Run(steps[completed as int])
    } else {
        OwnerAction::Finish
    }
}

/// The steps performed, and the action pending at the end, when the steps
/// performed report these outcomes (`true` for a failure), starting after
/// `completed` steps.
pub open spec fn owner_run(steps: Seq<OwnerStep>, completed: nat, failed: bool, failures: Seq<bool>) -> (
    Seq<OwnerStep>,
    OwnerAction,
)
    decreases failures.len(),
{
    match owner_next(steps, completed, failed) {
        OwnerAction::Run(step) => if failures.len() == 0 {
            (Seq::empty(), OwnerAction::Run(step))
        } else {
            let (rest, end) = owner_run(steps, completed + 1, failures[0], failures.skip(1));
            (seq![step] + rest, end)
        },
        other => (Seq::empty(), other),
    }
}

impl ShutdownPlan {
    /// The steps of this plan, in the order they are performed.
    pub fn steps(&self) -> (steps: Vec<OwnerStep>)
        ensures
            steps@ == plan_steps(self),
    {
        let mut steps: Vec<OwnerStep> = Vec::new();
        if self.marker_file.is_some() {
            steps.push(OwnerStep::WriteMarker);
        }
        steps.push(OwnerStep::Reply);
        if self.shutdown {
            steps.push(OwnerStep::Shutdown);
        }
        assert(steps@ =~= plan_steps(self));
        steps
    }

    /// The next action once `completed` steps of this plan were performed and
    /// the last of them `failed` or not.
    pub fn next_action(&self, completed: usize, failed: bool) -> (action: OwnerAction)
        ensures
            action == owner_next(plan_steps(self), completed as nat, failed),
    {
        let steps = self.steps();
        if completed > 0 && completed <= steps.len() && failed {
            OwnerAction::Fail(steps[completed - 1])
        } else if completed < steps.len() {
            OwnerAction::Run(steps[completed])
        } else {
            OwnerAction::Finish
        }
    }
}

/// An owner command performs its steps in order up to the first one that
/// fails, ends with that step's failure, and performs nothing after it.
pub proof fn lemma_owner_failure_stops(steps: Seq<OwnerStep>, failures: Seq<bool>, first: nat)
    requires
        failures.len() == steps.len(),
        first < steps.len(),
        failures[first as int],
        forall|i: int| 0 <= i < first ==> !failures[i],
    ensures
        owner_run(steps, 0, false, failures) == (
            steps.take((first + 1) as int),
            OwnerAction::Fail(steps[first as int]),
        ),
{
    assert(failures.skip(0) =~= failures);
    lemma_owner_run_from(steps, failures, 0, false, first);
    assert(steps.subrange(0, (first + 1) as int) =~= steps.take((first + 1) as int));
}

/// An owner command whose steps all succeed performs every step, in order.
pub proof fn lemma_owner_success(steps: Seq<OwnerStep>, failures: Seq<bool>)
    requires
        failures.len() == steps.len(),
        forall|i: int| 0 <= i < failures.len() ==> !failures[i],
    ensures
        owner_run(steps, 0, false, failures) == (steps, OwnerAction::Finish),
{
    assert(failures.skip(0) =~= failures);
    lemma_owner_run_all(steps, failures, 0, false);
    assert(steps.subrange(0, steps.len() as int) =~= steps);
}

proof fn lemma_owner_run_from(
    steps: Seq<OwnerStep>,
    failures: Seq<bool>,
    completed: nat,
    failed: bool,
    first: nat,
)
    requires
        failures.len() == steps.len(),
        completed <= first < steps.len(),
        failures[first as int],
        forall|i: int| 0 <= i < first ==> !failures[i],
        completed > 0 ==> failed == failures[completed - 1],
        completed == 0 ==> !failed,
    ensures
        owner_run(steps, completed, failed, failures.skip(completed as int)) == (
            steps.subrange(completed as int, (first + 1) as int),
            OwnerAction::Fail(steps[first as int]),
        ),
    decreases steps.len() - completed,
{
    let rest = failures.skip(completed as int);
    assert(rest.len() > 0);
    assert(rest.skip(1) =~= failures.skip((completed + 1) as int));
    if completed == first {
        assert(owner_run(steps, completed + 1, rest[0], rest.skip(1)) == (
            Seq::<OwnerStep>::empty(),
            OwnerAction::Fail(steps[first as int]),
        ));
        assert(steps.subrange(completed as int, (first + 1) as int) =~= seq![steps[completed as int]]);
    } else {
        lemma_owner_run_from(steps, failures, completed + 1, failures[completed as int], first);
        assert(steps.subrange(completed as int, (first + 1) as int) =~= seq![steps[completed as int]]
            + steps.subrange((completed + 1) as int, (first + 1) as int));
    }
}

proof fn lemma_owner_run_all(steps: Seq<OwnerStep>, failures: Seq<bool>, completed: nat, failed: bool)
    requires
        failures.len() == steps.len(),
        completed <= steps.len(),
        forall|i: int| 0 <= i < failures.len() ==> !failures[i],
        !failed,
    ensures
        owner_run(steps, completed, failed, failures.skip(completed as int)) == (
            steps.subrange(completed as int, steps.len() as int),
            OwnerAction::Finish,
        ),
    decreases steps.len() - completed,
{
    if completed < steps.len() {
        let rest = failures.skip(completed as int);
        assert(rest.skip(1) =~= failures.skip((completed + 1) as int));
        lemma_owner_run_all(steps, failures, completed + 1, failures[completed as int]);
        assert(steps.subrange(completed as int, steps.len() as int) =~= seq![steps[completed as int]]
            + steps.subrange((completed + 1) as int, steps.len() as int));
    } else {
        assert(steps.subrange(completed as int, steps.len() as int) =~= Seq::<OwnerStep>::empty());
    }
}

/// The reply when the shard manager is not available.
pub open spec fn no_manager_reply() -> Seq<char> {
    "Failed to get the shard manager :sad:"@
}

/// The plan of `restart`: say goodbye for now and shut the shards down, so
/// that the supervisor starts the bot again.
pub fn restart(has_shard_manager: bool) -> (plan: ShutdownPlan)
    ensures
        plan.marker_file is None,
        plan.shutdown == has_shard_manager,
        plan_steps(&plan) == (if has_shard_manager {
            seq![OwnerStep::Reply, OwnerStep::Shutdown]
        } else {
            seq![OwnerStep::Reply]
        }),
        plan.reply@ == (if has_shard_manager { "Bye! (for now)"@ } else { no_manager_reply() }),
{
    if has_shard_manager {
        ShutdownPlan { marker_file: None, reply: String::from_str("Bye! (for now)"), shutdown: true }
    } else {
        ShutdownPlan {
            marker_file: None,
            reply: String::from_str("Failed to get the shard manager :sad:"),
            shutdown: false,
        }
    }
}

/// The plan of `stop`: leave a `norestart` file that keeps the bot from being
/// started again, say goodbye and shut the shards down.
pub fn stop(has_shard_manager: bool) -> (plan: ShutdownPlan)
    ensures
        plan.shutdown == has_shard_manager,
        has_shard_manager ==> (plan.marker_file matches Some(f) && f.path@ == "norestart"@
            && f.contents@ == "This file prevents the bot from restarting."@),
        !has_shard_manager ==> plan.marker_file is None,
        plan_steps(&plan) == (if has_shard_manager {
            seq![OwnerStep::WriteMarker, OwnerStep::Reply, OwnerStep::Shutdown]
        } else {
            seq![OwnerStep::Reply]
        }),
        plan.reply@ == (if has_shard_manager { "Bye!"@ } else { no_manager_reply() }),
{
    if has_shard_manager {
        ShutdownPlan {
            marker_file: Some(
                MarkerFile {
                    path: String::from_str("norestart"),
                    contents: String::from_str("This file prevents the bot from restarting."),
                },
            ),
            reply: String::from_str("Bye!"),
            shutdown: true,
        }
    } else {
        ShutdownPlan {
            marker_file: None,
            reply: String::from_str("Failed to get the shard manager :sad:"),
            shutdown: false,
        }
    }
}

/// A plan with a marker file and a shutdown, as `stop` makes when the shard
/// manager is at hand: when the marker file cannot be written, the command ends
/// with that error; it neither replies nor shuts down.
pub proof fn lemma_stop_write_failure(plan: ShutdownPlan, reply_fails: bool, shutdown_fails: bool)
    requires
        plan.marker_file is Some,
        plan.shutdown,
    ensures
        owner_run(plan_steps(&plan), 0, false, seq![true, reply_fails, shutdown_fails]) == (
            seq![OwnerStep::WriteMarker],
            OwnerAction::Fail(OwnerStep::WriteMarker),
        ),
{
    let steps = plan_steps(&plan);
    assert(steps =~= seq![OwnerStep::WriteMarker, OwnerStep::Reply, OwnerStep::Shutdown]);
    lemma_owner_failure_stops(steps, seq![true, reply_fails, shutdown_fails], 0);
    assert(steps.take(1) =~= seq![OwnerStep::WriteMarker]);
}

/// A plan with a marker file and a shutdown, as `stop` makes when the shard
/// manager is at hand: when the reply fails, the command ends with that error
/// after writing the file, and does not shut down.
pub proof fn lemma_stop_reply_failure(plan: ShutdownPlan, shutdown_fails: bool)
    requires
        plan.marker_file is Some,
        plan.shutdown,
    ensures
        owner_run(plan_steps(&plan), 0, false, seq![false, true, shutdown_fails]) == (
            seq![OwnerStep::WriteMarker, OwnerStep::Reply],
            OwnerAction::Fail(OwnerStep::Reply),
        ),
{
    let steps = plan_steps(&plan);
    assert(steps =~= seq![OwnerStep::WriteMarker, OwnerStep::Reply, OwnerStep::Shutdown]);
    lemma_owner_failure_stops(steps, seq![false, true, shutdown_fails], 1);
    assert(steps.take(2) =~= seq![OwnerStep::WriteMarker, OwnerStep::Reply]);
}

/// A plan without a marker file and with a shutdown, as `restart` makes when
/// the shard manager is at hand: when the reply fails, the command ends with
/// that error and does not shut down.
pub proof fn lemma_restart_reply_failure(plan: ShutdownPlan, shutdown_fails: bool)
    requires
        plan.marker_file is None,
        plan.shutdown,
    ensures
        owner_run(plan_steps(&plan), 0, false, seq![true, shutdown_fails]) == (
            seq![OwnerStep::Reply],
            OwnerAction::Fail(OwnerStep::Reply),
        ),
{
    let steps = plan_steps(&plan);
    assert(steps =~= seq![OwnerStep::Reply, OwnerStep::Shutdown]);
    lemma_owner_failure_stops(steps, seq![true, shutdown_fails], 0);
    assert(steps.take(1) =~= seq![OwnerStep::Reply]);
}

} // verus!
