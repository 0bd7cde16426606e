//! The execution driver: one record per request to run a script, taken
//! through a scheduling pass until the script has run successfully once.
//!
//! A pass over a runner is made in two steps. [`RunScript::plan`] decides
//! what the pass asks for; where that is a run, the caller runs the chunk
//! in a virtual machine of its own and hands what the machine returned to
//! [`RunScript::finish`], which records it.

use crate::asset::{FusabiScript, ScriptModel};
use crate::codec::{decode_chunk, decoded, has_container_header};
use crate::vm::{describe_value, describe_vm_error, vm_error_text};
use fusabi_vm::{Chunk, Value, VmError};
use std::collections::HashMap;
use vstd::prelude::*;

verus! {

broadcast use vstd::std_specs::hash::group_hash_axioms;

/// A request to run the script behind `handle`, and whether that has
/// happened yet.
#[derive(Debug, Clone, Copy, PartialEq, Eq)]
pub struct RunScript {
    /// The handle of the script asset to run.
    pub handle: u64,
    /// Set once the script has run to completion without error.
    pub executed: bool,
}

/// Where a runner stands between passes.
#[derive(Debug, Clone, Copy, PartialEq, Eq)]
pub enum RunnerState {
    /// The script has not run successfully yet: its asset is still
    /// loading, does not decode, or its last run failed.
    Pending,
    /// The script ran successfully. Nothing more happens to the runner.
    Succeeded,
}

/// What one scheduling pass did with one runner.
#[derive(Debug, Clone, PartialEq, Eq)]
pub enum PassOutcome {
    /// The runner had succeeded before; it was left alone.
    Skipped,
    /// The asset behind the handle is not there yet.
    Unresolved,
    /// The asset's bytecode does not decode; the decoder's message.
    DecodeFailed(String),
    /// The script ran; the rendering of the value it returned.
    Succeeded(String),
    /// The run stopped with a runtime error; its rendering.
    Failed(String),
}

/// A pass outcome with its text as a sequence of characters.
pub enum Outcome {
    Skipped,
    Unresolved,
    DecodeFailed(Seq<char>),
    Succeeded(Seq<char>),
    Failed(Seq<char>),
}

impl View for PassOutcome {
    type V = Outcome;

    open spec fn view(&self) -> Outcome {
        match self {
            PassOutcome::Skipped => Outcome::Skipped,
            PassOutcome::Unresolved => Outcome::Unresolved,
            PassOutcome::DecodeFailed(message) => Outcome::DecodeFailed(message@),
            PassOutcome::Succeeded(value) => Outcome::Succeeded(value@),
            PassOutcome::Failed(message) => Outcome::Failed(message@),
        }
    }
}

impl RunScript {
    /// A runner for the script behind `handle`, not yet executed.
    pub fn new(handle: u64) -> (runner: Self)
        ensures
            runner.handle == handle,
            !runner.executed,
    {
        RunScript { handle, executed: false }
    }

    /// The runner's state: succeeded once it is executed, pending until
    /// then.
    pub open spec fn state_of(self) -> RunnerState {
        if self.executed {
            RunnerState::Succeeded
        } else {
            RunnerState::Pending
        }
    }

    /// The runner's state.
    pub fn state(&self) -> (state: RunnerState)
        ensures
            state == self.state_of(),
    {
        if self.executed {
            RunnerState::Succeeded
        } else {
            RunnerState::Pending
        }
    }

    /// The runner after a pass that ended in `outcome`: a success marks it
    /// executed, every other outcome leaves it as it was.
    pub open spec fn settled(self, outcome: Outcome) -> RunScript {
        RunScript { handle: self.handle, executed: self.executed || outcome is Succeeded }
    }

    /// Records the result of a run: a value marks the runner executed, an
    /// error leaves it pending, so that a later pass runs the script again.
    pub fn record(&mut self, result: Result<String, String>) -> (outcome: PassOutcome)
        ensures
            match result {
                Ok(value) => outcome@ == Outcome::Succeeded(value@),
                Err(message) => outcome@ == Outcome::Failed(message@),
            },
            *final(self) == old(self).settled(outcome@),
    {
        match result {
            Ok(value) => {
                self.executed = true;
                PassOutcome::Succeeded(value)
            },
            Err(message) => PassOutcome::Failed(message),
        }
    }
}

/// What a pass asks for one runner.
#[derive(Debug)]
pub enum PassStep {
    /// Nothing is to be run: the pass is over for this runner, with this
    /// outcome.
    Done(PassOutcome),
    /// The script is to be run, in an execution context of its own: this
    /// is its chunk.
    Run(Chunk),
}

/// A pass step with its outcome taken by its view.
pub enum Step {
    Done(Outcome),
    Run(Chunk),
}

impl View for PassStep {
    type V = Step;

    open spec fn view(&self) -> Step {
        match self {
            PassStep::Done(outcome) => Step::Done(outcome@),
            PassStep::Run(chunk) => Step::Run(*chunk),
        }
    }
}

/// The bytecode of an asset that may not be there.
pub open spec fn bytecode_of(script: Option<ScriptModel>) -> Option<Seq<u8>> {
    match script {
        Some(asset) => Some(asset.bytecode),
        None => None,
    }
}

/// What a pass asks for `runner` when the asset behind its handle holds
/// `bytecode`, or is not there.
///
/// An executed runner is skipped. A pending one stays unresolved without
/// its asset; with bytecode that does not decode, the pass is over with
/// the decoder's message; otherwise the decoded chunk is to be run.
pub open spec fn planned_for(runner: RunScript, bytecode: Option<Seq<u8>>) -> Step {
    if runner.executed {
        Step::Done(Outcome::Skipped)
    } else {
        match bytecode {
            None => Step::Done(Outcome::Unresolved),
            Some(bytes) => match decoded(bytes) {
                Err(message) => Step::Done(Outcome::DecodeFailed(message)),
                Ok(chunk) => Step::Run(chunk),
            },
        }
    }
}

/// What a pass asks for `runner` when its handle resolves to `script`: of
/// the asset, only the bytecode counts.
pub open spec fn planned(runner: RunScript, script: Option<ScriptModel>) -> Step {
    planned_for(runner, bytecode_of(script))
}

/// Whether `step` is what a pass asks for `runner` and `bytecode`. Only
/// bytecode that opens with the container header is ever to be run.
pub open spec fn step_fits_bytecode(runner: RunScript, bytecode: Option<Seq<u8>>, step: Step) -> bool {
    &&& step == planned_for(runner, bytecode)
    &&& step is Run ==> bytecode is Some && has_container_header(bytecode->0)
}

/// Whether `step` is what a pass asks for `runner` and `script`.
pub open spec fn step_fits(runner: RunScript, script: Option<ScriptModel>, step: Step) -> bool {
    step_fits_bytecode(runner, bytecode_of(script), step)
}

/// Whether `outcome` records the result of a run: a value is a success, a
/// runtime error is a failure with the rendering of that error.
pub open spec fn run_allows(result: Result<Value, VmError>, outcome: Outcome) -> bool {
    match result {
        Ok(_) => outcome is Succeeded,
        Err(error) => outcome == Outcome::Failed(vm_error_text(error)),
    }
}

/// The outcomes a pass may have for `runner` when its handle resolves to
/// `script`.
///
/// Where nothing is to be run, the outcome is the one planned. Where the
/// script is run, its bytecode opens with the container header, and the
/// virtual machine decides between success and failure.
pub open spec fn pass_allows(runner: RunScript, script: Option<ScriptModel>, outcome: Outcome) -> bool {
    match planned(runner, script) {
        Step::Done(planned_outcome) => outcome == planned_outcome,
        Step::Run(_) => script is Some && has_container_header(script->0.bytecode) && (
        outcome is Succeeded || outcome is Failed),
    }
}

/// An optional asset, taken by its view.
pub open spec fn model_of(script: Option<&FusabiScript>) -> Option<ScriptModel> {
    match script {
        Some(asset) => Some(asset@),
        None => None,
    }
}

/// What the result of a run is recorded as: a value becomes a success with
/// some rendering of the value, a runtime error becomes a failure with the
/// rendering of that error.
pub fn rendered(result: &Result<Value, VmError>) -> (record: Result<String, String>)
    ensures
        result is Ok <==> record is Ok,
        *result matches Err(error) ==> (record matches Err(text) && text@ == vm_error_text(error)),
{
    match result {
        Ok(value) => Ok(describe_value(value)),
        Err(error) => Err(describe_vm_error(error)),
    }
}

/// What came of a step: the outcome of a pass in which nothing was to be
/// run, or what the virtual machine returned for the chunk that was.
#[derive(Debug)]
pub enum PassEvent {
    /// Nothing was run; the pass ended with this outcome.
    Done(PassOutcome),
    /// The script was run; this is the machine's result.
    Ran(Result<Value, VmError>),
}

/// Whether `outcome` is what `event` is recorded as.
pub open spec fn event_allows(event: PassEvent, outcome: Outcome) -> bool {
    match event {
        PassEvent::Done(ended) => outcome == ended@,
        PassEvent::Ran(result) => run_allows(result, outcome),
    }
}

impl PassOutcome {
    /// A copy of the outcome, text and all.
    pub fn duplicate(&self) -> (copy: PassOutcome)
        ensures
            copy@ == self@,
    {
        match self {
            PassOutcome::Skipped => PassOutcome::Skipped,
            PassOutcome::Unresolved => PassOutcome::Unresolved,
            PassOutcome::DecodeFailed(message) => PassOutcome::DecodeFailed(message.clone()),
            PassOutcome::Succeeded(value) => PassOutcome::Succeeded(value.clone()),
            PassOutcome::Failed(message) => PassOutcome::Failed(message.clone()),
        }
    }
}

impl RunScript {
    /// Whether a pass needs this runner's asset resolved: an executed
    /// runner is skipped whatever its handle resolves to.
    pub fn wants_asset(&self) -> (yes: bool)
        ensures
            yes == !self.executed,
            !yes ==> forall|script: Option<ScriptModel>|
                planned(*self, script) == Step::Done(Outcome::Skipped),
    {
        !self.executed
    }

    /// Decides what a pass asks for this runner, given what its handle
    /// resolves to.
    ///
    /// A runner that has succeeded is skipped. Otherwise the asset, if it
    /// is there, is decoded: a chunk is to be run by the caller, in an
    /// execution context of its own, and its result handed to
    /// [`RunScript::finish`]. The runner itself is not changed.
    pub fn plan(&self, script: Option<&FusabiScript>) -> (step: PassStep)
        ensures
            step_fits(*self, model_of(script), step@),
    {
        match script {
            Some(asset) => self.plan_bytecode(Some(asset.bytecode.as_slice())),
            None => self.plan_bytecode(None),
        }
    }

    /// Decides what a pass asks for this runner, given the bytecode of the
    /// asset that its handle resolves to. As [`RunScript::plan`], for a
    /// caller that holds the bytes and no asset of this library.
    pub fn plan_bytecode(&self, bytecode: Option<&[u8]>) -> (step: PassStep)
        ensures
            step_fits_bytecode(
                *self,
                match bytecode {
                    Some(bytes) => Some(bytes@),
                    None => None,
                },
                step@,
            ),
    {
        if self.executed {
            return PassStep::Done(PassOutcome::Skipped);
        }
        let bytes = match bytecode {
            Some(bytes) => bytes,
            None => {
                return PassStep::Done(PassOutcome::Unresolved);
            },
        };
        match decode_chunk(bytes) {
            Ok(chunk) => PassStep::Run(chunk),
            Err(message) => PassStep::Done(PassOutcome::DecodeFailed(message)),
        }
    }

    /// Finishes a pass in which the script was run, from what the virtual
    /// machine returned.
    ///
    /// Only a value marks the runner executed. After a runtime error the
    /// runner stays pending, and the next pass plans the run again,
    /// without limit.
    pub fn finish(&mut self, result: &Result<Value, VmError>) -> (outcome: PassOutcome)
        ensures
            run_allows(*result, outcome@),
            *final(self) == old(self).settled(outcome@),
    {
        self.record(rendered(result))
    }

    /// Settles the runner by what came of its step: an outcome without a
    /// run is taken as it is, a run is finished from its result.
    pub fn settle(&mut self, event: &PassEvent) -> (outcome: PassOutcome)
        ensures
            event_allows(*event, outcome@),
            *final(self) == old(self).settled(outcome@),
    {
        match event {
            PassEvent::Done(ended) => {
                match ended {
                    PassOutcome::Succeeded(_) => {
                        self.executed = true;
                    },
                    _ => {},
                }
                ended.duplicate()
            },
            PassEvent::Ran(result) => self.finish(result),
        }
    }
}

/// The resolved script assets, each under its handle.
///
/// A published asset is only ever read here; publishing under a handle
/// that is taken replaces the asset as a whole.
pub struct ScriptAssets {
    scripts: HashMap<u64, FusabiScript>,
}

impl ScriptAssets {
    /// What `handle` resolves to: the asset published under it, if any.
    pub closed spec fn resolved(&self, handle: u64) -> Option<ScriptModel> {
        if self.scripts@.contains_key(handle) {
            Some(self.scripts@[handle]@)
        } else {
            None
        }
    }

    /// A store in which no handle resolves yet.
    pub fn new() -> (assets: Self)
        ensures
            forall|handle: u64| assets.resolved(handle) is None,
    {
        ScriptAssets { scripts: HashMap::new() }
    }

    /// Publishes `script` under `handle`. Every other handle resolves as
    /// before.
    pub fn insert(&mut self, handle: u64, script: FusabiScript)
        ensures
            forall|other: u64|
                final(self).resolved(other) == if other == handle {
                    Some(script@)
                } else {
                    old(self).resolved(other)
                },
    {
        self.scripts.insert(handle, script);
    }

    /// The asset that `handle` resolves to, if it is loaded.
    pub fn get(&self, handle: u64) -> (script: Option<&FusabiScript>)
        ensures
            model_of(script) == self.resolved(handle),
    {
        self.scripts.get(&handle)
    }
}

/// The outcomes of a pass over several runners, each taken by its view.
pub open spec fn outcomes_of(outcomes: Seq<PassOutcome>) -> Seq<Outcome> {
    Seq::new(outcomes.len(), |i: int| outcomes[i]@)
}

/// The runners after a pass: each settled by its own outcome.
pub open spec fn after_pass(runners: Seq<RunScript>, outcomes: Seq<Outcome>) -> Seq<RunScript> {
    Seq::new(runners.len(), |i: int| runners[i].settled(outcomes[i]))
}

/// Decides one scheduling pass: what the pass asks for every runner, in
/// order, each by its own state and by what its own handle resolves to.
pub fn plan_scripts(runners: &Vec<RunScript>, scripts: &ScriptAssets) -> (steps: Vec<PassStep>)
    ensures
        steps@.len() == runners@.len(),
        forall|i: int|
            0 <= i < runners@.len() ==> step_fits(
                runners@[i],
                scripts.resolved(runners@[i].handle),
                #[trigger] steps@[i]@,
            ),
{
    let mut steps: Vec<PassStep> = Vec::new();
    let mut i: usize = 0;
    while i < runners.len()
        invariant
            i <= runners.len(),
            steps.len() == i,
            forall|j: int|
                0 <= j < i ==> step_fits(
                    runners@[j],
                    scripts.resolved(runners@[j].handle),
                    #[trigger] steps@[j]@,
                ),
        decreases runners.len() - i,
    {
        let script = scripts.get(runners[i].handle);
        let step = runners[i].plan(script);
        steps.push(step);
        i += 1;
    }
    steps
}

/// Finishes one scheduling pass: every runner is settled by what came of
/// its own step, in order, and by nothing else. Returns the outcome for
/// each runner.
///
/// Runners and events are paired by position; where one list is longer,
/// what is beyond the other's end is left alone.
pub fn finish_scripts(runners: &mut Vec<RunScript>, events: &Vec<PassEvent>) -> (outcomes: Vec<
    PassOutcome,
>)
    ensures
        final(runners)@.len() == old(runners)@.len(),
        outcomes@.len() == events@.len() || outcomes@.len() == old(runners)@.len(),
        outcomes@.len() <= events@.len(),
        outcomes@.len() <= old(runners)@.len(),
        forall|i: int|
            0 <= i < outcomes@.len() ==> event_allows(events@[i], #[trigger] outcomes@[i]@),
        forall|i: int|
            0 <= i < outcomes@.len() ==> #[trigger] final(runners)@[i] == old(runners)@[i].settled(
                outcomes@[i]@,
            ),
        forall|i: int|
            outcomes@.len() <= i < old(runners)@.len() ==> #[trigger] final(runners)@[i] == old(
                runners,
            )@[i],
        events@.len() == old(runners)@.len() ==> final(runners)@ == after_pass(
            old(runners)@,
            outcomes_of(outcomes@),
        ),
{
    let ghost before = runners@;
    let mut outcomes: Vec<PassOutcome> = Vec::new();
    let mut i: usize = 0;
    while i < runners.len() && i < events.len()
        invariant
            i <= runners.len(),
            i <= events.len(),
            runners.len() == before.len(),
            outcomes.len() == i,
            forall|j: int| i <= j < before.len() ==> runners@[j] == before[j],
            forall|j: int| 0 <= j < i ==> event_allows(events@[j], #[trigger] outcomes@[j]@),
            forall|j: int| 0 <= j < i ==> #[trigger] runners@[j] == before[j].settled(outcomes@[j]@),
        decreases runners.len() - i,
    {
        let mut runner = runners[i];
        let outcome = runner.settle(&events[i]);
        runners.set(i, runner);
        outcomes.push(outcome);
        i += 1;
    }
    proof {
        if events@.len() == before.len() {
            assert(runners@ =~= after_pass(before, outcomes_of(outcomes@)));
        }
    }
    outcomes
}

/// A planned run and the record of its result make one pass: whatever the
/// virtual machine returns for a chunk that was to be run, the outcome
/// that `finish` records is one the pass may have.
pub proof fn lemma_finished_run_is_a_pass(
    runner: RunScript,
    script: Option<ScriptModel>,
    step: Step,
    result: Result<Value, VmError>,
    outcome: Outcome,
)
    requires
        step_fits(runner, script, step),
        step is Run,
        run_allows(result, outcome),
    ensures
        pass_allows(runner, script, outcome),
        !runner.executed,
        runner.settled(outcome).executed == (result is Ok),
{
}

/// A step with nothing to run is a pass that leaves the runner as it was.
pub proof fn lemma_done_step_is_a_pass(
    runner: RunScript,
    script: Option<ScriptModel>,
    outcome: Outcome,
)
    requires
        step_fits(runner, script, Step::Done(outcome)),
    ensures
        pass_allows(runner, script, outcome),
        runner.settled(outcome) == runner,
{
}

/// The passes of a runner's lifetime: for each pass, what its handle
/// resolved to and how the pass ended.
pub open spec fn lifetime_allows(runner: RunScript, passes: Seq<(Option<ScriptModel>, Outcome)>) -> bool
    decreases passes.len(),
{
    passes.len() == 0 || (pass_allows(runner, passes[0].0, passes[0].1) && lifetime_allows(
        runner.settled(passes[0].1),
        passes.drop_first(),
    ))
}

/// The runner after all of `passes`.
pub open spec fn after_lifetime(runner: RunScript, passes: Seq<(Option<ScriptModel>, Outcome)>) -> RunScript
    decreases passes.len(),
{
    if passes.len() == 0 {
        runner
    } else {
        after_lifetime(runner.settled(passes[0].1), passes.drop_first())
    }
}

/// How many of `passes` ran the script: each such pass ended in a success
/// or in a runtime failure.
pub open spec fn runs(passes: Seq<(Option<ScriptModel>, Outcome)>) -> nat
    decreases passes.len(),
{
    if passes.len() == 0 {
        0
    } else {
        let ran: nat = if passes[0].1 is Succeeded || passes[0].1 is Failed {
            1
        } else {
            0
        };
        ran + runs(passes.drop_first())
    }
}

/// How many of `passes` ended in a success.
pub open spec fn successes(passes: Seq<(Option<ScriptModel>, Outcome)>) -> nat
    decreases passes.len(),
{
    if passes.len() == 0 {
        0
    } else {
        let won: nat = if passes[0].1 is Succeeded {
            1
        } else {
            0
        };
        won + successes(passes.drop_first())
    }
}

/// Success is final: once a runner is executed, no later pass runs its
/// script again, every later pass skips it, and it never changes.
pub proof fn lemma_success_is_final(runner: RunScript, passes: Seq<(Option<ScriptModel>, Outcome)>)
    requires
        runner.executed,
        lifetime_allows(runner, passes),
    ensures
        runs(passes) == 0,
        forall|k: int| 0 <= k < passes.len() ==> (#[trigger] passes[k]).1 is Skipped,
        after_lifetime(runner, passes) == runner,
    decreases passes.len(),
{
    if passes.len() > 0 {
        let rest = passes.drop_first();
        assert(runner.settled(passes[0].1) == runner);
        lemma_success_is_final(runner, rest);
        assert forall|k: int| 0 <= k < passes.len() implies (#[trigger] passes[k]).1 is Skipped by {
            if k > 0 {
                assert(passes[k] == rest[k - 1]);
            }
        }
    }
}

/// Nothing runs after a success: in a lifetime of passes, every pass that
/// follows a successful one skips the runner.
pub proof fn lemma_nothing_runs_after_success(
    runner: RunScript,
    passes: Seq<(Option<ScriptModel>, Outcome)>,
    won: int,
    later: int,
)
    requires
        lifetime_allows(runner, passes),
        0 <= won < later < passes.len(),
        passes[won].1 is Succeeded,
    ensures
        passes[later].1 is Skipped,
    decreases won,
{
    let rest = passes.drop_first();
    let next = runner.settled(passes[0].1);
    assert(passes[later] == rest[later - 1]);
    if won == 0 {
        lemma_success_is_final(next, rest);
    } else {
        assert(passes[won] == rest[won - 1]);
        lemma_nothing_runs_after_success(next, rest, won - 1, later - 1);
    }
}

/// Bytecode without the container header never runs: a pass over such an
/// asset neither succeeds nor fails at run time, and leaves the runner as
/// it was.
pub proof fn lemma_headerless_bytecode_never_runs(
    runner: RunScript,
    script: ScriptModel,
    outcome: Outcome,
)
    requires
        pass_allows(runner, Some(script), outcome),
        !has_container_header(script.bytecode),
    ensures
        outcome is Skipped || outcome is DecodeFailed,
        runner.settled(outcome) == runner,
{
}

/// Success comes at most once: over any lifetime of passes, a runner's
/// `executed` flag goes from false to true at most once and never back,
/// and it ends up set exactly when it was set before or a pass succeeded.
pub proof fn lemma_success_at_most_once(runner: RunScript, passes: Seq<(Option<ScriptModel>, Outcome)>)
    requires
        lifetime_allows(runner, passes),
    ensures
        successes(passes) <= 1,
        runner.executed ==> successes(passes) == 0,
        after_lifetime(runner, passes).handle == runner.handle,
        after_lifetime(runner, passes).executed == (runner.executed || successes(passes) == 1),
    decreases passes.len(),
{
    if passes.len() > 0 {
        lemma_success_at_most_once(runner.settled(passes[0].1), passes.drop_first());
    }
}

/// A failure stays with its runner: in a pass over several runners, a
/// runner whose script fails is itself left as it was, and every other
/// runner ends the pass exactly as it would had the failing one ended its
/// pass in any other way, whether or not the two share an asset.
pub proof fn lemma_failure_is_isolated(
    runners: Seq<RunScript>,
    outcomes: Seq<Outcome>,
    failing: int,
    other: int,
    instead: Outcome,
)
    requires
        outcomes.len() == runners.len(),
        0 <= failing < runners.len(),
        0 <= other < runners.len(),
        failing != other,
        outcomes[failing] is Failed,
    ensures
        after_pass(runners, outcomes)[failing] == runners[failing],
        after_pass(runners, outcomes)[other] == runners[other].settled(outcomes[other]),
        after_pass(runners, outcomes.update(failing, instead))[other] == after_pass(
            runners,
            outcomes,
        )[other],
{
}

} // verus!
