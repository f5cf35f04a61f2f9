//! Runs the steps of a build in order and stops at the first that fails.
//!
//! The executor decides; it does not touch the machine. Whoever calls it
//! hands it the means to perform an action, and is told to link against
//! the built library only when every step reported success.

use crate::action::{
    action_of, configure_command, copy_command, install_command, is_make_program, make_program,
    BuildAction, BuildActionView,
};
use crate::context::{BuildContext, PlatformFamily};
use crate::layout::{layout_of, resolve_layout, Layout, LayoutView};
use crate::link::{built_directive, LinkDirective, LinkDirectiveView};
use crate::plan::{plan_configuration, plan_of, ConfigurationPlan, ConfigurationPlanView};
use crate::step::{
    fails, step_at, BuildError, BuildErrorView, BuildStep, StepOutcome, StepOutcomeView,
};
use vstd::prelude::*;
use vstd::string::*;

verus! {

/// Where a build stands once a step has been performed.
#[derive(Debug, PartialEq, Eq)]
pub enum Progress {
    /// The step succeeded; this one is next.
    Continue(BuildStep),
    /// The last step succeeded; the host build links as the directive says.
    Finished(LinkDirective),
    /// The step failed; no later step runs.
    Aborted(BuildError),
}

/// A [`Progress`] with its strings read as character sequences.
pub enum ProgressView {
    Continue(BuildStep),
    Finished(LinkDirectiveView),
    Aborted(BuildErrorView),
}

impl View for Progress {
    type V = ProgressView;

    open spec fn view(&self) -> ProgressView {
        match self {
            Progress::Continue(step) => ProgressView::Continue(*step),
            Progress::Finished(directive) => ProgressView::Finished(directive@),
            Progress::Aborted(error) => ProgressView::Aborted(error@),
        }
    }
}

/// Where a build stands after `step` reported `outcome`: at an error that
/// names the step and carries the outcome's description, if the outcome is
/// a failure of that step; else at the next step; else, after the last
/// step, at the directive to link statically against the installed library.
pub open spec fn progress_after(
    step: BuildStep,
    outcome: StepOutcomeView,
    layout: LayoutView,
) -> ProgressView {
    if fails(step, outcome) {
        ProgressView::Aborted(BuildErrorView { step, description: outcome.description() })
    } else {
        match step.successor() {
            Some(next) => ProgressView::Continue(next),
            None => ProgressView::Finished(built_directive(layout.library_dir)),
        }
    }
}

/// The result of a build, with its strings read as character sequences.
pub open spec fn result_view(result: Result<LinkDirective, BuildError>) -> Result<
    LinkDirectiveView,
    BuildErrorView,
> {
    match result {
        Ok(directive) => Ok(directive@),
        Err(error) => Err(error@),
    }
}

/// The outcomes, each read as its view.
pub open spec fn outcome_views(outcomes: Seq<StepOutcome>) -> Seq<StepOutcomeView> {
    outcomes.map_values(|outcome: StepOutcome| outcome@)
}

/// Whether a build that saw `outcomes`, one for each step it performed, in
/// order, ends in `result`. It does if every step but the last performed
/// succeeded, and the last one either failed, which gives its error, or was
/// the last of all and succeeded, which gives the directive. So a build
/// performs no step after a failure, and never more than the four.
pub open spec fn concludes(
    layout: LayoutView,
    outcomes: Seq<StepOutcomeView>,
    result: Result<LinkDirectiveView, BuildErrorView>,
) -> bool {
    &&& 1 <= outcomes.len() <= 4
    &&& forall|i: int| 0 <= i < outcomes.len() - 1 ==> !fails(step_at(i), #[trigger] outcomes[i])
    &&& progress_after(step_at(outcomes.len() - 1), outcomes.last(), layout) == match result {
        Ok(directive) => ProgressView::Finished(directive),
        Err(error) => ProgressView::Aborted(error),
    }
}

/// Whether `action` is one that a build with this layout and plan can ask
/// for.
pub open spec fn is_build_action(
    action: BuildActionView,
    layout: LayoutView,
    plan: ConfigurationPlanView,
) -> bool {
    exists|step: BuildStep, make: Seq<char>|
        is_make_program(make) && action == #[trigger] action_of(step, layout, plan, make)
}

/// Whether `actions` are the actions of the first steps of a build with
/// this layout and plan, in order, and `outcomes` are what `perform` can
/// have answered to them, one each.
pub open spec fn performed<F: Fn(&BuildAction) -> StepOutcome>(
    perform: F,
    layout: LayoutView,
    plan: ConfigurationPlanView,
    make: Seq<char>,
    actions: Seq<BuildAction>,
    outcomes: Seq<StepOutcome>,
) -> bool {
    &&& is_make_program(make)
    &&& actions.len() == outcomes.len()
    &&& forall|i: int|
        0 <= i < actions.len() ==> (#[trigger] actions[i])@ == action_of(
            step_at(i),
            layout,
            plan,
            make,
        )
    &&& forall|i: int|
        0 <= i < actions.len() ==> call_ensures(perform, (&actions[i],), #[trigger] outcomes[i])
}

/// The first failure ends a build: it is the last outcome the build saw,
/// and the result is the error of the step that failed, with the
/// description that came with the failure.
pub proof fn lemma_failure_ends_build(
    layout: LayoutView,
    outcomes: Seq<StepOutcomeView>,
    result: Result<LinkDirectiveView, BuildErrorView>,
    at: int,
)
    requires
        concludes(layout, outcomes, result),
        0 <= at < outcomes.len(),
        fails(step_at(at), outcomes[at]),
    ensures
        at == outcomes.len() - 1,
        result == Err::<LinkDirectiveView, BuildErrorView>(
            BuildErrorView { step: step_at(at), description: outcomes[at].description() },
        ),
{
}

/// A build that ends in a directive performed all four steps, none of
/// which failed, and the directive links statically against the library
/// directory of the layout.
pub proof fn lemma_success_takes_every_step(
    layout: LayoutView,
    outcomes: Seq<StepOutcomeView>,
    result: Result<LinkDirectiveView, BuildErrorView>,
)
    requires
        concludes(layout, outcomes, result),
        result is Ok,
    ensures
        outcomes.len() == 4,
        forall|i: int| 0 <= i < 4 ==> !fails(step_at(i), #[trigger] outcomes[i]),
        result == Ok::<LinkDirectiveView, BuildErrorView>(built_directive(layout.library_dir)),
{
}

/// Decides how a build goes on after `step` reported `outcome`.
pub fn advance(step: BuildStep, outcome: StepOutcome, layout: &Layout) -> (progress: Progress)
    ensures
        progress@ == progress_after(step, outcome@, layout@),
{
    match outcome {
        StepOutcome::Succeeded => {},
        StepOutcome::NotFound(description) => {
            if step != BuildStep::CleanStaging {
                return Progress::Aborted(BuildError::at(step, description));
            }
        },
        StepOutcome::Failed(description) => {
            return Progress::Aborted(BuildError::at(step, description));
        },
    }
    match step.next() {
        Some(next) => Progress::Continue(next),
        None => Progress::Finished(LinkDirective::built(layout.library_dir.clone())),
    }
}

/// What `step` asks for, where the build tool is called `make`.
pub fn action_for(
    step: BuildStep,
    layout: &Layout,
    plan: &ConfigurationPlan,
    make: &str,
) -> (action: BuildAction)
    ensures
        action@ == action_of(step, layout@, plan@, make@),
{
    match step {
        BuildStep::CleanStaging => BuildAction::RemoveTree(layout.staging_dir.clone()),
        BuildStep::StageSource => BuildAction::Run(copy_command(layout)),
        BuildStep::Configure => BuildAction::Run(configure_command(layout, plan)),
        BuildStep::BuildInstall => BuildAction::Run(
            install_command(String::from_str(make), layout),
        ),
    }
}

/// Builds the library: cleans the staging directory, copies the source
/// tree into it, configures, then compiles and installs. Each action is
/// handed to `perform`, which carries it out and reports how it went. The
/// first failure ends the build with the error of its step, and `perform`
/// is not called again; only when all four steps succeeded is the result
/// the directive to link statically against the installed library.
pub fn execute_build<F: Fn(&BuildAction) -> StepOutcome>(
    layout: &Layout,
    plan: &ConfigurationPlan,
    perform: F,
) -> (result: Result<LinkDirective, BuildError>)
    requires
        forall|action: BuildAction| #[trigger]
            is_build_action(action@, layout@, plan@) ==> call_requires(perform, (&action,)),
    ensures
        exists|make: Seq<char>, actions: Seq<BuildAction>, outcomes: Seq<StepOutcome>|
            #[trigger] performed(perform, layout@, plan@, make, actions, outcomes) && concludes(
                layout@,
                outcome_views(outcomes),
                result_view(result),
            ),
{
    let make = make_program();
    let mut step = BuildStep::first();
    let ghost mut actions: Seq<BuildAction> = Seq::empty();
    let ghost mut outcomes: Seq<StepOutcome> = Seq::empty();
    loop
        invariant
            forall|action: BuildAction| #[trigger]
                is_build_action(action@, layout@, plan@) ==> call_requires(perform, (&action,)),
            performed(perform, layout@, plan@, make@, actions, outcomes),
            actions.len() == step.position(),
            forall|i: int|
                0 <= i < outcomes.len() ==> !fails(step_at(i), (#[trigger] outcomes[i])@),
        decreases 4 - step.position(),
    {
        let action = action_for(step, layout, plan, make.as_str());
        assert(is_build_action(action@, layout@, plan@));
        let outcome = perform(&action);
        proof {
            actions = actions.push(action);
            outcomes = outcomes.push(outcome);
            assert(performed(perform, layout@, plan@, make@, actions, outcomes));
        }
        match advance(step, outcome, layout) {
            Progress::Continue(next) => {
                step = next;
            },
            Progress::Finished(directive) => {
                return Ok(directive);
            },
            Progress::Aborted(error) => {
                return Err(error);
            },
        }
    }
}

/// Builds the library for `context` from the vendored source: lays out
/// the directories, plans the configuration, and runs the four steps.
pub fn build_and_link<F: Fn(&BuildAction) -> StepOutcome>(
    context: &BuildContext,
    platform: PlatformFamily,
    perform: F,
) -> (result: Result<LinkDirective, BuildError>)
    requires
        forall|action: BuildAction| #[trigger]
            is_build_action(
                action@,
                layout_of(context@),
                plan_of(context@, layout_of(context@), platform),
            ) ==> call_requires(perform, (&action,)),
    ensures
        exists|make: Seq<char>, actions: Seq<BuildAction>, outcomes: Seq<StepOutcome>|
            #[trigger] performed(
                perform,
                layout_of(context@),
                plan_of(context@, layout_of(context@), platform),
                make,
                actions,
                outcomes,
            ) && concludes(layout_of(context@), outcome_views(outcomes), result_view(result)),
{
    let layout = resolve_layout(context);
    let plan = plan_configuration(context, &layout, platform);
    execute_build(&layout, &plan, perform)
}

} // verus!
