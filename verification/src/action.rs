//! What each step of the build asks of the machine: a directory to remove,
//! or a program to run.

use crate::context::{BuildContext, PlatformFamily};
use crate::layout::{Layout, LayoutView};
use crate::plan::{
    copy_overrides, plan_configuration, plan_of, ConfigurationPlan, ConfigurationPlanView,
    EnvOverride, EnvOverrideView,
};
use crate::step::BuildStep;
use crate::text::append_copies;
use vstd::prelude::*;
use vstd::string::*;

verus! {

/// One run of a program: what to start, with which arguments, where, and
/// with which changes to the environment it inherits.
#[derive(Debug, PartialEq, Eq)]
pub struct Invocation {
    pub program: String,
    pub args: Vec<String>,
    /// The directory to run in; the caller's own where there is none.
    pub working_dir: Option<String>,
    /// Variables to set, over what is inherited.
    pub env_set: Vec<EnvOverride>,
    /// Variables to remove from what is inherited.
    pub env_unset: Vec<String>,
}

/// An [`Invocation`] with its strings read as character sequences.
pub struct InvocationView {
    pub program: Seq<char>,
    pub args: Seq<Seq<char>>,
    pub working_dir: Option<Seq<char>>,
    pub env_set: Seq<EnvOverrideView>,
    pub env_unset: Seq<Seq<char>>,
}

impl View for Invocation {
    type V = InvocationView;

    open spec fn view(&self) -> InvocationView {
        InvocationView {
            program: self.program@,
            args: self.args.deep_view(),
            working_dir: match self.working_dir {
                Some(dir) => Some(dir@),
                None => None,
            },
            env_set: self.env_set.deep_view(),
            env_unset: self.env_unset.deep_view(),
        }
    }
}

impl Clone for Invocation {
    fn clone(&self) -> (copy: Invocation)
        ensures
            copy@ == self@,
    {
        let mut args: Vec<String> = Vec::new();
        append_copies(&mut args, &self.args);
        let mut env_unset: Vec<String> = Vec::new();
        append_copies(&mut env_unset, &self.env_unset);
        Invocation {
            program: self.program.clone(),
            args,
            working_dir: match &self.working_dir {
                Some(dir) => Some(dir.clone()),
                None => None,
            },
            env_set: copy_overrides(&self.env_set),
            env_unset,
        }
    }
}

/// What a step asks for.
#[derive(Debug, PartialEq, Eq)]
pub enum BuildAction {
    /// Remove the directory at this path, with everything in it.
    RemoveTree(String),
    /// Run a program and wait for it to end.
    Run(Invocation),
}

/// A [`BuildAction`] with its strings read as character sequences.
pub enum BuildActionView {
    RemoveTree(Seq<char>),
    Run(InvocationView),
}

impl View for BuildAction {
    type V = BuildActionView;

    open spec fn view(&self) -> BuildActionView {
        match self {
            BuildAction::RemoveTree(path) => BuildActionView::RemoveTree(path@),
            BuildAction::Run(invocation) => BuildActionView::Run(invocation@),
        }
    }
}

impl Clone for BuildAction {
    fn clone(&self) -> (copy: BuildAction)
        ensures
            copy@ == self@,
    {
        match self {
            BuildAction::RemoveTree(path) => BuildAction::RemoveTree(path.clone()),
            BuildAction::Run(invocation) => BuildAction::Run(invocation.clone()),
        }
    }
}

/// Whether `program` is a name under which GNU make is installed.
pub open spec fn is_make_program(program: Seq<char>) -> bool {
    program == "make"@ || program == "gmake"@
}

/// The recursive copy of the vendored source tree into the staging
/// directory.
pub open spec fn copy_invocation(layout: LayoutView) -> InvocationView {
    InvocationView {
        program: "cp"@,
        args: seq!["-R"@, "libffi"@, layout.staging_dir],
        working_dir: None,
        env_set: Seq::empty(),
        env_unset: Seq::empty(),
    }
}

/// The run of the configuration script: by the shell, in the staging
/// directory, with the plan's arguments and environment.
pub open spec fn configure_invocation(
    layout: LayoutView,
    plan: ConfigurationPlanView,
) -> InvocationView {
    InvocationView {
        program: "sh"@,
        args: seq!["configure"@] + plan.args,
        working_dir: Some(layout.staging_dir),
        env_set: plan.env,
        env_unset: Seq::empty(),
    }
}

/// The run of the build tool `make`: in the staging directory, towards the
/// goal `install`, and without an inherited `DESTDIR`, which would send
/// the installed files somewhere else.
pub open spec fn install_invocation(make: Seq<char>, layout: LayoutView) -> InvocationView {
    InvocationView {
        program: make,
        args: seq!["install"@],
        working_dir: Some(layout.staging_dir),
        env_set: Seq::empty(),
        env_unset: seq!["DESTDIR"@],
    }
}

/// What `step` asks for, in a build with this layout and plan, where the
/// build tool is called `make`.
pub open spec fn action_of(
    step: BuildStep,
    layout: LayoutView,
    plan: ConfigurationPlanView,
    make: Seq<char>,
) -> BuildActionView {
    match step {
        BuildStep::CleanStaging => BuildActionView::RemoveTree(layout.staging_dir),
        BuildStep::StageSource => BuildActionView::Run(copy_invocation(layout)),
        BuildStep::Configure => BuildActionView::Run(configure_invocation(layout, plan)),
        BuildStep::BuildInstall => BuildActionView::Run(install_invocation(make, layout)),
    }
}

/// The name of GNU make on the platform this library is compiled for, as
/// `make_cmd::make` chooses it: `gmake` on the BSDs, `make` everywhere
/// else. Read off the command that the function returns; believed from
/// its source, not proved.
#[verifier::external_body]
pub(crate) fn make_program() -> (program: String)
    ensures
        is_make_program(program@),
{
    make_cmd::make().get_program().to_string_lossy().into_owned()
}

/// The command that copies the source tree into the staging directory.
pub fn copy_command(layout: &Layout) -> (invocation: Invocation)
    ensures
        invocation@ == copy_invocation(layout@),
{
    let mut args: Vec<String> = Vec::new();
    args.push(String::from_str("-R"));
    args.push(String::from_str("libffi"));
    args.push(layout.staging_dir.clone());
    let invocation = Invocation {
        program: String::from_str("cp"),
        args,
        working_dir: None,
        env_set: Vec::new(),
        env_unset: Vec::new(),
    };
    assert(invocation@.args =~= copy_invocation(layout@).args);
    assert(invocation@.env_set =~= copy_invocation(layout@).env_set);
    assert(invocation@.env_unset =~= copy_invocation(layout@).env_unset);
    invocation
}

/// The command that runs the configuration script as `plan` says.
pub fn configure_command(layout: &Layout, plan: &ConfigurationPlan) -> (invocation: Invocation)
    ensures
        invocation@ == configure_invocation(layout@, plan@),
{
    let mut args: Vec<String> = Vec::new();
    args.push(String::from_str("configure"));
    assert(args.deep_view() =~= seq!["configure"@]);
    append_copies(&mut args, plan.args());
    let invocation = Invocation {
        program: String::from_str("sh"),
        args,
        working_dir: Some(layout.staging_dir.clone()),
        env_set: copy_overrides(plan.env()),
        env_unset: Vec::new(),
    };
    assert(invocation@.env_unset =~= configure_invocation(layout@, plan@).env_unset);
    invocation
}

/// The command that compiles and installs, given the name of the build
/// tool.
pub fn install_command(make: String, layout: &Layout) -> (invocation: Invocation)
    ensures
        invocation@ == install_invocation(make@, layout@),
{
    let mut args: Vec<String> = Vec::new();
    args.push(String::from_str("install"));
    let mut env_unset: Vec<String> = Vec::new();
    env_unset.push(String::from_str("DESTDIR"));
    let invocation = Invocation {
        program: make,
        args,
        working_dir: Some(layout.staging_dir.clone()),
        env_set: Vec::new(),
        env_unset,
    };
    assert(invocation@.args =~= install_invocation(make@, layout@).args);
    assert(invocation@.env_set =~= install_invocation(make@, layout@).env_set);
    assert(invocation@.env_unset =~= install_invocation(make@, layout@).env_unset);
    invocation
}

/// Plans the configuration step for a context and returns the command that
/// carries the plan out: the shell runs the configuration script, in the
/// staging directory, with the planned arguments and environment.
pub fn configure_libffi(
    context: &BuildContext,
    layout: &Layout,
    platform: PlatformFamily,
) -> (invocation: Invocation)
    ensures
        invocation@ == configure_invocation(layout@, plan_of(context@, layout@, platform)),
{
    let plan = plan_configuration(context, layout, platform);
    configure_command(layout, &plan)
}

} // verus!
