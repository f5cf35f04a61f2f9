//! What is passed to the native configuration script: its arguments, in
//! order, and the environment variables that are set for it.

use crate::context::{is_x86_32, BuildContext, BuildContextView, PlatformFamily};
use crate::layout::{Layout, LayoutView};
use crate::path::{msys_path, to_msys_path};
use crate::text::followed_by;
use vstd::prelude::*;
use vstd::string::*;

verus! {

/// One environment variable and the value it is set to.
#[derive(Debug, PartialEq, Eq)]
pub struct EnvOverride {
    pub name: String,
    pub value: String,
}

/// An [`EnvOverride`] with its strings read as character sequences.
pub struct EnvOverrideView {
    pub name: Seq<char>,
    pub value: Seq<char>,
}

impl View for EnvOverride {
    type V = EnvOverrideView;

    open spec fn view(&self) -> EnvOverrideView {
        EnvOverrideView { name: self.name@, value: self.value@ }
    }
}

impl DeepView for EnvOverride {
    type V = EnvOverrideView;

    open spec fn deep_view(&self) -> EnvOverrideView {
        self@
    }
}

impl Clone for EnvOverride {
    fn clone(&self) -> (copy: EnvOverride)
        ensures
            copy@ == self@,
    {
        EnvOverride { name: self.name.clone(), value: self.value.clone() }
    }
}

impl EnvOverride {
    /// Sets the variable `name` to `value`.
    pub fn new(name: &str, value: &str) -> (made: EnvOverride)
        ensures
            made@ == (EnvOverrideView { name: name@, value: value@ }),
    {
        EnvOverride { name: String::from_str(name), value: String::from_str(value) }
    }
}

/// A copy of each override of `source`, in order.
pub fn copy_overrides(source: &Vec<EnvOverride>) -> (copies: Vec<EnvOverride>)
    ensures
        copies.deep_view() == source.deep_view(),
{
    let mut copies: Vec<EnvOverride> = Vec::new();
    for i in 0..source.len()
        invariant
            copies.deep_view() == source.deep_view().take(i as int),
    {
        copies.push(source[i].clone());
        assert(source.deep_view().take(i + 1) =~= source.deep_view().take(i as int).push(
            source[i as int]@,
        ));
    }
    copies
}

/// No variable is set twice.
pub open spec fn distinct_names(env: Seq<EnvOverrideView>) -> bool {
    forall|i: int, j: int| 0 <= i < j < env.len() ==> env[i].name != env[j].name
}

/// A [`ConfigurationPlan`] with its strings read as character sequences.
pub struct ConfigurationPlanView {
    pub args: Seq<Seq<char>>,
    pub env: Seq<EnvOverrideView>,
}

impl ConfigurationPlanView {
    /// The two fixed flags lead the arguments, and no variable is set twice.
    pub open spec fn well_formed(self) -> bool {
        &&& self.args.len() >= 2
        &&& self.args[0] == "--with-pic"@
        &&& self.args[1] == "--disable-docs"@
        &&& distinct_names(self.env)
    }

    /// Whether the plan sets the variable `name` to `value`.
    pub open spec fn sets(self, name: Seq<char>, value: Seq<char>) -> bool {
        exists|i: int|
            0 <= i < self.env.len() && #[trigger] self.env[i] == (EnvOverrideView { name, value })
    }

    /// Whether the plan passes `arg` to the configuration script.
    pub open spec fn passes(self, arg: Seq<char>) -> bool {
        self.args.contains(arg)
    }
}

/// The argument that makes the configuration script build for `target`
/// instead of the machine it runs on.
pub open spec fn host_flag(target: Seq<char>) -> Seq<char> {
    "--host="@ + target
}

/// The argument that names the directory to install into.
pub open spec fn prefix_flag(value: Seq<char>) -> Seq<char> {
    "--prefix="@ + value
}

/// Whether `arg` is a host override, whatever it names.
pub open spec fn is_host_flag(arg: Seq<char>) -> bool {
    "--host="@.is_prefix_of(arg)
}

/// Whether `arg` names an install prefix, whatever it is.
pub open spec fn is_prefix_flag(arg: Seq<char>) -> bool {
    "--prefix="@.is_prefix_of(arg)
}

/// The install prefix as the configuration script must see it: rewritten
/// for the MSYS shell on Windows, unchanged elsewhere.
pub open spec fn prefix_value(install_prefix: Seq<char>, platform: PlatformFamily) -> Seq<char> {
    match platform {
        PlatformFamily::WindowsMsys => msys_path(install_prefix),
        PlatformFamily::Other => install_prefix,
    }
}

/// The variables that make a 64-bit toolchain emit 32-bit code: the flags
/// of the C compiler, of the C++ compiler and of the linker.
pub open spec fn width_overrides(target: Seq<char>) -> Seq<EnvOverrideView> {
    if is_x86_32(target) {
        seq![
            EnvOverrideView { name: "CFLAGS"@, value: "-m32"@ },
            EnvOverrideView { name: "CXXFLAGS"@, value: "-m32"@ },
            EnvOverrideView { name: "LDFLAGS"@, value: "-m32"@ },
        ]
    } else {
        Seq::empty()
    }
}

/// The flag that redirects the configuration script to the target, when
/// target and host differ.
pub open spec fn host_flags(context: BuildContextView) -> Seq<Seq<char>> {
    if context.is_cross() {
        seq![host_flag(context.target_triple)]
    } else {
        Seq::empty()
    }
}

/// The plan that belongs to a context, a layout and a platform.
pub open spec fn plan_of(
    context: BuildContextView,
    layout: LayoutView,
    platform: PlatformFamily,
) -> ConfigurationPlanView {
    ConfigurationPlanView {
        args: seq!["--with-pic"@, "--disable-docs"@] + host_flags(context) + seq![
            prefix_flag(prefix_value(layout.install_prefix, platform)),
        ],
        env: width_overrides(context.target_triple),
    }
}

/// The arguments and environment of the configuration step. The two fixed
/// flags always lead the arguments, and no variable is set twice.
#[derive(Debug, PartialEq, Eq)]
pub struct ConfigurationPlan {
    args: Vec<String>,
    env: Vec<EnvOverride>,
}

impl View for ConfigurationPlan {
    type V = ConfigurationPlanView;

    closed spec fn view(&self) -> ConfigurationPlanView {
        ConfigurationPlanView { args: self.args.deep_view(), env: self.env.deep_view() }
    }
}

impl ConfigurationPlan {
    /// The invariant every plan satisfies.
    #[verifier::type_invariant]
    pub open spec fn well_formed(&self) -> bool {
        self@.well_formed()
    }

    /// The arguments, in the order in which they are passed.
    pub fn args(&self) -> (args: &Vec<String>)
        ensures
            args.deep_view() == self@.args,
            self@.well_formed(),
    {
        proof {
            use_type_invariant(self);
        }
        &self.args
    }

    /// The environment variables to set.
    pub fn env(&self) -> (env: &Vec<EnvOverride>)
        ensures
            env.deep_view() == self@.env,
            self@.well_formed(),
    {
        proof {
            use_type_invariant(self);
        }
        &self.env
    }
}

/// The three width overrides name different variables.
proof fn lemma_width_overrides_distinct(target: Seq<char>)
    ensures
        distinct_names(width_overrides(target)),
{
    reveal_strlit("CFLAGS");
    reveal_strlit("CXXFLAGS");
    reveal_strlit("LDFLAGS");
    // The three names differ in length.
    assert("CFLAGS"@.len() == 6 && "CXXFLAGS"@.len() == 8 && "LDFLAGS"@.len() == 7);
}

/// Every plan that `plan_of` describes is well formed.
pub proof fn lemma_plan_of_well_formed(
    context: BuildContextView,
    layout: LayoutView,
    platform: PlatformFamily,
)
    ensures
        plan_of(context, layout, platform).well_formed(),
{
    lemma_width_overrides_distinct(context.target_triple);
}

/// The plan of a cross build passes a host override that names the target.
/// No plan passes any other host override, and the plan of a native build
/// passes none.
pub proof fn lemma_host_flag_iff_cross(
    context: BuildContextView,
    layout: LayoutView,
    platform: PlatformFamily,
)
    ensures
        context.is_cross() ==> plan_of(context, layout, platform).passes(
            host_flag(context.target_triple),
        ),
        forall|arg: Seq<char>|
            is_host_flag(arg) && #[trigger] plan_of(context, layout, platform).passes(arg)
                ==> context.is_cross() && arg == host_flag(context.target_triple),
{
    reveal_strlit("--host=");
    reveal_strlit("--with-pic");
    reveal_strlit("--disable-docs");
    reveal_strlit("--prefix=");
    let plan = plan_of(context, layout, platform);
    let prefix = prefix_flag(prefix_value(layout.install_prefix, platform));
    // The other arguments differ from a host override in their third
    // character.
    assert("--host="@[2] == 'h');
    assert(!is_host_flag("--with-pic"@)) by {
        assert("--with-pic"@.subrange(0, 7)[2] == 'w');
    }
    assert(!is_host_flag("--disable-docs"@)) by {
        assert("--disable-docs"@.subrange(0, 7)[2] == 'd');
    }
    assert(!is_host_flag(prefix)) by {
        assert(prefix[2] == 'p');
    }
    if context.is_cross() {
        assert(plan.args[2] == host_flag(context.target_triple));
    }
}

/// Every plan names one install prefix: that of the layout, in MSYS form
/// on Windows and as it is anywhere else.
pub proof fn lemma_prefix_flag_follows_platform(
    context: BuildContextView,
    layout: LayoutView,
    platform: PlatformFamily,
)
    ensures
        platform == PlatformFamily::WindowsMsys ==> plan_of(context, layout, platform).passes(
            "--prefix="@ + msys_path(layout.install_prefix),
        ),
        platform == PlatformFamily::Other ==> plan_of(context, layout, platform).passes(
            "--prefix="@ + layout.install_prefix,
        ),
        forall|arg: Seq<char>|
            is_prefix_flag(arg) && #[trigger] plan_of(context, layout, platform).passes(arg)
                ==> arg == prefix_flag(prefix_value(layout.install_prefix, platform)),
{
    reveal_strlit("--host=");
    reveal_strlit("--with-pic");
    reveal_strlit("--disable-docs");
    reveal_strlit("--prefix=");
    let plan = plan_of(context, layout, platform);
    let host = host_flag(context.target_triple);
    // The other arguments differ from an install prefix in their third
    // character.
    assert("--prefix="@[2] == 'p');
    assert(!is_prefix_flag("--with-pic"@)) by {
        assert("--with-pic"@.subrange(0, 9)[2] == 'w');
    }
    assert(!is_prefix_flag("--disable-docs"@)) by {
        assert("--disable-docs"@.subrange(0, 9)[2] == 'd');
    }
    assert(!is_prefix_flag(host)) by {
        assert(host[2] == 'h');
    }
    assert(plan.args.last() == prefix_flag(prefix_value(layout.install_prefix, platform)));
}

/// The plan for a 32-bit x86 target forces 32-bit code three times over:
/// through the flags of the C compiler, of the C++ compiler and of the
/// linker. The plan for any other target sets no variable at all.
pub proof fn lemma_width_overrides_iff_x86_32(
    context: BuildContextView,
    layout: LayoutView,
    platform: PlatformFamily,
)
    ensures
        context.targets_x86_32() ==> {
            let plan = plan_of(context, layout, platform);
            &&& plan.sets("CFLAGS"@, "-m32"@)
            &&& plan.sets("CXXFLAGS"@, "-m32"@)
            &&& plan.sets("LDFLAGS"@, "-m32"@)
        },
        !context.targets_x86_32() ==> forall|name: Seq<char>, value: Seq<char>|
            !#[trigger] plan_of(context, layout, platform).sets(name, value),
{
    let plan = plan_of(context, layout, platform);
    if context.targets_x86_32() {
        assert(plan.env[0] == (EnvOverrideView { name: "CFLAGS"@, value: "-m32"@ }));
        assert(plan.env[1] == (EnvOverrideView { name: "CXXFLAGS"@, value: "-m32"@ }));
        assert(plan.env[2] == (EnvOverrideView { name: "LDFLAGS"@, value: "-m32"@ }));
    }
}

/// Decides what the configuration script is told: the fixed flags, the
/// host override of a cross build, the overrides that force 32-bit code,
/// and the install prefix in the form the script's shell understands.
pub fn plan_configuration(
    context: &BuildContext,
    layout: &Layout,
    platform: PlatformFamily,
) -> (plan: ConfigurationPlan)
    ensures
        plan@ == plan_of(context@, layout@, platform),
        plan@.well_formed(),
{
    let mut args: Vec<String> = Vec::new();
    args.push(String::from_str("--with-pic"));
    args.push(String::from_str("--disable-docs"));
    if context.is_cross() {
        args.push(followed_by("--host=", context.target_triple()));
    }
    let mut env: Vec<EnvOverride> = Vec::new();
    if context.targets_x86_32() {
        env.push(EnvOverride::new("CFLAGS", "-m32"));
        env.push(EnvOverride::new("CXXFLAGS", "-m32"));
        env.push(EnvOverride::new("LDFLAGS", "-m32"));
    }
    let prefix = match platform {
        PlatformFamily::WindowsMsys => to_msys_path(layout.install_prefix.as_str()),
        PlatformFamily::Other => layout.install_prefix.clone(),
    };
    args.push(followed_by("--prefix=", prefix.as_str()));
    proof {
        lemma_plan_of_well_formed(context@, layout@, platform);
        assert(args.deep_view() =~= plan_of(context@, layout@, platform).args);
        assert(env.deep_view() =~= plan_of(context@, layout@, platform).env);
    }
    ConfigurationPlan { args, env }
}

} // verus!
