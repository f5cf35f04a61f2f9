use libffi_build::action::{
    configure_command, configure_libffi, copy_command, install_command, BuildAction, Invocation,
};
use libffi_build::context::{BuildContext, PlatformFamily};
use libffi_build::executor::action_for;
use libffi_build::layout::{resolve_layout, Layout};
use libffi_build::plan::{plan_configuration, EnvOverride};
use libffi_build::step::BuildStep;

fn cross_32_bit() -> BuildContext {
    BuildContext::new(
        "/out".to_string(),
        "i686-unknown-linux-gnu".to_string(),
        "x86_64-unknown-linux-gnu".to_string(),
    )
    .unwrap()
}

fn strings(items: &[&str]) -> Vec<String> {
    items.iter().map(|item| item.to_string()).collect()
}

fn expected_configure() -> Invocation {
    Invocation {
        program: "sh".to_string(),
        args: strings(&[
            "configure",
            "--with-pic",
            "--disable-docs",
            "--host=i686-unknown-linux-gnu",
            "--prefix=/out/install-root",
        ]),
        working_dir: Some("/out/build-staging".to_string()),
        env_set: vec![
            EnvOverride::new("CFLAGS", "-m32"),
            EnvOverride::new("CXXFLAGS", "-m32"),
            EnvOverride::new("LDFLAGS", "-m32"),
        ],
        env_unset: Vec::new(),
    }
}

#[test]
fn copy_command_copies_the_source_tree_into_staging() {
    let layout = resolve_layout(&cross_32_bit());
    assert_eq!(
        copy_command(&layout),
        Invocation {
            program: "cp".to_string(),
            args: strings(&["-R", "libffi", "/out/build-staging"]),
            working_dir: None,
            env_set: Vec::new(),
            env_unset: Vec::new(),
        }
    );
}

#[test]
fn configure_command_runs_the_script_as_planned() {
    let context = cross_32_bit();
    let layout = resolve_layout(&context);
    let plan = plan_configuration(&context, &layout, PlatformFamily::Other);
    assert_eq!(configure_command(&layout, &plan), expected_configure());
}

#[test]
fn configure_libffi_plans_and_builds_the_command() {
    let context = cross_32_bit();
    let layout = resolve_layout(&context);
    assert_eq!(configure_libffi(&context, &layout, PlatformFamily::Other), expected_configure());
}

#[test]
fn configure_libffi_for_a_native_build_on_windows() {
    let context = BuildContext::new(
        "C:\\o".to_string(),
        "x86_64-pc-windows-gnu".to_string(),
        "x86_64-pc-windows-gnu".to_string(),
    )
    .unwrap();
    let layout = resolve_layout(&context);
    assert_eq!(
        configure_libffi(&context, &layout, PlatformFamily::WindowsMsys),
        Invocation {
            program: "sh".to_string(),
            args: strings(&["configure", "--with-pic", "--disable-docs", "--prefix=/C/o/install-root"]),
            working_dir: Some("C:\\o/build-staging".to_string()),
            env_set: Vec::new(),
            env_unset: Vec::new(),
        }
    );
}

#[test]
fn install_command_clears_destdir_and_installs() {
    let layout = resolve_layout(&cross_32_bit());
    assert_eq!(
        install_command("gmake".to_string(), &layout),
        Invocation {
            program: "gmake".to_string(),
            args: strings(&["install"]),
            working_dir: Some("/out/build-staging".to_string()),
            env_set: Vec::new(),
            env_unset: strings(&["DESTDIR"]),
        }
    );
}

#[test]
fn action_of_each_step() {
    let context = cross_32_bit();
    let layout = resolve_layout(&context);
    let plan = plan_configuration(&context, &layout, PlatformFamily::Other);
    assert_eq!(
        action_for(BuildStep::CleanStaging, &layout, &plan, "make"),
        BuildAction::RemoveTree("/out/build-staging".to_string())
    );
    assert_eq!(
        action_for(BuildStep::StageSource, &layout, &plan, "make"),
        BuildAction::Run(copy_command(&layout))
    );
    assert_eq!(
        action_for(BuildStep::Configure, &layout, &plan, "make"),
        BuildAction::Run(expected_configure())
    );
    assert_eq!(
        action_for(BuildStep::BuildInstall, &layout, &plan, "make"),
        BuildAction::Run(install_command("make".to_string(), &layout))
    );
}

#[test]
fn actions_act_on_the_staging_dir_of_the_layout() {
    let context = cross_32_bit();
    let plan = plan_configuration(&context, &resolve_layout(&context), PlatformFamily::Other);
    let layout = Layout {
        staging_dir: "/elsewhere".to_string(),
        install_prefix: "/p".to_string(),
        library_dir: "/p/lib".to_string(),
    };
    assert_eq!(
        action_for(BuildStep::CleanStaging, &layout, &plan, "make"),
        BuildAction::RemoveTree("/elsewhere".to_string())
    );
    match action_for(BuildStep::BuildInstall, &layout, &plan, "make") {
        BuildAction::Run(invocation) => {
            assert_eq!(invocation.working_dir, Some("/elsewhere".to_string()))
        }
        other => panic!("{:?}", other),
    }
}

#[test]
fn invocation_clone_is_equal() {
    let first = expected_configure();
    assert_eq!(first.clone(), first);
}

#[test]
fn action_clone_is_equal() {
    let remove = BuildAction::RemoveTree("/out/build-staging".to_string());
    assert_eq!(remove.clone(), remove);
    let run = BuildAction::Run(expected_configure());
    assert_eq!(run.clone(), run);
}
