use libffi_build::context::BuildContext;
use libffi_build::layout::{resolve_layout, Layout};

fn context(root: &str, target: &str, host: &str) -> BuildContext {
    BuildContext::new(root.to_string(), target.to_string(), host.to_string()).unwrap()
}

#[test]
fn layout_of_a_64_bit_build() {
    let layout = resolve_layout(&context("/out", "x86_64-unknown-linux-gnu", "x86_64-unknown-linux-gnu"));
    assert_eq!(
        layout,
        Layout {
            staging_dir: "/out/build-staging".to_string(),
            install_prefix: "/out/install-root".to_string(),
            library_dir: "/out/install-root/lib".to_string(),
        }
    );
}

#[test]
fn layout_of_a_32_bit_build() {
    let layout = resolve_layout(&context("/out", "i686-unknown-linux-gnu", "x86_64-unknown-linux-gnu"));
    assert_eq!(
        layout,
        Layout {
            staging_dir: "/out/build-staging".to_string(),
            install_prefix: "/out/install-root".to_string(),
            library_dir: "/out/install-root/lib32".to_string(),
        }
    );
}

#[test]
fn library_dir_ends_in_lib32_for_every_i686_target() {
    for target in ["i686-unknown-linux-gnu", "i686-pc-windows-gnu", "i686-apple-darwin", "i686-"] {
        let layout = resolve_layout(&context("/tmp/o", target, "x86_64-unknown-linux-gnu"));
        assert!(layout.library_dir.ends_with("/lib32"), "{}", target);
        assert!(!layout.library_dir.ends_with("/lib"), "{}", target);
    }
}

#[test]
fn library_dir_ends_in_lib_for_every_other_target() {
    for target in ["x86_64-unknown-linux-gnu", "aarch64-apple-darwin", "i586-unknown-linux-gnu", "i686", "x"] {
        let layout = resolve_layout(&context("/tmp/o", target, "x86_64-unknown-linux-gnu"));
        assert!(layout.library_dir.ends_with("/lib"), "{}", target);
        assert!(!layout.library_dir.ends_with("/lib32"), "{}", target);
    }
}

#[test]
fn library_dir_lies_below_the_install_prefix() {
    let layout = resolve_layout(&context("/o", "i686-unknown-linux-gnu", "i686-unknown-linux-gnu"));
    assert_eq!(layout.library_dir, format!("{}/lib32", layout.install_prefix));
    let layout = resolve_layout(&context("/o", "riscv64gc-unknown-linux-gnu", "x86_64-unknown-linux-gnu"));
    assert_eq!(layout.library_dir, format!("{}/lib", layout.install_prefix));
}

#[test]
fn layout_does_not_depend_on_the_host() {
    let one = resolve_layout(&context("/o", "i686-unknown-linux-gnu", "i686-unknown-linux-gnu"));
    let other = resolve_layout(&context("/o", "i686-unknown-linux-gnu", "x86_64-unknown-linux-gnu"));
    assert_eq!(one, other);
}

#[test]
fn layout_below_a_windows_output_root() {
    let layout = resolve_layout(&context("C:\\out", "x86_64-pc-windows-gnu", "x86_64-pc-windows-gnu"));
    assert_eq!(layout.staging_dir, "C:\\out/build-staging");
    assert_eq!(layout.install_prefix, "C:\\out/install-root");
    assert_eq!(layout.library_dir, "C:\\out/install-root/lib");
}
