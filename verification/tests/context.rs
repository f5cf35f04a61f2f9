use libffi_build::context::{names_x86_32, BuildContext, PlatformFamily};

#[test]
fn context_keeps_what_it_was_given() {
    let context = BuildContext::new(
        "/out".to_string(),
        "i686-unknown-linux-gnu".to_string(),
        "x86_64-unknown-linux-gnu".to_string(),
    )
    .unwrap();
    assert_eq!(context.output_root(), "/out");
    assert_eq!(context.target_triple(), "i686-unknown-linux-gnu");
    assert_eq!(context.host_triple(), "x86_64-unknown-linux-gnu");
}

#[test]
fn context_needs_a_target() {
    assert_eq!(BuildContext::new("/out".to_string(), String::new(), "x86_64-unknown-linux-gnu".to_string()), None);
}

#[test]
fn context_needs_a_host() {
    assert_eq!(BuildContext::new("/out".to_string(), "x86_64-unknown-linux-gnu".to_string(), String::new()), None);
}

#[test]
fn context_accepts_an_empty_output_root() {
    let context = BuildContext::new(String::new(), "a".to_string(), "b".to_string());
    assert!(context.is_some());
    assert_eq!(context.unwrap().output_root(), "");
}

#[test]
fn equal_triples_make_a_native_build() {
    let context = BuildContext::new(
        "/out".to_string(),
        "x86_64-unknown-linux-gnu".to_string(),
        "x86_64-unknown-linux-gnu".to_string(),
    )
    .unwrap();
    assert!(!context.is_cross());
}

#[test]
fn different_triples_make_a_cross_build() {
    let context = BuildContext::new(
        "/out".to_string(),
        "aarch64-unknown-linux-gnu".to_string(),
        "x86_64-unknown-linux-gnu".to_string(),
    )
    .unwrap();
    assert!(context.is_cross());
    assert!(!context.targets_x86_32());
}

#[test]
fn i686_targets_are_32_bit_x86() {
    assert!(names_x86_32("i686-unknown-linux-gnu"));
    assert!(names_x86_32("i686-pc-windows-gnu"));
    assert!(names_x86_32("i686-"));
}

#[test]
fn the_match_on_the_architecture_is_narrow() {
    assert!(!names_x86_32("x86_64-unknown-linux-gnu"));
    assert!(!names_x86_32("i586-unknown-linux-gnu"));
    assert!(!names_x86_32("i686"));
    assert!(!names_x86_32("I686-unknown-linux-gnu"));
    assert!(!names_x86_32("armv7-i686-"));
    assert!(!names_x86_32(""));
}

#[test]
fn context_knows_a_32_bit_target() {
    let context = BuildContext::new(
        "/out".to_string(),
        "i686-unknown-linux-gnu".to_string(),
        "i686-unknown-linux-gnu".to_string(),
    )
    .unwrap();
    assert!(context.targets_x86_32());
    assert!(!context.is_cross());
}

#[test]
fn platform_families_differ() {
    assert_ne!(PlatformFamily::WindowsMsys, PlatformFamily::Other);
}
