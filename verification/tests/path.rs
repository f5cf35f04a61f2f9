use libffi_build::path::{join, to_msys_path};

#[test]
fn join_puts_a_forward_slash_between() {
    assert_eq!(join("/out", "build-staging"), "/out/build-staging");
    assert_eq!(join("C:\\out", "install-root"), "C:\\out/install-root");
}

#[test]
fn join_of_empty_parts() {
    assert_eq!(join("", "lib"), "/lib");
    assert_eq!(join("/out", ""), "/out/");
}

#[test]
fn msys_form_of_a_lower_case_drive() {
    assert_eq!(to_msys_path("c:\\a\\b"), "/c/a/b");
}

#[test]
fn msys_form_keeps_the_case_of_the_drive_letter() {
    assert_eq!(to_msys_path("C:\\a\\b"), "/C/a/b");
    assert_eq!(to_msys_path("D:\\Users\\Me\\out"), "/D/Users/Me/out");
}

#[test]
fn msys_form_of_a_bare_drive() {
    assert_eq!(to_msys_path("C:\\"), "/C/");
}

#[test]
fn msys_form_of_the_empty_path() {
    assert_eq!(to_msys_path(""), "/");
}

#[test]
fn msys_form_keeps_forward_slashes() {
    assert_eq!(to_msys_path("C:\\out/install-root"), "/C/out/install-root");
}

#[test]
fn msys_form_of_a_path_without_drive_is_still_computed() {
    assert_eq!(to_msys_path("a\\b"), "/a/b");
    assert_eq!(to_msys_path("/usr/local"), "//usr/local");
}

#[test]
fn msys_form_of_a_path_with_a_stray_colon_is_computed_not_rejected() {
    assert_eq!(to_msys_path("C:\\a:b\\c"), "/C/a:b/c");
    assert_eq!(to_msys_path("C:\\a:\\b"), "/C/a/b");
    assert_eq!(to_msys_path("a:"), "/a:");
    assert_eq!(to_msys_path("a::\\b"), "/a:/b");
    assert_eq!(to_msys_path(":"), "/:");
    assert_eq!(to_msys_path("::"), "/::");
}

#[test]
fn msys_form_agrees_with_two_replacements_and_a_prepended_slash() {
    let samples = [
        "C:\\a\\b",
        "c:\\",
        "",
        ":",
        ":\\",
        "\\:",
        "x:\\y:\\z",
        "\\\\server\\share",
        "a:b:\\c\\:d",
        ":::\\\\\\",
        "é:\\ü\\ß",
    ];
    for sample in samples {
        let mut expected = sample.replace(":\\", "/").replace("\\", "/");
        expected.insert(0, '/');
        assert_eq!(to_msys_path(sample), expected, "for {:?}", sample);
    }
}

#[test]
fn msys_form_can_be_undone_on_drive_rooted_paths() {
    for windows in ["c:\\a\\b", "C:\\", "Z:\\one\\two\\three.txt"] {
        let msys = to_msys_path(windows);
        let mut chars = msys.chars();
        assert_eq!(chars.next(), Some('/'));
        let drive = chars.next().unwrap();
        let rest: String = chars.map(|c| if c == '/' { '\\' } else { c }).collect();
        assert_eq!(format!("{}:{}", drive, rest), windows);
    }
}
