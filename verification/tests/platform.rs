use pkg_export::platform::invocation_of;
use pkg_export::text::same_text;
use pkg_export::Platform;

fn args(list: &[&str]) -> Vec<String> {
    list.iter().map(|a| a.to_string()).collect()
}

#[test]
fn linux_is_supported() {
    assert_eq!(Platform::probe("linux", args(&["hab", "pkg", "export"])), Platform::Supported);
}

#[test]
fn other_systems_are_not_supported() {
    for os in ["macos", "windows", "freebsd", "Linux", "linux ", ""] {
        assert_eq!(
            Platform::probe(os, args(&["hab", "pkg", "export"])),
            Platform::Unsupported(args(&["hab", "pkg", "export"]))
        );
    }
}

#[test]
fn invocation_joins_two_arguments() {
    assert_eq!(invocation_of(&args(&["programname", "export", "tar"])), "export tar");
}

#[test]
fn invocation_leaves_later_arguments_out() {
    assert_eq!(
        invocation_of(&args(&["hab", "pkg", "export", "docker", "core/redis"])),
        "pkg export"
    );
}

#[test]
fn invocation_without_a_second_argument() {
    assert_eq!(invocation_of(&args(&["hab", "pkg"])), "pkg <unknown>");
}

#[test]
fn invocation_without_arguments() {
    assert_eq!(invocation_of(&args(&["hab"])), "<unknown> <unknown>");
    assert_eq!(invocation_of(&args(&[])), "<unknown> <unknown>");
}

#[test]
fn same_text_compares_whole_strings() {
    assert!(same_text("tar", "tar"));
    assert!(same_text("", ""));
    assert!(!same_text("tar", "tar "));
    assert!(!same_text("tar", "Tar"));
    assert!(!same_text("tar", ""));
}
