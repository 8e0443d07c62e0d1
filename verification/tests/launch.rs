use storyboard::launch::{cargo_build_args, user_agent, ENTRYPOINT, PACKAGE, RESOURCE_ARCHIVE};

#[test]
fn user_agent_is_name_slash_version() {
    assert_eq!(user_agent("storyboard", "0.1.0"), "storyboard/0.1.0");
    assert_eq!(user_agent("", ""), "/");
}

#[test]
fn cargo_args_follow_the_build_command() {
    let args = cargo_build_args(vec!["--release".to_string(), "-v".to_string()]);
    assert_eq!(args, vec!["build", "--package", "storyboard", "--release", "-v"]);
}

#[test]
fn cargo_args_without_extra_arguments() {
    assert_eq!(cargo_build_args(Vec::new()), vec!["build", "--package", PACKAGE]);
}

#[test]
fn entrypoint_is_in_the_resource_archive() {
    assert!(ENTRYPOINT.starts_with("spx://"));
    assert!(ENTRYPOINT.contains(RESOURCE_ARCHIVE));
}
