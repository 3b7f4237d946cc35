use gdcef::bundle::{addon_bin_dir, helper_build_args, library_build_args, profile_name, target_dir, target_dir_for_target};
use gdcef::keycode::TargetOs;

#[test]
fn cargo_arguments() {
    assert_eq!(library_build_args(false), vec!["build", "--lib", "--package", "gdcef"]);
    assert_eq!(library_build_args(true), vec!["build", "--lib", "--package", "gdcef", "--release"]);
    assert_eq!(helper_build_args(None, false), vec!["build", "--bin", "gdcef_helper"]);
    assert_eq!(
        helper_build_args(Some("aarch64-apple-darwin"), true),
        vec!["build", "--bin", "gdcef_helper", "--target", "aarch64-apple-darwin", "--release"]
    );
}

#[test]
fn target_directories() {
    assert_eq!(profile_name(true), "release");
    assert_eq!(profile_name(false), "debug");
    assert_eq!(target_dir(TargetOs::Linux, false, None, "/ws"), "/ws/target/debug");
    assert_eq!(target_dir(TargetOs::Linux, true, Some("/out"), "/ws"), "/out/release");
    assert_eq!(
        target_dir_for_target(TargetOs::MacOs, true, "x86_64-apple-darwin", None, "/ws"),
        "/ws/target/x86_64-apple-darwin/release"
    );
    assert_eq!(
        addon_bin_dir(TargetOs::Linux, "/ws", "x86_64-unknown-linux-gnu"),
        "/ws/addons/godot_cef/bin/x86_64-unknown-linux-gnu"
    );
}
