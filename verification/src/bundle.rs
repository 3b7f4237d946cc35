//! What the build tool runs and where it puts things when it bundles the
//! extension: the cargo invocations, the target directories, and the files
//! that go into the addon.

use vstd::prelude::*;
use crate::keycode::TargetOs;
use crate::paths::{join_path, joined};

verus! {

/// The cargo profile directory of a build.
pub open spec fn profile_of(release: bool) -> Seq<char> {
    if release {
        "release"@
    } else {
        "debug"@
    }
}

/// The cargo profile directory of a build.
pub fn profile_name(release: bool) -> (r: &'static str)
    ensures
        r@ == profile_of(release),
{
    if release {
        "release"
    } else {
        "debug"
    }
}

/// The text of a list of arguments.
pub open spec fn args_view(v: Seq<&str>) -> Seq<Seq<char>> {
    v.map_values(|a: &str| a@)
}

/// `args`, followed by `--release` for a release build.
pub open spec fn with_profile(args: Seq<Seq<char>>, release: bool) -> Seq<Seq<char>> {
    if release {
        args.push("--release"@)
    } else {
        args
    }
}

/// The cargo arguments that build the extension library.
pub fn library_build_args(release: bool) -> (r: Vec<&'static str>)
    ensures
        args_view(r@) == with_profile(seq!["build"@, "--lib"@, "--package"@, "gdcef"@], release),
{
    let mut v: Vec<&'static str> = Vec::new();
    v.push("build");
    v.push("--lib");
    v.push("--package");
    v.push("gdcef");
    if release {
        v.push("--release");
    }
    assert(args_view(v@) =~= with_profile(
        seq!["build"@, "--lib"@, "--package"@, "gdcef"@],
        release,
    ));
    v
}

/// The cargo arguments that build the helper executable, for the host or
/// for the given target triple.
pub fn helper_build_args<'a>(target: Option<&'a str>, release: bool) -> (r: Vec<&'a str>)
    ensures
        args_view(r@) == with_profile(
            match target {
                Some(t) => seq!["build"@, "--bin"@, "gdcef_helper"@, "--target"@, t@],
                None => seq!["build"@, "--bin"@, "gdcef_helper"@],
            },
            release,
        ),
{
    let mut v: Vec<&'a str> = Vec::new();
    v.push("build");
    v.push("--bin");
    v.push("gdcef_helper");
    match target {
        Some(t) => {
            v.push("--target");
            v.push(t);
        },
        None => {},
    }
    if release {
        v.push("--release");
    }
    assert(args_view(v@) =~= with_profile(
        match target {
            Some(t) => seq!["build"@, "--bin"@, "gdcef_helper"@, "--target"@, t@],
            None => seq!["build"@, "--bin"@, "gdcef_helper"@],
        },
        release,
    ));
    v
}

/// The directory cargo writes to: the given one, or `target` in the
/// workspace.
pub open spec fn target_base_of(os: TargetOs, workspace_root: Seq<char>, custom: Option<Seq<char>>) -> Seq<
    char,
> {
    match custom {
        Some(d) => d,
        None => joined(os, workspace_root, "target"@),
    }
}

fn target_base(os: TargetOs, workspace_root: &str, custom: Option<&str>) -> (r: String)
    ensures
        r@ == target_base_of(
            os,
            workspace_root@,
            match custom {
                Some(d) => Some(d@),
                None => None,
            },
        ),
{
    match custom {
        Some(d) => d.to_string(),
        None => join_path(os, workspace_root, "target"),
    }
}

/// The directory of a build's outputs: the profile directory in cargo's
/// target directory.
pub fn target_dir(os: TargetOs, release: bool, custom: Option<&str>, workspace_root: &str) -> (r:
    String)
    ensures
        r@ == joined(
            os,
            target_base_of(
                os,
                workspace_root@,
                match custom {
                    Some(d) => Some(d@),
                    None => None,
                },
            ),
            profile_of(release),
        ),
{
    let base = target_base(os, workspace_root, custom);
    join_path(os, base.as_str(), profile_name(release))
}

/// The directory of a build's outputs for a target triple.
pub fn target_dir_for_target(
    os: TargetOs,
    release: bool,
    target: &str,
    custom: Option<&str>,
    workspace_root: &str,
) -> (r: String)
    ensures
        r@ == joined(
            os,
            joined(
                os,
                target_base_of(
                    os,
                    workspace_root@,
                    match custom {
                        Some(d) => Some(d@),
                        None => None,
                    },
                ),
                target@,
            ),
            profile_of(release),
        ),
{
    let base = target_base(os, workspace_root, custom);
    let with_target = join_path(os, base.as_str(), target);
    join_path(os, with_target.as_str(), profile_name(release))
}

/// The addon directory that receives a platform's binaries.
pub fn addon_bin_dir(os: TargetOs, workspace_root: &str, platform_target: &str) -> (r: String)
    ensures
        r@ == joined(os, joined(os, workspace_root@, "addons/godot_cef/bin"@), platform_target@),
{
    let bin = join_path(os, workspace_root, "addons/godot_cef/bin");
    join_path(os, bin.as_str(), platform_target)
}

} // verus!
