//! What the application and its packaging task hand to the outside world:
//! the user agent of the runtime, the entry module and the command line of
//! the packaged build.

use vstd::prelude::*;

verus! {

/// The archive that holds the application's resources.
pub const RESOURCE_ARCHIVE: &'static str = "resources.spx";

/// The module the runtime starts with.
pub const ENTRYPOINT: &'static str = "spx://resources.spx/main.js";

/// The directory name the packaging task writes archives under.
pub const SPX_OUT: &'static str = "spx";

/// The package the packaging task builds.
pub const PACKAGE: &'static str = "storyboard";

/// The user agent of the runtime: the package name and version, joined by
/// a slash.
pub fn user_agent(name: &str, version: &str) -> (agent: String)
    ensures
        agent@ == name@ + "/"@ + version@,
{
    let mut agent = String::from_str(name);
    agent.append("/");
    agent.append(version);
    agent
}

/// The arguments of the `cargo` run that builds the package: `build
/// --package storyboard`, then `cargo_args` as given.
pub fn cargo_build_args(cargo_args: Vec<String>) -> (args: Vec<String>)
    ensures
        args.deep_view() == seq!["build"@, "--package"@, PACKAGE@] + cargo_args.deep_view(),
{
    let mut args: Vec<String> = Vec::new();
    args.push(String::from_str("build"));
    args.push(String::from_str("--package"));
    args.push(String::from_str(PACKAGE));
    let ghost prefix = seq!["build"@, "--package"@, PACKAGE@];
    assert(args.deep_view() =~= prefix);
    let mut i: usize = 0;
    while i < cargo_args.len()
        invariant
            i <= cargo_args@.len(),
            args.deep_view() =~= prefix + cargo_args.deep_view().take(i as int),
        decreases cargo_args@.len() - i,
    {
        let ghost before = args.deep_view();
        let arg = cargo_args[i].clone();
        args.push(arg);
        assert(args.deep_view() =~= before.push(cargo_args@[i as int]@));
        assert(cargo_args.deep_view().take(i as int + 1) =~= cargo_args.deep_view().take(
            i as int,
        ).push(cargo_args@[i as int]@));
        i = i + 1;
    }
    assert(cargo_args.deep_view().take(cargo_args@.len() as int) =~= cargo_args.deep_view());
    args
}

} // verus!
