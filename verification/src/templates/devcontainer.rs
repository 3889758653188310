//! Templates of the generated project's development container.

use vstd::prelude::*;

verus! {

/// `.devcontainer/devcontainer.json`.
#[derive(Debug)]
pub struct Json {}

/// `.devcontainer/Dockerfile`.
#[derive(Debug)]
pub struct Dockerfile {}

/// `.devcontainer/setup-git.sh`.
#[derive(Debug)]
pub struct SetupGit {}

/// `.devcontainer/launch.json`.
#[derive(Debug)]
pub struct LaunchJsonExample {}

/// `.devcontainer/.zshrc`.
#[derive(Debug)]
pub struct Zshrc {}

} // verus!
