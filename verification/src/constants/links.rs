//! Where the project lives.

use vstd::prelude::*;

verus! {

/// The repository of the project.
pub const GITHUB_REPO: &'static str = "https://github.com/lealtt/fumo";

} // verus!
