//! The environment variables the policy engine consumes: the tool's own
//! configuration values and the variable git exposes for the commit in
//! progress.  The engine itself never reads the environment; callers look
//! these names up and hand the observed values in.

use vstd::prelude::*;

verus! {

/// Configuration variables of this tool.
#[derive(Debug, PartialEq, Eq, Clone, Copy, Structural)]
pub enum GitUtilEnvVars {
    /// Delimiter-separated list of substrings no staged addition may contain.
    DisallowedStrings,
    /// The one author email commits are allowed to carry.
    UserEmail,
}

/// Variables git itself exposes.
#[derive(Debug, PartialEq, Eq, Clone, Copy, Structural)]
pub enum GitEnvVars {
    /// The author email of the commit in progress.
    AuthorEmail,
}

impl GitUtilEnvVars {
    /// The variable's name in the environment.
    pub fn name(&self) -> (r: &'static str)
        ensures
            *self == GitUtilEnvVars::DisallowedStrings ==> r@ == "GIT_UTIL_DISALLOWED_STRINGS"@,
            *self == GitUtilEnvVars::UserEmail ==> r@ == "GIT_UTIL_USER_EMAIL"@,
    {
        match self {
            GitUtilEnvVars::DisallowedStrings => "GIT_UTIL_DISALLOWED_STRINGS",
            GitUtilEnvVars::UserEmail => "GIT_UTIL_USER_EMAIL",
        }
    }
}

impl GitEnvVars {
    /// The variable's name in the environment.
    pub fn name(&self) -> (r: &'static str)
        ensures
            r@ == "GIT_AUTHOR_EMAIL"@,
    {
        match self {
            GitEnvVars::AuthorEmail => "GIT_AUTHOR_EMAIL",
        }
    }
}

} // verus!
