//! The deployment environment: a closed, two-member enumeration together
//! with its (case-insensitive) alias parser and the resolver that picks the
//! active environment from an optional external variable value.

use vstd::prelude::*;

use crate::conf::error::ConfigError;
use crate::conf::error::ConfigErrorView;
use crate::text::seq_ieq;
use crate::text::str_ieq;

verus! {

/// The aliases of an environment, compared ignoring ASCII case: which
/// environment, if any, a raw string selects.
pub open spec fn spec_env_alias(s: Seq<char>) -> Option<Env> {
    if seq_ieq(s, "dev"@) || seq_ieq(s, "d"@) || seq_ieq(s, "development"@) || seq_ieq(
        s,
        "devel"@,
    ) {
        Some(Env::Dev)
    } else if seq_ieq(s, "p"@) || seq_ieq(s, "prod"@) || seq_ieq(s, "production"@) {
        Some(Env::Prod)
    } else {
        None
    }
}

/// The deployment mode a configuration is resolved for.
#[derive(Hash, PartialEq, Eq, Structural, Debug, Clone, Copy)]
pub enum Env {
    Dev,
    Prod,
}

impl Env {
    pub fn is_dev(self) -> (r: bool)
        ensures
            r == (self == Env::Dev),
    {
        self == Env::Dev
    }

    pub fn is_prod(self) -> (r: bool)
        ensures
            r == (self == Env::Prod),
    {
        self == Env::Prod
    }

    /// Parses an environment from one of its aliases, ignoring ASCII case.
    /// Every unsupported string yields `None`.
    pub fn from_alias(s: &str) -> (r: Option<Env>)
        ensures
            r == spec_env_alias(s@),
    {
        if str_ieq(s, "dev") || str_ieq(s, "d") || str_ieq(s, "development") || str_ieq(
            s,
            "devel",
        ) {
            Some(Env::Dev)
        } else if str_ieq(s, "p") || str_ieq(s, "prod") || str_ieq(s, "production") {
            Some(Env::Prod)
        } else {
            None
        }
    }

    /// Resolves the active environment from the value of the external
    /// variable, if it was set. An absent variable falls back to a policy
    /// chosen by the build mode: `Dev` for a debug build, `Prod` otherwise.
    /// A present but unrecognized value always fails with `BadEnv`.
    pub fn resolve(raw: Option<String>, debug_build: bool) -> (r: Result<Env, ConfigError>)
        ensures
            match raw {
                None => r == Ok::<Env, ConfigError>(
                    if debug_build {
                        Env::Dev
                    } else {
                        Env::Prod
                    },
                ),
                Some(s) => match spec_env_alias(s@) {
                    Some(e) => r == Ok::<Env, ConfigError>(e),
                    None => (r matches Err(err) && err@ == ConfigErrorView::BadEnv(s@)),
                },
            },
    {
        match raw {
            None => Ok(
                if debug_build {
                    Env::Dev
                } else {
                    Env::Prod
                },
            ),
            Some(s) => match Env::from_alias(s.as_str()) {
                Some(e) => Ok(e),
                None => Err(ConfigError::BadEnv(s)),
            },
        }
    }

    /// The canonical short name of the environment.
    pub fn as_str(self) -> (r: &'static str)
        ensures
            self == Env::Dev ==> r@ == "dev"@,
            self == Env::Prod ==> r@ == "prod"@,
    {
        match self {
            Env::Dev => "dev",
            Env::Prod => "prod",
        }
    }
}

} // verus!
