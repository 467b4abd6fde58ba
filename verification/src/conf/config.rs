//! The typed configuration record for one environment, its database
//! subsection, and the factory that builds the compiled-in defaults.

use vstd::prelude::*;

use crate::conf::error::ConfigError;
use crate::conf::error::ConfigErrorView;
use crate::conf::paths::parent_of;
use crate::env::Env;

verus! {

/// Database settings, present only when the source declares them.
#[derive(Debug, PartialEq)]
pub struct Database {
    pub adapter: String,
    pub name: String,
    pub pool: u16,
}

/// The resolved settings for one environment.
#[derive(Debug)]
pub struct Config {
    pub env: Env,
    pub address: String,
    pub port: u16,
    pub workers: Option<u16>,
    pub database: Option<Database>,
    pub file_path: Option<String>,
    pub root_path: Option<String>,
}

/// The mathematical shape of a `Database`.
pub ghost struct DatabaseView {
    pub adapter: Seq<char>,
    pub name: Seq<char>,
    pub pool: u16,
}

/// The mathematical shape of a `Config`: every string reduced to its
/// character sequence.
pub ghost struct ConfigView {
    pub env: Env,
    pub address: Seq<char>,
    pub port: u16,
    pub workers: Option<u16>,
    pub database: Option<DatabaseView>,
    pub file_path: Option<Seq<char>>,
    pub root_path: Option<Seq<char>>,
}

impl View for Database {
    type V = DatabaseView;

    open spec fn view(&self) -> DatabaseView {
        DatabaseView { adapter: self.adapter@, name: self.name@, pool: self.pool }
    }
}

impl View for Config {
    type V = ConfigView;

    open spec fn view(&self) -> ConfigView {
        ConfigView {
            env: self.env,
            address: self.address@,
            port: self.port,
            workers: self.workers,
            database: match self.database {
                Some(db) => Some(db@),
                None => None,
            },
            file_path: match self.file_path {
                Some(p) => Some(p@),
                None => None,
            },
            root_path: match self.root_path {
                Some(p) => Some(p@),
                None => None,
            },
        }
    }
}

/// Equality of configurations, for testing and comparison: only the
/// address, the port and the worker count take part. The environment tag,
/// the database section and the recorded paths are excluded.
pub open spec fn config_equiv(a: ConfigView, b: ConfigView) -> bool {
    a.address == b.address && a.port == b.port && a.workers == b.workers
}

impl PartialEq for Config {
    fn eq(&self, other: &Self) -> (r: bool) {
        self.address == other.address && self.port == other.port && match (
        self.workers,
        other.workers,
        ) {
            (Some(a), Some(b)) => a == b,
            (None, None) => true,
            _ => false,
        }
    }
}

impl vstd::std_specs::cmp::PartialEqSpecImpl for Config {
    open spec fn obeys_eq_spec() -> bool {
        true
    }

    open spec fn eq_spec(&self, other: &Self) -> bool {
        config_equiv(self@, other@)
    }
}

/// The compiled-in default configuration for an environment, given the
/// detected core count: it binds `localhost:8080`, runs twice as many
/// workers as there are cores, and has no database section and no recorded
/// paths.
pub open spec fn spec_default(env: Env, cores: u16) -> ConfigView {
    ConfigView {
        env: env,
        address: "localhost"@,
        port: 8080,
        workers: Some((2 * cores) as u16),
        database: None,
        file_path: None,
        root_path: None,
    }
}

/// The default configuration for an environment, anchored at a file path:
/// the file path is recorded, and the root path is its parent directory.
pub open spec fn spec_default_from(env: Env, path: Seq<char>, cores: u16) -> ConfigView {
    ConfigView {
        file_path: Some(path),
        root_path: Some(parent_of(path)->0),
        ..spec_default(env, cores)
    }
}

/// Relies on `num_cpus::get`: the number of logical CPUs available to the
/// process, documented to be at least one.
#[verifier::external_body]
fn cpu_count() -> (n: usize)
    ensures
        1 <= n,
{
    num_cpus::get()
}

/// The detected core count, reduced so that twice the count fits a `u16`.
pub fn detected_cores() -> (r: u16)
    ensures
        r <= 32767,
{
    let n = cpu_count();
    (n % 32768) as u16
}

impl Config {
    /// The default configuration for `env` with an explicit core count.
    pub fn default_with_cores(env: Env, cores: u16) -> (c: Config)
        requires
            cores <= 32767,
        ensures
            c@ == spec_default(env, cores),
    {
        Config {
            env: env,
            address: "localhost".to_owned(),
            port: 8080,
            workers: Some(2 * cores),
            database: None,
            file_path: None,
            root_path: None,
        }
    }

    /// The default configuration for `env`, with the worker count taken
    /// from the machine's detected core count.
    pub fn new(env: Env) -> (c: Config)
        ensures
            exists|cores: u16| cores <= 32767 && c@ == spec_default(env, cores),
            c@.env == env,
            c@.address == "localhost"@,
            c@.port == 8080,
            c@.workers is Some,
            c@.database is None,
            c@.file_path is None,
            c@.root_path is None,
    {
        let cores = detected_cores();
        Config::default_with_cores(env, cores)
    }

    /// Records `path` as the root directory of this configuration.
    pub fn set_root(&mut self, path: &str)
        ensures
            final(self)@ == (ConfigView { root_path: Some(path@), ..old(self)@ }),
    {
        self.root_path = Some(path.to_owned());
    }

    /// The default configuration for `env`, anchored at the configuration
    /// file `path`: the parent directory of `path` becomes the root path
    /// and `path` itself is recorded. A path with no parent directory
    /// fails with `BadFilePath`.
    pub fn default_from(env: Env, path: &str, cores: u16) -> (r: Result<Config, ConfigError>)
        requires
            cores <= 32767,
        ensures
            match r {
                Ok(c) => parent_of(path@) is Some && c@ == spec_default_from(env, path@, cores),
                Err(e) => parent_of(path@) is None && e@ == ConfigErrorView::BadFilePath(
                    path@,
                    "no parent directory"@,
                ),
            },
    {
        let mut config = Config::default_with_cores(env, cores);
        match crate::conf::paths::parent_dir(path) {
            Some(parent) => {
                config.set_root(parent.as_str());
            },
            None => {
                return Err(ConfigError::BadFilePath(path.to_owned(), "no parent directory"));
            },
        }
        config.file_path = Some(path.to_owned());
        Ok(config)
    }
}

} // verus!
