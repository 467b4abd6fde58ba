//! The global configuration registry: one resolved `Config` per known
//! environment plus the active environment tag, and the parser that
//! validates a parsed document and overlays its per-environment sections
//! onto the defaults.

use vstd::prelude::*;
use vstd::string::StringExecFns;

use crate::conf::config::config_equiv;
use crate::conf::config::spec_default;
use crate::conf::config::spec_default_from;
use crate::conf::config::Config;
use crate::conf::config::ConfigView;
use crate::conf::config::Database;
use crate::conf::config::DatabaseView;
use crate::conf::error::ConfigError;
use crate::conf::error::ConfigErrorView;
use crate::conf::paths::parent_of;
use crate::conf::table::kind_str;
use crate::conf::table::lookup;
use crate::conf::table::parse_toml_text;
use crate::conf::table::spec_kind_str;
use crate::conf::table::spec_lookup;
use crate::conf::table::toml_tree;
use crate::conf::table::Item;
use crate::env::spec_env_alias;
use crate::env::Env;

verus! {

/// One resolved `Config` per environment, plus the active environment.
/// Construction populates every environment in a single step, so lookup
/// is total.
#[derive(Debug)]
pub struct GlobalConfig {
    pub env: Env,
    pub dev: Config,
    pub prod: Config,
}

/// The mathematical shape of a `GlobalConfig`.
pub ghost struct GlobalConfigView {
    pub env: Env,
    pub dev: ConfigView,
    pub prod: ConfigView,
}

impl View for GlobalConfig {
    type V = GlobalConfigView;

    open spec fn view(&self) -> GlobalConfigView {
        GlobalConfigView { env: self.env, dev: self.dev@, prod: self.prod@ }
    }
}

/// The entry of `g` for environment `e`.
pub open spec fn gc_get(g: GlobalConfigView, e: Env) -> ConfigView {
    if e == Env::Dev {
        g.dev
    } else {
        g.prod
    }
}

/// `g` with its entry for environment `e` replaced by `c`.
pub open spec fn gc_set(g: GlobalConfigView, e: Env, c: ConfigView) -> GlobalConfigView {
    if e == Env::Dev {
        GlobalConfigView { dev: c, ..g }
    } else {
        GlobalConfigView { prod: c, ..g }
    }
}

/// Equality of registries: the active environments agree and the two
/// entries agree under configuration equality.
pub open spec fn global_equiv(a: GlobalConfigView, b: GlobalConfigView) -> bool {
    a.env == b.env && config_equiv(a.dev, b.dev) && config_equiv(a.prod, b.prod)
}

impl PartialEq for GlobalConfig {
    fn eq(&self, other: &Self) -> (r: bool) {
        self.env == other.env && self.dev == other.dev && self.prod == other.prod
    }
}

impl vstd::std_specs::cmp::PartialEqSpecImpl for GlobalConfig {
    open spec fn obeys_eq_spec() -> bool {
        true
    }

    open spec fn eq_spec(&self, other: &Self) -> bool {
        global_equiv(self@, other@)
    }
}

/// The baseline registry: both environments at their defaults, anchored at
/// the file path if one is given. A path with no parent directory fails
/// with `BadFilePath`.
pub open spec fn spec_global_defaults(path: Option<Seq<char>>, env: Env, cores: u16) -> Result<
    GlobalConfigView,
    ConfigErrorView,
> {
    match path {
        None => Ok(
            GlobalConfigView {
                env: env,
                dev: spec_default(Env::Dev, cores),
                prod: spec_default(Env::Prod, cores),
            },
        ),
        Some(p) => if parent_of(p) is Some {
            Ok(
                GlobalConfigView {
                    env: env,
                    dev: spec_default_from(Env::Dev, p, cores),
                    prod: spec_default_from(Env::Prod, p, cores),
                },
            )
        } else {
            Err(ConfigErrorView::BadFilePath(p, "no parent directory"@))
        },
    }
}

/// An optional string-valued setting: absent, present with the right
/// shape, or a shape violation.
pub open spec fn spec_opt_str(
    fields: Seq<(String, Item)>,
    key: Seq<char>,
    path: Seq<char>,
) -> Result<Option<Seq<char>>, ConfigErrorView> {
    match spec_lookup(fields, key) {
        None => Ok(None),
        Some(it) => match it {
            Item::Str(s) => Ok(Some(s@)),
            _ => Err(ConfigErrorView::BadType(key, "a string"@, spec_kind_str(it), Some(path))),
        },
    }
}

/// An optional 16-bit-integer setting: a declared integer outside
/// `0..=65535` is a shape violation too.
pub open spec fn spec_opt_u16(
    fields: Seq<(String, Item)>,
    key: Seq<char>,
    path: Seq<char>,
) -> Result<Option<u16>, ConfigErrorView> {
    match spec_lookup(fields, key) {
        None => Ok(None),
        Some(it) => match it {
            Item::Int(i) => if 0 <= i && i <= 65535 {
                Ok(Some(i as u16))
            } else {
                Err(
                    ConfigErrorView::BadType(
                        key,
                        "a 16-bit unsigned integer"@,
                        "integer"@,
                        Some(path),
                    ),
                )
            },
            _ => Err(
                ConfigErrorView::BadType(
                    key,
                    "a 16-bit unsigned integer"@,
                    spec_kind_str(it),
                    Some(path),
                ),
            ),
        },
    }
}

/// The optional database subsection of a section: absent, or a table whose
/// `adapter`, `name` and `pool` entries (each optional, falling back to an
/// empty name and a zero pool) have the right shapes.
pub open spec fn spec_database_of(
    fields: Seq<(String, Item)>,
    path: Seq<char>,
) -> Result<Option<DatabaseView>, ConfigErrorView> {
    match spec_lookup(fields, "database"@) {
        None => Ok(None),
        Some(it) => match it {
            Item::Table(db) => match spec_opt_str(db@, "adapter"@, path) {
                Err(e) => Err(e),
                Ok(adapter) => match spec_opt_str(db@, "name"@, path) {
                    Err(e) => Err(e),
                    Ok(name) => match spec_opt_u16(db@, "pool"@, path) {
                        Err(e) => Err(e),
                        Ok(pool) => Ok(
                            Some(
                                DatabaseView {
                                    adapter: match adapter {
                                        Some(a) => a,
                                        None => Seq::<char>::empty(),
                                    },
                                    name: match name {
                                        Some(n) => n,
                                        None => Seq::<char>::empty(),
                                    },
                                    pool: match pool {
                                        Some(p) => p,
                                        None => 0,
                                    },
                                },
                            ),
                        ),
                    },
                },
            },
            _ => Err(
                ConfigErrorView::BadType(
                    "database"@,
                    "a table"@,
                    spec_kind_str(it),
                    Some(path),
                ),
            ),
        },
    }
}

/// One environment's section overlaid onto its base configuration: the
/// recognized settings — `address`, `port`, `workers` and the `database`
/// subsection — replace the base's values where present; unrecognized
/// entries are ignored. The environment tag and the recorded paths of the
/// base are kept.
pub open spec fn spec_overlay(
    base: ConfigView,
    fields: Seq<(String, Item)>,
    path: Seq<char>,
) -> Result<ConfigView, ConfigErrorView> {
    match spec_opt_str(fields, "address"@, path) {
        Err(e) => Err(e),
        Ok(address) => match spec_opt_u16(fields, "port"@, path) {
            Err(e) => Err(e),
            Ok(port) => match spec_opt_u16(fields, "workers"@, path) {
                Err(e) => Err(e),
                Ok(workers) => match spec_database_of(fields, path) {
                    Err(e) => Err(e),
                    Ok(database) => Ok(
                        ConfigView {
                            address: match address {
                                Some(a) => a,
                                None => base.address,
                            },
                            port: match port {
                                Some(p) => p,
                                None => base.port,
                            },
                            workers: match workers {
                                Some(w) => Some(w),
                                None => base.workers,
                            },
                            database: match database {
                                Some(d) => Some(d),
                                None => base.database,
                            },
                            ..base
                        },
                    ),
                },
            },
        },
    }
}

/// The top-level entries applied in order onto the baseline registry:
/// every entry's value must itself be a table; an entry named by an
/// environment alias is overlaid onto that environment's entry, any other
/// entry is ignored.
pub open spec fn spec_apply_entries(
    g: GlobalConfigView,
    entries: Seq<(String, Item)>,
    path: Seq<char>,
) -> Result<GlobalConfigView, ConfigErrorView>
    decreases entries.len(),
{
    if entries.len() == 0 {
        Ok(g)
    } else {
        let name = entries[0].0;
        let val = entries[0].1;
        match val {
            Item::Table(section) => match spec_env_alias(name@) {
                Some(e) => match spec_overlay(gc_get(g, e), section@, path) {
                    Ok(c) => spec_apply_entries(gc_set(g, e, c), entries.drop_first(), path),
                    Err(err) => Err(err),
                },
                None => spec_apply_entries(g, entries.drop_first(), path),
            },
            _ => Err(
                ConfigErrorView::BadType(name@, "a table"@, spec_kind_str(val), Some(path)),
            ),
        }
    }
}

/// What a parsed document resolves to: a table's entries are validated and
/// overlaid onto the baseline anchored at `path`; any other top-level
/// value is a parse error naming the observed kind.
pub open spec fn spec_from_tree(
    tree: Item,
    raw: Seq<char>,
    path: Seq<char>,
    env: Env,
    cores: u16,
) -> Result<GlobalConfigView, ConfigErrorView> {
    match tree {
        Item::Table(entries) => match spec_global_defaults(Some(path), env, cores) {
            Ok(g) => spec_apply_entries(g, entries@, path),
            Err(e) => Err(e),
        },
        _ => Err(
            ConfigErrorView::ParseError(
                raw,
                path,
                "expected a table, but got a "@ + spec_kind_str(tree),
                None,
            ),
        ),
    }
}

/// Clones an optional string, keeping its characters.
fn clone_opt_string(s: &Option<String>) -> (r: Option<String>)
    ensures
        match s {
            Some(p) => (r matches Some(q) && q@ == p@),
            None => r is None,
        },
{
    match s {
        Some(p) => Some(p.clone()),
        None => None,
    }
}

/// One environment's section overlaid onto its base configuration.
fn overlay_section(base: &Config, fields: &Vec<(String, Item)>, path: &str) -> (r: Result<
    Config,
    ConfigError,
>)
    ensures
        match r {
            Ok(c) => (spec_overlay(base@, fields@, path@) matches Ok(cv) && c@ == cv),
            Err(e) => (spec_overlay(base@, fields@, path@) matches Err(ev) && e@ == ev),
        },
{
    let address: String = match lookup(fields, "address") {
        None => base.address.clone(),
        Some(Item::Str(s)) => s.clone(),
        Some(other) => {
            return Err(
                ConfigError::BadType(
                    "address".to_owned(),
                    "a string",
                    kind_str(other),
                    Some(path.to_owned()),
                ),
            );
        },
    };
    let port: u16 = match lookup(fields, "port") {
        None => base.port,
        Some(Item::Int(i)) => {
            if 0 <= *i && *i <= 65535 {
                *i as u16
            } else {
                return Err(
                    ConfigError::BadType(
                        "port".to_owned(),
                        "a 16-bit unsigned integer",
                        "integer",
                        Some(path.to_owned()),
                    ),
                );
            }
        },
        Some(other) => {
            return Err(
                ConfigError::BadType(
                    "port".to_owned(),
                    "a 16-bit unsigned integer",
                    kind_str(other),
                    Some(path.to_owned()),
                ),
            );
        },
    };
    let workers: Option<u16> = match lookup(fields, "workers") {
        None => base.workers,
        Some(Item::Int(i)) => {
            if 0 <= *i && *i <= 65535 {
                Some(*i as u16)
            } else {
                return Err(
                    ConfigError::BadType(
                        "workers".to_owned(),
                        "a 16-bit unsigned integer",
                        "integer",
                        Some(path.to_owned()),
                    ),
                );
            }
        },
        Some(other) => {
            return Err(
                ConfigError::BadType(
                    "workers".to_owned(),
                    "a 16-bit unsigned integer",
                    kind_str(other),
                    Some(path.to_owned()),
                ),
            );
        },
    };
    let database: Option<Database> = match lookup(fields, "database") {
        None => match &base.database {
            Some(db) => Some(
                Database { adapter: db.adapter.clone(), name: db.name.clone(), pool: db.pool },
            ),
            None => None,
        },
        Some(Item::Table(db_fields)) => {
            let adapter: String = match lookup(db_fields, "adapter") {
                None => String::new(),
                Some(Item::Str(s)) => s.clone(),
                Some(other) => {
                    return Err(
                        ConfigError::BadType(
                            "adapter".to_owned(),
                            "a string",
                            kind_str(other),
                            Some(path.to_owned()),
                        ),
                    );
                },
            };
            let name: String = match lookup(db_fields, "name") {
                None => String::new(),
                Some(Item::Str(s)) => s.clone(),
                Some(other) => {
                    return Err(
                        ConfigError::BadType(
                            "name".to_owned(),
                            "a string",
                            kind_str(other),
                            Some(path.to_owned()),
                        ),
                    );
                },
            };
            let pool: u16 = match lookup(db_fields, "pool") {
                None => 0,
                Some(Item::Int(i)) => {
                    if 0 <= *i && *i <= 65535 {
                        *i as u16
                    } else {
                        return Err(
                            ConfigError::BadType(
                                "pool".to_owned(),
                                "a 16-bit unsigned integer",
                                "integer",
                                Some(path.to_owned()),
                            ),
                        );
                    }
                },
                Some(other) => {
                    return Err(
                        ConfigError::BadType(
                            "pool".to_owned(),
                            "a 16-bit unsigned integer",
                            kind_str(other),
                            Some(path.to_owned()),
                        ),
                    );
                },
            };
            Some(Database { adapter, name, pool })
        },
        Some(other) => {
            return Err(
                ConfigError::BadType(
                    "database".to_owned(),
                    "a table",
                    kind_str(other),
                    Some(path.to_owned()),
                ),
            );
        },
    };
    Ok(
        Config {
            env: base.env,
            address,
            port,
            workers,
            database,
            file_path: clone_opt_string(&base.file_path),
            root_path: clone_opt_string(&base.root_path),
        },
    )
}

impl GlobalConfig {
    /// The entry for environment `env`. Construction populates every
    /// environment, so the lookup is total.
    pub fn get(&self, env: Env) -> (r: &Config)
        ensures
            r@ == gc_get(self@, env),
    {
        match env {
            Env::Dev => &self.dev,
            Env::Prod => &self.prod,
        }
    }

    /// Replaces the entry for environment `env`.
    fn set(&mut self, env: Env, c: Config)
        ensures
            final(self)@ == gc_set(old(self)@, env, c@),
    {
        match env {
            Env::Dev => self.dev = c,
            Env::Prod => self.prod = c,
        }
    }

    /// The baseline registry for the active environment `env`: both known
    /// environments at their defaults, anchored at `filename` if one is
    /// given.
    pub fn active_default_from(filename: Option<&str>, env: Env, cores: u16) -> (r: Result<
        GlobalConfig,
        ConfigError,
    >)
        requires
            cores <= 32767,
        ensures
            ({
                let expected = spec_global_defaults(
                    match filename {
                        Some(p) => Some(p@),
                        None => None,
                    },
                    env,
                    cores,
                );
                match r {
                    Ok(g) => (expected matches Ok(gv) && g@ == gv),
                    Err(e) => (expected matches Err(ev) && e@ == ev),
                }
            }),
    {
        match filename {
            Some(path) => {
                let dev = match Config::default_from(Env::Dev, path, cores) {
                    Ok(c) => c,
                    Err(e) => {
                        return Err(e);
                    },
                };
                let prod = match Config::default_from(Env::Prod, path, cores) {
                    Ok(c) => c,
                    Err(e) => {
                        return Err(e);
                    },
                };
                Ok(GlobalConfig { env, dev, prod })
            },
            None => Ok(
                GlobalConfig {
                    env,
                    dev: Config::default_with_cores(Env::Dev, cores),
                    prod: Config::default_with_cores(Env::Prod, cores),
                },
            ),
        }
    }

    /// Resolves a registry from an already-parsed document tree: the tree
    /// must be a table, each of its entries must be a table, and entries
    /// named by an environment alias are overlaid onto that environment's
    /// defaults, anchored at `filename`.
    pub fn from_tree(tree: Item, raw: String, filename: &str, env: Env, cores: u16) -> (r: Result<
        GlobalConfig,
        ConfigError,
    >)
        requires
            cores <= 32767,
        ensures
            match r {
                Ok(g) => (spec_from_tree(tree, raw@, filename@, env, cores) matches Ok(gv) && g@
                    == gv),
                Err(e) => (spec_from_tree(tree, raw@, filename@, env, cores) matches Err(ev) && e@
                    == ev),
            },
    {
        match tree {
            Item::Table(entries) => {
                let mut g = match GlobalConfig::active_default_from(Some(filename), env, cores) {
                    Ok(g) => g,
                    Err(e) => {
                        return Err(e);
                    },
                };
                let ghost target = spec_apply_entries(g@, entries@, filename@);
                let n = entries.len();
                proof {
                    assert(entries@.skip(0int) =~= entries@);
                }
                let mut i: usize = 0;
                while i < n
                    invariant
                        i <= n,
                        n == entries@.len(),
                        spec_from_tree(tree, raw@, filename@, env, cores) == target,
                        target == spec_apply_entries(g@, entries@.skip(i as int), filename@),
                    decreases n - i,
                {
                    proof {
                        assert(entries@.skip(i as int)[0] == entries@[i as int]);
                        assert(entries@.skip(i as int).drop_first() =~= entries@.skip(
                            i as int + 1,
                        ));
                    }
                    match &entries[i].1 {
                        Item::Table(section) => {
                            match Env::from_alias(entries[i].0.as_str()) {
                                Some(e) => {
                                    let overlaid = match overlay_section(
                                        g.get(e),
                                        section,
                                        filename,
                                    ) {
                                        Ok(c) => c,
                                        Err(err) => {
                                            return Err(err);
                                        },
                                    };
                                    g.set(e, overlaid);
                                },
                                None => {},
                            }
                        },
                        other => {
                            return Err(
                                ConfigError::BadType(
                                    entries[i].0.clone(),
                                    "a table",
                                    kind_str(other),
                                    Some(filename.to_owned()),
                                ),
                            );
                        },
                    }
                    i += 1;
                }
                proof {
                    assert(entries@.skip(n as int) =~= Seq::<(String, Item)>::empty());
                }
                Ok(g)
            },
            other => {
                let mut msg = "expected a table, but got a ".to_owned();
                msg.append(kind_str(&other));
                Err(ConfigError::ParseError(raw, filename.to_owned(), msg, None))
            },
        }
    }

    /// Parses raw document text against the defaults anchored at
    /// `filename`, for the active environment `env`: the text is handed to
    /// the structured-text parser, whose failure becomes a `ParseError`
    /// carrying its message; a parsed tree is then resolved as
    /// `from_tree` does.
    pub fn parse(src: String, filename: &str, env: Env, cores: u16) -> (r: Result<
        GlobalConfig,
        ConfigError,
    >)
        requires
            cores <= 32767,
        ensures
            match toml_tree(src@) {
                Ok(tree) => match r {
                    Ok(g) => (spec_from_tree(tree, src@, filename@, env, cores) matches Ok(gv)
                        && g@ == gv),
                    Err(e) => (spec_from_tree(tree, src@, filename@, env, cores) matches Err(ev)
                        && e@ == ev),
                },
                Err(m) => (r matches Err(e) && e@ == ConfigErrorView::ParseError(
                    src@,
                    filename@,
                    m,
                    None,
                )),
            },
    {
        match parse_toml_text(src.as_str()) {
            Ok(tree) => GlobalConfig::from_tree(tree, src, filename, env, cores),
            Err(msg) => Err(ConfigError::ParseError(src, filename.to_owned(), msg, None)),
        }
    }
}

/// Building the defaults for both environments and then parsing a document
/// whose table holds no entries gives, under configuration equality and
/// with the same active environment, the registry built purely from the
/// in-memory defaults.
pub proof fn lemma_empty_document_round_trip(
    tree: Item,
    raw: Seq<char>,
    path: Seq<char>,
    env: Env,
    cores: u16,
)
    requires
        cores <= 32767,
        tree matches Item::Table(entries) && entries@.len() == 0,
        parent_of(path) is Some,
    ensures
        spec_from_tree(tree, raw, path, env, cores) matches Ok(g) && spec_global_defaults(
            None,
            env,
            cores,
        ) matches Ok(d) && global_equiv(g, d),
{
}

} // verus!
