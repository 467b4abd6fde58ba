use confres::conf::table::Item;
use confres::Config;
use confres::ConfigError;
use confres::Env;
use confres::GlobalConfig;

const FILE: &str = "/srv/app/config/application.toml";

#[test]
fn dev_section_overlays_the_dev_entry_only() {
    let text = "[dev]\naddress = \"example.com\"\nport = 9090".to_string();
    let g = GlobalConfig::parse(text, FILE, Env::Dev, 4).expect("valid document");
    let dev = g.get(Env::Dev);
    assert_eq!(dev.address, "example.com");
    assert_eq!(dev.port, 9090);
    assert_eq!(dev.workers, Some(8), "unmentioned settings keep their defaults");
    assert!(dev.database.is_none());
    assert_eq!(dev.file_path.as_deref(), Some(FILE));
    assert_eq!(dev.root_path.as_deref(), Some("/srv/app/config"));
    let prod = g.get(Env::Prod);
    assert_eq!(prod.address, "localhost");
    assert_eq!(prod.port, 8080);
    assert_eq!(prod.workers, Some(8));
}

#[test]
fn section_named_by_any_alias_overlays_its_environment() {
    let text = "[PRODUCTION]\nport = 443".to_string();
    let g = GlobalConfig::parse(text, FILE, Env::Prod, 2).expect("valid document");
    assert_eq!(g.get(Env::Prod).port, 443);
    assert_eq!(g.get(Env::Dev).port, 8080);
}

#[test]
fn database_section_is_overlaid() {
    let text = "[prod]\n[prod.database]\nadapter = \"postgres\"\nname = \"mydb\"\npool = 20"
        .to_string();
    let g = GlobalConfig::parse(text, FILE, Env::Prod, 4).expect("valid document");
    let db = g.get(Env::Prod).database.as_ref().expect("database declared");
    assert_eq!(db.adapter, "postgres");
    assert_eq!(db.name, "mydb");
    assert_eq!(db.pool, 20);
    assert!(g.get(Env::Dev).database.is_none());
}

#[test]
fn absent_database_fields_fall_back_to_empty_values() {
    let text = "[dev.database]\nadapter = \"pg\"".to_string();
    let g = GlobalConfig::parse(text, FILE, Env::Dev, 4).expect("valid document");
    let db = g.get(Env::Dev).database.as_ref().expect("database declared");
    assert_eq!(db.adapter, "pg");
    assert_eq!(db.name, "");
    assert_eq!(db.pool, 0);
}

#[test]
fn scalar_top_level_entry_fails_with_bad_type() {
    match GlobalConfig::parse("dev = 5".to_string(), FILE, Env::Dev, 4) {
        Err(ConfigError::BadType(name, expected, observed, path)) => {
            assert_eq!(name, "dev");
            assert_eq!(expected, "a table");
            assert_eq!(observed, "integer");
            assert_eq!(path.as_deref(), Some(FILE));
        }
        other => panic!("expected BadType, got {:?}", other),
    }
}

#[test]
fn unrecognized_scalar_entry_fails_with_bad_type_too() {
    match GlobalConfig::parse("staging = true".to_string(), FILE, Env::Dev, 4) {
        Err(ConfigError::BadType(name, expected, observed, _)) => {
            assert_eq!(name, "staging");
            assert_eq!(expected, "a table");
            assert_eq!(observed, "boolean");
        }
        other => panic!("expected BadType, got {:?}", other),
    }
}

#[test]
fn unrecognized_table_entries_are_ignored() {
    let text = "[staging]\nfoo = 1\n[dev]\nbar = \"baz\"".to_string();
    let g = GlobalConfig::parse(text, FILE, Env::Dev, 4).expect("valid document");
    assert_eq!(g.get(Env::Dev).address, "localhost");
    assert_eq!(g.get(Env::Dev).port, 8080);
}

#[test]
fn out_of_range_port_fails_with_bad_type() {
    match GlobalConfig::parse("[dev]\nport = 70000".to_string(), FILE, Env::Dev, 4) {
        Err(ConfigError::BadType(name, expected, observed, path)) => {
            assert_eq!(name, "port");
            assert_eq!(expected, "a 16-bit unsigned integer");
            assert_eq!(observed, "integer");
            assert_eq!(path.as_deref(), Some(FILE));
        }
        other => panic!("expected BadType, got {:?}", other),
    }
}

#[test]
fn wrongly_typed_settings_fail_with_bad_type() {
    match GlobalConfig::parse("[dev]\naddress = 5".to_string(), FILE, Env::Dev, 4) {
        Err(ConfigError::BadType(name, expected, observed, _)) => {
            assert_eq!(name, "address");
            assert_eq!(expected, "a string");
            assert_eq!(observed, "integer");
        }
        other => panic!("expected BadType, got {:?}", other),
    }
    match GlobalConfig::parse("[dev]\nworkers = true".to_string(), FILE, Env::Dev, 4) {
        Err(ConfigError::BadType(name, expected, observed, _)) => {
            assert_eq!(name, "workers");
            assert_eq!(expected, "a 16-bit unsigned integer");
            assert_eq!(observed, "boolean");
        }
        other => panic!("expected BadType, got {:?}", other),
    }
    match GlobalConfig::parse("[dev]\ndatabase = 3".to_string(), FILE, Env::Dev, 4) {
        Err(ConfigError::BadType(name, expected, observed, _)) => {
            assert_eq!(name, "database");
            assert_eq!(expected, "a table");
            assert_eq!(observed, "integer");
        }
        other => panic!("expected BadType, got {:?}", other),
    }
}

#[test]
fn unparsable_text_fails_with_parse_error() {
    match GlobalConfig::parse("= 5".to_string(), FILE, Env::Dev, 4) {
        Err(ConfigError::ParseError(raw, path, message, location)) => {
            assert_eq!(raw, "= 5");
            assert_eq!(path, FILE);
            assert!(!message.is_empty());
            assert_eq!(location, None);
        }
        other => panic!("expected ParseError, got {:?}", other),
    }
}

#[test]
fn non_table_tree_fails_with_parse_error_citing_the_kind() {
    let raw = "pretend source".to_string();
    match GlobalConfig::from_tree(Item::Arr(vec![]), raw, FILE, Env::Dev, 4) {
        Err(ConfigError::ParseError(src, path, message, location)) => {
            assert_eq!(src, "pretend source");
            assert_eq!(path, FILE);
            assert_eq!(message, "expected a table, but got a array");
            assert_eq!(location, None);
        }
        other => panic!("expected ParseError, got {:?}", other),
    }
    match GlobalConfig::from_tree(Item::Int(5), "5".to_string(), FILE, Env::Dev, 4) {
        Err(ConfigError::ParseError(_, _, message, _)) => {
            assert_eq!(message, "expected a table, but got a integer");
        }
        other => panic!("expected ParseError, got {:?}", other),
    }
}

#[test]
fn empty_document_round_trips_to_the_plain_defaults() {
    for env in [Env::Dev, Env::Prod] {
        let direct = GlobalConfig::active_default_from(None, env, 4).expect("defaults");
        let parsed = GlobalConfig::parse(String::new(), FILE, env, 4).expect("empty document");
        assert!(parsed == direct);
    }
}

#[test]
fn active_default_from_records_the_anchor_path() {
    let g = GlobalConfig::active_default_from(Some(FILE), Env::Dev, 4).expect("anchored");
    assert_eq!(g.get(Env::Dev).root_path.as_deref(), Some("/srv/app/config"));
    assert_eq!(g.get(Env::Prod).file_path.as_deref(), Some(FILE));
    assert_eq!(g.env, Env::Dev);
}

#[test]
fn active_default_from_propagates_a_bad_file_path() {
    match GlobalConfig::active_default_from(Some("/"), Env::Dev, 4) {
        Err(ConfigError::BadFilePath(path, reason)) => {
            assert_eq!(path, "/");
            assert_eq!(reason, "no parent directory");
        }
        other => panic!("expected BadFilePath, got {:?}", other),
    }
}

#[test]
fn parse_propagates_a_bad_anchor_path() {
    match GlobalConfig::parse("[dev]\nport = 1".to_string(), "/", Env::Dev, 4) {
        Err(ConfigError::BadFilePath(path, reason)) => {
            assert_eq!(path, "/");
            assert_eq!(reason, "no parent directory");
        }
        other => panic!("expected BadFilePath, got {:?}", other),
    }
}

#[test]
fn registry_lookup_is_total_over_both_environments() {
    let g = GlobalConfig::active_default_from(None, Env::Prod, 3).expect("defaults");
    assert_eq!(g.get(Env::Dev).env, Env::Dev);
    assert_eq!(g.get(Env::Prod).env, Env::Prod);
    assert_eq!(g.env, Env::Prod);
}

#[test]
fn parsed_defaults_equal_directly_built_configs() {
    let g = GlobalConfig::parse(String::new(), FILE, Env::Dev, 6).expect("empty document");
    let direct = Config::default_with_cores(Env::Dev, 6);
    assert!(*g.get(Env::Dev) == direct);
    assert!(*g.get(Env::Prod) == direct);
}
