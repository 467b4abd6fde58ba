use confres::Config;
use confres::ConfigError;
use confres::Env;

#[test]
fn defaults_bind_localhost_8080_with_doubled_workers() {
    for env in [Env::Dev, Env::Prod] {
        let c = Config::default_with_cores(env, 4);
        assert_eq!(c.env, env);
        assert_eq!(c.address, "localhost");
        assert_eq!(c.port, 8080);
        assert_eq!(c.workers, Some(8));
        assert!(c.database.is_none());
        assert!(c.file_path.is_none());
        assert!(c.root_path.is_none());
    }
}

#[test]
fn default_workers_are_twice_the_injected_cores() {
    assert_eq!(Config::default_with_cores(Env::Dev, 1).workers, Some(2));
    assert_eq!(Config::default_with_cores(Env::Dev, 12).workers, Some(24));
    assert_eq!(Config::default_with_cores(Env::Prod, 0).workers, Some(0));
    assert_eq!(Config::default_with_cores(Env::Prod, 32767).workers, Some(65534));
}

#[test]
fn new_detects_cores_and_keeps_the_other_defaults() {
    let c = Config::new(Env::Dev);
    assert_eq!(c.env, Env::Dev);
    assert_eq!(c.address, "localhost");
    assert_eq!(c.port, 8080);
    let w = c.workers.expect("defaulted worker count");
    assert_eq!(w % 2, 0);
    assert!(c.database.is_none());
}

#[test]
fn default_from_records_the_file_and_its_parent() {
    let c = Config::default_from(Env::Dev, "/a/b/config/application.toml", 4)
        .expect("path has a parent");
    assert_eq!(c.file_path.as_deref(), Some("/a/b/config/application.toml"));
    assert_eq!(c.root_path.as_deref(), Some("/a/b/config"));
    assert_eq!(c.address, "localhost");
    assert_eq!(c.port, 8080);
}

#[test]
fn default_from_fails_without_a_parent_directory() {
    for path in ["/", "", "application.toml"] {
        match Config::default_from(Env::Prod, path, 4) {
            Err(ConfigError::BadFilePath(p, reason)) => {
                assert_eq!(p, path);
                assert_eq!(reason, "no parent directory");
            }
            other => panic!("expected BadFilePath, got {:?}", other),
        }
    }
}

#[test]
fn set_root_records_the_root_path() {
    let mut c = Config::default_with_cores(Env::Dev, 2);
    c.set_root("/srv/app/config");
    assert_eq!(c.root_path.as_deref(), Some("/srv/app/config"));
}

#[test]
fn equality_covers_address_port_and_workers_only() {
    let a = Config::default_with_cores(Env::Dev, 4);
    let b = Config::default_with_cores(Env::Prod, 4);
    assert!(a == b, "the environment tag is excluded from equality");

    let mut c = Config::default_with_cores(Env::Dev, 4);
    c.set_root("/somewhere");
    assert!(a == c, "paths are excluded from equality");

    let d = Config::default_with_cores(Env::Dev, 5);
    assert!(a != d, "worker counts differ");

    let mut e = Config::default_with_cores(Env::Dev, 4);
    e.port = 8081;
    assert!(a != e, "ports differ");

    let mut f = Config::default_with_cores(Env::Dev, 4);
    f.address = "0.0.0.0".to_string();
    assert!(a != f, "addresses differ");
}
