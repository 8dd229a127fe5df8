use ibarrow::config::QueryConfig;
use ibarrow::connection::{connect, IbarrowConnection};

#[test]
fn missing_read_only_defaults_to_read_write() {
    let c = QueryConfig::new(None, None, None, None, None, None, None);
    assert!(!c.read_only);
}

#[test]
fn explicit_read_only_is_kept() {
    let c = QueryConfig::new(None, None, None, Some(true), None, None, None);
    assert!(c.read_only);
}

#[test]
fn size_caps_default_to_65536() {
    let c = QueryConfig::unset();
    assert_eq!(c.effective_max_text_size(), 65536);
    assert_eq!(c.effective_max_binary_size(), 65536);
}

#[test]
fn explicit_size_caps_override_the_default() {
    let c = QueryConfig::new(None, Some(1024), Some(2048), None, None, None, None);
    assert_eq!(c.effective_max_text_size(), 1024);
    assert_eq!(c.effective_max_binary_size(), 2048);
}

#[test]
fn new_keeps_every_field() {
    let c = QueryConfig::new(
        Some(500),
        Some(1),
        Some(2),
        Some(false),
        Some(3),
        Some(4),
        Some("snapshot".to_string()),
    );
    assert_eq!(c.batch_size, Some(500));
    assert_eq!(c.max_text_size, Some(1));
    assert_eq!(c.max_binary_size, Some(2));
    assert!(!c.read_only);
    assert_eq!(c.connection_timeout, Some(3));
    assert_eq!(c.query_timeout, Some(4));
    assert_eq!(c.isolation_level.as_deref(), Some("snapshot"));
}

#[test]
fn duplicate_copies_every_field() {
    let c = QueryConfig::new(Some(9), None, None, Some(true), None, Some(7), Some("x".into()));
    let d = c.duplicate();
    assert_eq!(d.batch_size, Some(9));
    assert!(d.read_only);
    assert_eq!(d.query_timeout, Some(7));
    assert_eq!(d.isolation_level.as_deref(), Some("x"));
}

#[test]
fn connection_repr_hides_the_password() {
    let conn = IbarrowConnection::new("mydsn", "sysdba", "masterkey", None);
    let repr = conn.__repr__();
    assert_eq!(repr, "IbarrowConnection(dsn='mydsn', user='sysdba')");
    assert!(!repr.contains("masterkey"));
}

#[test]
fn connection_resolves_its_target() {
    let c = QueryConfig::new(None, None, None, Some(true), None, None, None);
    let conn = IbarrowConnection::new("mydsn", "u", "p", Some(&c));
    assert_eq!(conn.connection_target(), "DSN=mydsn;UID=u;PWD=p;ReadOnly=1;");
}

#[test]
fn connect_builds_the_same_handle() {
    let conn = connect("mydsn", "u", "p", None);
    assert_eq!(conn.connection_target(), "DSN=mydsn;UID=u;PWD=p;");
    conn.close();
}

#[test]
fn connection_keeps_its_config() {
    let c = QueryConfig::new(None, Some(99), None, None, None, None, None);
    let conn = IbarrowConnection::new("d", "u", "p", Some(&c));
    assert_eq!(conn.config().effective_max_text_size(), 99);
}
