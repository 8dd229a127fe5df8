use ibarrow::config::QueryConfig;
use ibarrow::resolve::{addressing_style, build_connection_string, AddressingStyle};

fn unset() -> QueryConfig {
    QueryConfig::unset()
}

#[test]
fn driver_marker_is_used_verbatim() {
    let r = build_connection_string("DRIVER={Some Driver};SERVER=host", "u", "p", &unset());
    assert_eq!(r, "DRIVER={Some Driver};SERVER=host;UID=u;PWD=p;");
}

#[test]
fn server_marker_is_used_verbatim() {
    let r = build_connection_string("SERVER=host;Port=3050", "sysdba", "masterkey", &unset());
    assert_eq!(r, "SERVER=host;Port=3050;UID=sysdba;PWD=masterkey;");
}

#[test]
fn backslash_path_becomes_database_parameter() {
    let r = build_connection_string("C:\\data\\billing.fdb", "u", "p", &unset());
    assert_eq!(
        r,
        "DRIVER={InterBase ODBC Driver};DATABASE=C:\\data\\billing.fdb;UID=u;PWD=p;"
    );
}

#[test]
fn slash_path_becomes_database_parameter() {
    let r = build_connection_string("/srv/data/billing.fdb", "u", "p", &unset());
    assert_eq!(
        r,
        "DRIVER={InterBase ODBC Driver};DATABASE=/srv/data/billing.fdb;UID=u;PWD=p;"
    );
}

#[test]
fn fdb_extension_alone_is_path_like() {
    let r = build_connection_string("billing.fdb", "u", "p", &unset());
    assert_eq!(
        r,
        "DRIVER={InterBase ODBC Driver};DATABASE=billing.fdb;UID=u;PWD=p;"
    );
}

#[test]
fn gdb_extension_alone_is_path_like() {
    assert_eq!(
        addressing_style("legacy.gdb"),
        AddressingStyle::FilePath
    );
}

#[test]
fn colon_is_a_drive_marker() {
    assert_eq!(addressing_style("host:3050"), AddressingStyle::FilePath);
}

#[test]
fn alias_of_33_chars_is_long_alias_style() {
    let dsn = "a".repeat(33);
    assert_eq!(addressing_style(&dsn), AddressingStyle::LongAlias);
    let r = build_connection_string(&dsn, "u", "p", &unset());
    assert_eq!(
        r,
        format!("DRIVER={{InterBase ODBC Driver}};DSN={};UID=u;PWD=p;", dsn)
    );
}

#[test]
fn alias_of_32_chars_is_alias_style() {
    let dsn = "a".repeat(32);
    assert_eq!(addressing_style(&dsn), AddressingStyle::Alias);
    let r = build_connection_string(&dsn, "u", "p", &unset());
    assert_eq!(r, format!("DSN={};UID=u;PWD=p;", dsn));
}

#[test]
fn marker_wins_over_path_likeness() {
    assert_eq!(
        addressing_style("DRIVER={X};DBNAME=C:\\db.fdb"),
        AddressingStyle::ConnectionString
    );
}

#[test]
fn read_only_flag_is_appended() {
    let c = QueryConfig::new(None, None, None, Some(true), None, None, None);
    let r = build_connection_string("mydsn", "u", "p", &c);
    assert_eq!(r, "DSN=mydsn;UID=u;PWD=p;ReadOnly=1;");
}

#[test]
fn timeouts_are_appended_in_order() {
    let c = QueryConfig::new(None, None, None, None, Some(30), Some(60), None);
    let r = build_connection_string("mydsn", "u", "p", &c);
    assert_eq!(r, "DSN=mydsn;UID=u;PWD=p;Connection Timeout=30;Query Timeout=60;");
}

#[test]
fn isolation_read_committed_any_case_maps_to_token() {
    for level in ["read_committed", "READ_COMMITTED", "Read_Committed"] {
        let c = QueryConfig::new(None, None, None, None, None, None, Some(level.to_string()));
        let r = build_connection_string("mydsn", "u", "p", &c);
        assert_eq!(r, "DSN=mydsn;UID=u;PWD=p;Isolation Level=ReadCommitted;");
    }
}

#[test]
fn every_canonical_isolation_level_maps() {
    let cases = [
        ("read_uncommitted", "ReadUncommitted"),
        ("read_committed", "ReadCommitted"),
        ("repeatable_read", "RepeatableRead"),
        ("serializable", "Serializable"),
        ("snapshot", "Snapshot"),
    ];
    for (level, token) in cases {
        let c = QueryConfig::new(None, None, None, None, None, None, Some(level.to_string()));
        let r = build_connection_string("mydsn", "u", "p", &c);
        assert_eq!(r, format!("DSN=mydsn;UID=u;PWD=p;Isolation Level={};", token));
    }
}

#[test]
fn unrecognized_isolation_level_passes_through() {
    let c = QueryConfig::new(None, None, None, None, None, None, Some("custom_level".to_string()));
    let r = build_connection_string("mydsn", "u", "p", &c);
    assert_eq!(r, "DSN=mydsn;UID=u;PWD=p;Isolation Level=custom_level;");
}

#[test]
fn absent_options_add_nothing() {
    let r = build_connection_string("mydsn", "u", "p", &unset());
    assert_eq!(r, "DSN=mydsn;UID=u;PWD=p;");
}

#[test]
fn all_options_appear_in_fixed_order() {
    let c = QueryConfig::new(
        Some(1024),
        Some(100),
        Some(200),
        Some(true),
        Some(5),
        Some(10),
        Some("snapshot".to_string()),
    );
    let r = build_connection_string("mydsn", "u", "p", &c);
    assert_eq!(
        r,
        "DSN=mydsn;UID=u;PWD=p;ReadOnly=1;Connection Timeout=5;Query Timeout=10;Isolation Level=Snapshot;"
    );
}
