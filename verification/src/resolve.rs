use vstd::prelude::*;
use vstd::string::*;
use crate::config::QueryConfig;
use crate::strutil::{
    dec_str, eq_ignore_ascii_lower, lower_seq, spec_contains, spec_ends_with, str_contains,
    str_ends_with, u32_dec,
};

verus! {

/// How a host identifier is addressed, in priority order: an explicit
/// driver/server marker wins over path-likeness, which wins over the
/// long-alias length threshold, which wins over the plain alias default.
#[derive(Clone, Copy, Debug, PartialEq, Eq, Structural)]
pub enum AddressingStyle {
    ConnectionString,
    FilePath,
    LongAlias,
    Alias,
}

/// An alias longer than this many characters is not treated as a plain alias.
pub const ALIAS_LENGTH_LIMIT: usize = 32;

/// The host identifier already carries an explicit driver or server marker.
pub open spec fn has_conn_marker(dsn: Seq<char>) -> bool {
    spec_contains(dsn, "DRIVER="@) || spec_contains(dsn, "SERVER="@)
}

/// The host identifier looks like a filesystem path: a path separator, a
/// drive marker, or a known database file extension.
pub open spec fn is_path_like(dsn: Seq<char>) -> bool {
    spec_contains(dsn, "\\"@) || spec_contains(dsn, "/"@) || spec_contains(dsn, ":"@)
        || spec_ends_with(dsn, ".fdb"@) || spec_ends_with(dsn, ".gdb"@)
}

/// The addressing style chosen for a host identifier.
pub open spec fn spec_addressing_style(dsn: Seq<char>) -> AddressingStyle {
    if has_conn_marker(dsn) {
        AddressingStyle::ConnectionString
    } else if is_path_like(dsn) {
        AddressingStyle::FilePath
    } else if dsn.len() > ALIAS_LENGTH_LIMIT {
        AddressingStyle::LongAlias
    } else {
        AddressingStyle::Alias
    }
}

/// The credential suffix appended to every connection target.
pub open spec fn spec_credentials(user: Seq<char>, password: Seq<char>) -> Seq<char> {
    ";UID="@ + user + ";PWD="@ + password + ";"@
}

/// The base connection target before per-call options, per addressing style.
pub open spec fn spec_base_target(dsn: Seq<char>, user: Seq<char>, password: Seq<char>)
    -> Seq<char> {
    match spec_addressing_style(dsn) {
        AddressingStyle::ConnectionString => dsn + spec_credentials(user, password),
        AddressingStyle::FilePath => "DRIVER={InterBase ODBC Driver};DATABASE="@ + dsn
            + spec_credentials(user, password),
        AddressingStyle::LongAlias => "DRIVER={InterBase ODBC Driver};DSN="@ + dsn
            + spec_credentials(user, password),
        AddressingStyle::Alias => "DSN="@ + dsn + spec_credentials(user, password),
    }
}

/// The driver token for an isolation level: a canonical lower-cased name maps
/// to the driver's capitalized token, anything else passes through verbatim.
pub open spec fn spec_isolation_token(level: Seq<char>) -> Seq<char> {
    if lower_seq(level) == "read_uncommitted"@ {
        "ReadUncommitted"@
    } else if lower_seq(level) == "read_committed"@ {
        "ReadCommitted"@
    } else if lower_seq(level) == "repeatable_read"@ {
        "RepeatableRead"@
    } else if lower_seq(level) == "serializable"@ {
        "Serializable"@
    } else if lower_seq(level) == "snapshot"@ {
        "Snapshot"@
    } else {
        level
    }
}

/// The read-only option piece.
pub open spec fn opt_read_only(config: QueryConfig) -> Seq<char> {
    if config.read_only {
        "ReadOnly=1;"@
    } else {
        Seq::<char>::empty()
    }
}

/// The connection-timeout option piece.
pub open spec fn opt_connection_timeout(config: QueryConfig) -> Seq<char> {
    match config.connection_timeout {
        Some(t) => "Connection Timeout="@ + dec_str(t as nat) + ";"@,
        None => Seq::<char>::empty(),
    }
}

/// The query-timeout option piece.
pub open spec fn opt_query_timeout(config: QueryConfig) -> Seq<char> {
    match config.query_timeout {
        Some(t) => "Query Timeout="@ + dec_str(t as nat) + ";"@,
        None => Seq::<char>::empty(),
    }
}

/// The isolation-level option piece.
pub open spec fn opt_isolation(config: QueryConfig) -> Seq<char> {
    match config.isolation_level {
        Some(l) => "Isolation Level="@ + spec_isolation_token(l@) + ";"@,
        None => Seq::<char>::empty(),
    }
}

/// The option suffix for a configuration, in fixed order: read-only flag,
/// connection timeout, query timeout, isolation level. Absent fields add
/// nothing.
pub open spec fn spec_options(config: QueryConfig) -> Seq<char> {
    opt_read_only(config) + opt_connection_timeout(config) + opt_query_timeout(config)
        + opt_isolation(config)
}

/// The full resolved connection target for one call.
pub open spec fn spec_connection_target(
    dsn: Seq<char>,
    user: Seq<char>,
    password: Seq<char>,
    config: QueryConfig,
) -> Seq<char> {
    spec_base_target(dsn, user, password) + spec_options(config)
}

/// Decides the addressing style of a host identifier.
pub fn addressing_style(dsn: &str) -> (r: AddressingStyle)
    ensures
        r == spec_addressing_style(dsn@),
{
    if str_contains(dsn, "DRIVER=") || str_contains(dsn, "SERVER=") {
        AddressingStyle::ConnectionString
    } else if str_contains(dsn, "\\") || str_contains(dsn, "/") || str_contains(dsn, ":")
        || str_ends_with(dsn, ".fdb") || str_ends_with(dsn, ".gdb") {
        AddressingStyle::FilePath
    } else if dsn.unicode_len() > ALIAS_LENGTH_LIMIT {
        AddressingStyle::LongAlias
    } else {
        AddressingStyle::Alias
    }
}

/// Appends the driver token for an isolation level.
fn push_isolation_token(out: &mut String, level: &str)
    ensures
        final(out)@ == old(out)@ + spec_isolation_token(level@),
{
    if eq_ignore_ascii_lower(level, "read_uncommitted") {
        out.append("ReadUncommitted");
    } else if eq_ignore_ascii_lower(level, "read_committed") {
        out.append("ReadCommitted");
    } else if eq_ignore_ascii_lower(level, "repeatable_read") {
        out.append("RepeatableRead");
    } else if eq_ignore_ascii_lower(level, "serializable") {
        out.append("Serializable");
    } else if eq_ignore_ascii_lower(level, "snapshot") {
        out.append("Snapshot");
    } else {
        out.append(level);
    }
}

/// Appends the base connection target for the chosen addressing style.
fn push_base(out: &mut String, dsn: &str, user: &str, password: &str)
    ensures
        final(out)@ == old(out)@ + spec_base_target(dsn@, user@, password@),
{
    let style = addressing_style(dsn);
    match style {
        AddressingStyle::ConnectionString => {
            out.append(dsn);
        },
        AddressingStyle::FilePath => {
            out.append("DRIVER={InterBase ODBC Driver};DATABASE=");
            out.append(dsn);
        },
        AddressingStyle::LongAlias => {
            out.append("DRIVER={InterBase ODBC Driver};DSN=");
            out.append(dsn);
        },
        AddressingStyle::Alias => {
            out.append("DSN=");
            out.append(dsn);
        },
    }
    out.append(";UID=");
    out.append(user);
    out.append(";PWD=");
    out.append(password);
    out.append(";");
    proof {
        assert(out@ =~= old(out)@ + spec_base_target(dsn@, user@, password@));
    }
}

/// Appends the read-only flag when it is set.
fn push_read_only(out: &mut String, config: &QueryConfig)
    ensures
        final(out)@ == old(out)@ + opt_read_only(*config),
{
    if config.read_only {
        out.append("ReadOnly=1;");
    }
    proof {
        assert(out@ =~= old(out)@ + opt_read_only(*config));
    }
}

/// Appends the connection timeout when one is configured.
fn push_connection_timeout(out: &mut String, config: &QueryConfig)
    ensures
        final(out)@ == old(out)@ + opt_connection_timeout(*config),
{
    if let Some(t) = config.connection_timeout {
        out.append("Connection Timeout=");
        let d = u32_dec(t);
        out.append(d.as_str());
        out.append(";");
    }
    proof {
        assert(out@ =~= old(out)@ + opt_connection_timeout(*config));
    }
}

/// Appends the query timeout when one is configured.
fn push_query_timeout(out: &mut String, config: &QueryConfig)
    ensures
        final(out)@ == old(out)@ + opt_query_timeout(*config),
{
    if let Some(t) = config.query_timeout {
        out.append("Query Timeout=");
        let d = u32_dec(t);
        out.append(d.as_str());
        out.append(";");
    }
    proof {
        assert(out@ =~= old(out)@ + opt_query_timeout(*config));
    }
}

/// Appends the isolation-level option when one is configured.
fn push_isolation(out: &mut String, config: &QueryConfig)
    ensures
        final(out)@ == old(out)@ + opt_isolation(*config),
{
    match &config.isolation_level {
        Some(l) => {
            out.append("Isolation Level=");
            push_isolation_token(out, l.as_str());
            out.append(";");
        },
        None => {},
    }
    proof {
        assert(out@ =~= old(out)@ + opt_isolation(*config));
    }
}

/// Resolves (host identifier, user, password, configuration) into a
/// driver-ready connection target. Pure and total: a malformed identifier
/// degrades to best-effort passthrough, never to an error.
pub fn build_connection_string(dsn: &str, user: &str, password: &str, config: &QueryConfig)
    -> (r: String)
    ensures
        r@ == spec_connection_target(dsn@, user@, password@, *config),
{
    let mut out = String::new();
    push_base(&mut out, dsn, user, password);
    push_read_only(&mut out, config);
    push_connection_timeout(&mut out, config);
    push_query_timeout(&mut out, config);
    push_isolation(&mut out, config);
    proof {
        assert(out@ =~= spec_connection_target(dsn@, user@, password@, *config));
    }
    out
}

} // verus!
