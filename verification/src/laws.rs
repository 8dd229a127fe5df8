use vstd::prelude::*;
use crate::encode::{spec_emitted, total_rows};
use crate::errors::{spec_classify, ErrorKind};
use crate::resolve::{
    has_conn_marker, is_path_like, spec_addressing_style, spec_isolation_token,
    AddressingStyle, ALIAS_LENGTH_LIMIT,
};
use crate::strutil::{lower_seq, spec_contains};

verus! {

/// For every host identifier the addressing-style choice is deterministic
/// and follows the fixed priority order: an explicit driver/server marker
/// wins over path-likeness, which wins over the length threshold, which
/// wins over the plain alias default.
pub proof fn lemma_addressing_priority(dsn: Seq<char>)
    ensures
        has_conn_marker(dsn) ==> spec_addressing_style(dsn)
            == AddressingStyle::ConnectionString,
        !has_conn_marker(dsn) && is_path_like(dsn) ==> spec_addressing_style(dsn)
            == AddressingStyle::FilePath,
        !has_conn_marker(dsn) && !is_path_like(dsn) && dsn.len() > ALIAS_LENGTH_LIMIT
            ==> spec_addressing_style(dsn) == AddressingStyle::LongAlias,
        !has_conn_marker(dsn) && !is_path_like(dsn) && dsn.len() <= ALIAS_LENGTH_LIMIT
            ==> spec_addressing_style(dsn) == AddressingStyle::Alias,
{
}

/// The length threshold is exact: a marker-free, path-free identifier one
/// character over the limit is synthesized as a long alias, while one at
/// the limit stays a plain alias.
pub proof fn lemma_alias_length_boundary(dsn: Seq<char>)
    requires
        !has_conn_marker(dsn),
        !is_path_like(dsn),
    ensures
        dsn.len() == ALIAS_LENGTH_LIMIT + 1 ==> spec_addressing_style(dsn)
            == AddressingStyle::LongAlias,
        dsn.len() == ALIAS_LENGTH_LIMIT ==> spec_addressing_style(dsn)
            == AddressingStyle::Alias,
{
}

/// The streaming encoder reproduces batch row counts exactly in arrival
/// order whenever at least one batch arrives, and always emits at least one
/// batch, so its output is never a headers-only truncated stream.
pub proof fn lemma_emitted_order(rem: Seq<nat>)
    ensures
        rem.len() > 0 ==> spec_emitted(rem) == rem,
        spec_emitted(rem).len() >= 1,
{
}

/// A result set of zero batches still encodes to a stream with zero total
/// rows: one empty batch, not a truncated stream.
pub proof fn lemma_empty_result_zero_rows()
    ensures
        spec_emitted(Seq::<nat>::empty()) == seq![0nat],
        total_rows(spec_emitted(Seq::<nat>::empty())) == 0,
{
    assert(total_rows(seq![0nat]) == 0 + total_rows(seq![0nat].drop_first()));
    assert(seq![0nat].drop_first().len() == 0);
}

/// Classification is a prioritized rule list: a connection marker wins over
/// an SQL marker, which wins over an Arrow marker; text with no known
/// marker is a runtime error.
pub proof fn lemma_classify_priority(msg: Seq<char>)
    ensures
        spec_contains(msg, "IM002"@) || spec_contains(msg, "connection"@) ==> spec_classify(
            msg,
        ) == ErrorKind::ConnectionError,
        spec_classify(msg) != ErrorKind::ConnectionError && (spec_contains(msg, "SQL"@)
            || spec_contains(msg, "syntax"@)) ==> spec_classify(msg) == ErrorKind::SqlError,
        spec_classify(msg) != ErrorKind::ConnectionError && spec_classify(msg)
            != ErrorKind::SqlError && (spec_contains(msg, "Arrow"@) || spec_contains(
            msg,
            "c_data"@,
        )) ==> spec_classify(msg) == ErrorKind::ArrowError,
        !spec_contains(msg, "IM002"@) && !spec_contains(msg, "connection"@)
            && !spec_contains(msg, "SQL"@) && !spec_contains(msg, "syntax"@)
            && !spec_contains(msg, "Arrow"@) && !spec_contains(msg, "c_data"@)
            ==> spec_classify(msg) == ErrorKind::RuntimeError,
{
}

/// A canonical isolation-level name maps to the driver's capitalized token
/// whatever its letter case; a name that matches no canonical level passes
/// through verbatim.
pub proof fn lemma_isolation_mapping(level: Seq<char>)
    ensures
        lower_seq(level) == "read_committed"@ ==> spec_isolation_token(level)
            == "ReadCommitted"@,
        lower_seq(level) != "read_uncommitted"@ && lower_seq(level) != "read_committed"@
            && lower_seq(level) != "repeatable_read"@ && lower_seq(level)
            != "serializable"@ && lower_seq(level) != "snapshot"@ ==> spec_isolation_token(
            level,
        ) == level,
{
    reveal_strlit("read_uncommitted");
    reveal_strlit("read_committed");
    assert("read_uncommitted"@.len() == 16);
    assert("read_committed"@.len() == 14);
}

} // verus!
