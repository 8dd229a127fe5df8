use ibarrow::errors::{classify, ErrorKind, IbError};

#[test]
fn im002_yields_connection_error() {
    assert_eq!(
        classify("[unixODBC][Driver Manager]Data source name not found IM002"),
        ErrorKind::ConnectionError
    );
}

#[test]
fn connection_keyword_yields_connection_error() {
    assert_eq!(
        classify("the connection was refused by the host"),
        ErrorKind::ConnectionError
    );
}

#[test]
fn sql_keyword_yields_sql_error() {
    assert_eq!(classify("Dynamic SQL Error near token"), ErrorKind::SqlError);
}

#[test]
fn syntax_keyword_yields_sql_error() {
    assert_eq!(classify("syntax error at line 3"), ErrorKind::SqlError);
}

#[test]
fn arrow_keyword_yields_arrow_error() {
    assert_eq!(classify("Arrow schema inference failed"), ErrorKind::ArrowError);
}

#[test]
fn c_data_keyword_yields_arrow_error() {
    assert_eq!(classify("export over c_data failed"), ErrorKind::ArrowError);
}

#[test]
fn unmatched_text_yields_runtime_error() {
    assert_eq!(classify("something completely different"), ErrorKind::RuntimeError);
}

#[test]
fn connection_marker_wins_over_sql_marker() {
    assert_eq!(
        classify("syntax error while opening connection"),
        ErrorKind::ConnectionError
    );
}

#[test]
fn sql_marker_wins_over_arrow_marker() {
    assert_eq!(classify("SQL result not convertible to Arrow"), ErrorKind::SqlError);
}

#[test]
fn classification_is_case_sensitive() {
    assert_eq!(classify("sql trouble"), ErrorKind::RuntimeError);
}

#[test]
fn error_message_carries_category_label() {
    let e = IbError::from_text("syntax error at line 3".to_string());
    assert_eq!(e.kind(), ErrorKind::SqlError);
    assert_eq!(e.message(), "SQL Error: syntax error at line 3");
    assert_eq!(e.raw_text(), "syntax error at line 3");
}

#[test]
fn connection_error_message_label() {
    let e = IbError::from_text("IM002 no data source".to_string());
    assert_eq!(e.kind(), ErrorKind::ConnectionError);
    assert_eq!(e.message(), "Connection Error: IM002 no data source");
}

#[test]
fn arrow_error_message_label() {
    let e = IbError::from_text("Arrow decode stopped".to_string());
    assert_eq!(e.kind(), ErrorKind::ArrowError);
    assert_eq!(e.message(), "Arrow Error: Arrow decode stopped");
}

#[test]
fn runtime_error_message_label() {
    let e = IbError::from_text("nothing matched here".to_string());
    assert_eq!(e.kind(), ErrorKind::RuntimeError);
    assert_eq!(e.message(), "Runtime Error: nothing matched here");
}
