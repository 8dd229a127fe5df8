use vstd::prelude::*;
use vstd::string::*;
use crate::strutil::{spec_contains, str_contains};

verus! {

/// The closed error taxonomy surfaced to callers.
#[derive(Clone, Copy, Debug, PartialEq, Eq, Structural)]
pub enum ErrorKind {
    ConnectionError,
    SqlError,
    ArrowError,
    RuntimeError,
}

/// Classification of raw diagnostic text by substring matching, first match
/// in priority order: connection markers, then SQL markers, then Arrow
/// markers; anything unmatched is a runtime error.
pub open spec fn spec_classify(msg: Seq<char>) -> ErrorKind {
    if spec_contains(msg, "IM002"@) || spec_contains(msg, "connection"@) {
        ErrorKind::ConnectionError
    } else if spec_contains(msg, "SQL"@) || spec_contains(msg, "syntax"@) {
        ErrorKind::SqlError
    } else if spec_contains(msg, "Arrow"@) || spec_contains(msg, "c_data"@) {
        ErrorKind::ArrowError
    } else {
        ErrorKind::RuntimeError
    }
}

/// The label that prefixes a surfaced diagnostic of each category.
pub open spec fn spec_label(k: ErrorKind) -> Seq<char> {
    match k {
        ErrorKind::ConnectionError => "Connection Error: "@,
        ErrorKind::SqlError => "SQL Error: "@,
        ErrorKind::ArrowError => "Arrow Error: "@,
        ErrorKind::RuntimeError => "Runtime Error: "@,
    }
}

/// Maps raw diagnostic text onto the error taxonomy.
pub fn classify(msg: &str) -> (k: ErrorKind)
    ensures
        k == spec_classify(msg@),
{
    if str_contains(msg, "IM002") || str_contains(msg, "connection") {
        ErrorKind::ConnectionError
    } else if str_contains(msg, "SQL") || str_contains(msg, "syntax") {
        ErrorKind::SqlError
    } else if str_contains(msg, "Arrow") || str_contains(msg, "c_data") {
        ErrorKind::ArrowError
    } else {
        ErrorKind::RuntimeError
    }
}

/// A classified failure: the category chosen for the raw diagnostic text,
/// and the surfaced message, which is the raw text behind the category's
/// label.
#[derive(Debug)]
pub struct IbError {
    kind: ErrorKind,
    raw: String,
    text: String,
}

impl IbError {
    /// The category of this error.
    pub closed spec fn spec_kind(&self) -> ErrorKind {
        self.kind
    }

    /// The raw diagnostic text this error was built from.
    pub closed spec fn spec_raw(&self) -> Seq<char> {
        self.raw@
    }

    /// The surfaced message.
    pub closed spec fn spec_message(&self) -> Seq<char> {
        self.text@
    }

    /// The category is the classification of the raw text, and the message
    /// is the raw text behind the category's label.
    pub open spec fn wf(&self) -> bool {
        &&& self.spec_kind() == spec_classify(self.spec_raw())
        &&& self.spec_message() == spec_label(self.spec_kind()) + self.spec_raw()
    }

    /// Classifies raw diagnostic text into an error value.
    pub fn from_text(raw: String) -> (e: IbError)
        ensures
            e.wf(),
            e.spec_kind() == spec_classify(raw@),
            e.spec_raw() == raw@,
    {
        let kind = classify(raw.as_str());
        let mut text = String::new();
        match kind {
            ErrorKind::ConnectionError => text.append("Connection Error: "),
            ErrorKind::SqlError => text.append("SQL Error: "),
            ErrorKind::ArrowError => text.append("Arrow Error: "),
            ErrorKind::RuntimeError => text.append("Runtime Error: "),
        }
        text.append(raw.as_str());
        proof {
            assert(text@ =~= spec_label(kind) + raw@);
        }
        IbError { kind, raw, text }
    }

    /// The category of this error.
    pub fn kind(&self) -> (k: ErrorKind)
        ensures
            k == self.spec_kind(),
    {
        self.kind
    }

    /// The surfaced message: the raw diagnostic text behind the category's
    /// label.
    pub fn message(&self) -> (m: String)
        ensures
            m@ == self.spec_message(),
    {
        self.text.clone()
    }

    /// The raw diagnostic text.
    pub fn raw_text(&self) -> (m: String)
        ensures
            m@ == self.spec_raw(),
    {
        self.raw.clone()
    }
}

} // verus!
