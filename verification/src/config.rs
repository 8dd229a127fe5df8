use vstd::prelude::*;

verus! {

/// Immutable per-call query configuration. Absent optional fields are never
/// encoded into the connection target.
#[derive(Clone, Debug)]
pub struct QueryConfig {
    pub batch_size: Option<u32>,
    pub max_text_size: Option<u32>,
    pub max_binary_size: Option<u32>,
    pub read_only: bool,
    pub connection_timeout: Option<u32>,
    pub query_timeout: Option<u32>,
    pub isolation_level: Option<String>,
}

/// Default byte cap for variable-length text and binary columns.
pub const DEFAULT_SIZE_CAP: u32 = 65536;

/// The configuration with every optional field absent and read-write access.
pub open spec fn spec_unset_config() -> QueryConfig {
    QueryConfig {
        batch_size: None,
        max_text_size: None,
        max_binary_size: None,
        read_only: false,
        connection_timeout: None,
        query_timeout: None,
        isolation_level: None,
    }
}

impl QueryConfig {
    /// Builds a configuration; a missing read-only flag means read-write.
    pub fn new(
        batch_size: Option<u32>,
        max_text_size: Option<u32>,
        max_binary_size: Option<u32>,
        read_only: Option<bool>,
        connection_timeout: Option<u32>,
        query_timeout: Option<u32>,
        isolation_level: Option<String>,
    ) -> (r: QueryConfig)
        ensures
            r.batch_size == batch_size,
            r.max_text_size == max_text_size,
            r.max_binary_size == max_binary_size,
            r.read_only == (read_only matches Some(true)),
            r.connection_timeout == connection_timeout,
            r.query_timeout == query_timeout,
            r.isolation_level == isolation_level,
    {
        QueryConfig {
            batch_size,
            max_text_size,
            max_binary_size,
            read_only: match read_only {
                Some(b) => b,
                None => false,
            },
            connection_timeout,
            query_timeout,
            isolation_level,
        }
    }

    /// A configuration with every optional field absent and read-write access.
    pub fn unset() -> (r: QueryConfig)
        ensures
            r == spec_unset_config(),
    {
        QueryConfig::new(None, None, None, None, None, None, None)
    }

    /// A field-by-field copy whose contents Verus can track.
    pub fn duplicate(&self) -> (r: QueryConfig)
        ensures
            r == *self,
    {
        QueryConfig {
            batch_size: self.batch_size,
            max_text_size: self.max_text_size,
            max_binary_size: self.max_binary_size,
            read_only: self.read_only,
            connection_timeout: self.connection_timeout,
            query_timeout: self.query_timeout,
            isolation_level: match &self.isolation_level {
                Some(l) => Some(l.clone()),
                None => None,
            },
        }
    }

    /// The text-column cap that the batch reader is to apply.
    pub fn effective_max_text_size(&self) -> (r: u32)
        ensures
            r == match self.max_text_size {
                Some(v) => v,
                None => DEFAULT_SIZE_CAP,
            },
    {
        match self.max_text_size {
            Some(v) => v,
            None => DEFAULT_SIZE_CAP,
        }
    }

    /// The binary-column cap that the batch reader is to apply.
    pub fn effective_max_binary_size(&self) -> (r: u32)
        ensures
            r == match self.max_binary_size {
                Some(v) => v,
                None => DEFAULT_SIZE_CAP,
            },
    {
        match self.max_binary_size {
            Some(v) => v,
            None => DEFAULT_SIZE_CAP,
        }
    }
}

} // verus!
