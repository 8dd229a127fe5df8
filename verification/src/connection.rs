use vstd::prelude::*;
use vstd::string::*;
use crate::config::{spec_unset_config, QueryConfig};
use crate::resolve::{build_connection_string, spec_connection_target};

verus! {

/// A stateless handle over one data source: the credentials and
/// configuration from which each call resolves a fresh connection target.
/// No driver session is kept between calls.
pub struct IbarrowConnection {
    dsn: String,
    user: String,
    password: String,
    config: QueryConfig,
}

impl IbarrowConnection {
    /// The host identifier this handle was built with.
    pub closed spec fn spec_dsn(&self) -> Seq<char> {
        self.dsn@
    }

    /// The user this handle was built with.
    pub closed spec fn spec_user(&self) -> Seq<char> {
        self.user@
    }

    /// The password this handle was built with.
    pub closed spec fn spec_password(&self) -> Seq<char> {
        self.password@
    }

    /// The configuration this handle was built with.
    pub closed spec fn spec_config(&self) -> QueryConfig {
        self.config
    }

    /// Builds a handle; a missing configuration means the all-unset default.
    pub fn new(dsn: &str, user: &str, password: &str, config: Option<&QueryConfig>) -> (r:
        IbarrowConnection)
        ensures
            r.spec_dsn() == dsn@,
            r.spec_user() == user@,
            r.spec_password() == password@,
            r.spec_config() == match config {
                Some(c) => *c,
                None => spec_unset_config(),
            },
    {
        let config = match config {
            Some(c) => c.duplicate(),
            None => QueryConfig::unset(),
        };
        IbarrowConnection {
            dsn: String::from_str(dsn),
            user: String::from_str(user),
            password: String::from_str(password),
            config,
        }
    }

    /// The resolved driver-ready connection target for one call.
    pub fn connection_target(&self) -> (r: String)
        ensures
            r@ == spec_connection_target(
                self.spec_dsn(),
                self.spec_user(),
                self.spec_password(),
                self.spec_config(),
            ),
    {
        build_connection_string(
            self.dsn.as_str(),
            self.user.as_str(),
            self.password.as_str(),
            &self.config,
        )
    }

    /// The configured caps and options for one call.
    pub fn config(&self) -> (r: &QueryConfig)
        ensures
            *r == self.spec_config(),
    {
        &self.config
    }

    /// Sessions are stateless: nothing is pooled, so there is nothing to
    /// release. This exists for compatibility with connection patterns.
    pub fn close(&self) {
    }

    /// The printable description of this handle; the password is never
    /// shown.
    pub fn __repr__(&self) -> (r: String)
        ensures
            r@ == "IbarrowConnection(dsn='"@ + self.spec_dsn() + "', user='"@
                + self.spec_user() + "')"@,
    {
        let mut out = String::new();
        out.append("IbarrowConnection(dsn='");
        out.append(self.dsn.as_str());
        out.append("', user='");
        out.append(self.user.as_str());
        out.append("')");
        proof {
            assert(out@ =~= "IbarrowConnection(dsn='"@ + self.spec_dsn() + "', user='"@
                + self.spec_user() + "')"@);
        }
        out
    }
}

/// Builds a connection handle from credentials and options.
pub fn connect(dsn: &str, user: &str, password: &str, config: Option<&QueryConfig>) -> (r:
    IbarrowConnection)
    ensures
        r.spec_dsn() == dsn@,
        r.spec_user() == user@,
        r.spec_password() == password@,
        r.spec_config() == match config {
            Some(c) => *c,
            None => spec_unset_config(),
        },
{
    IbarrowConnection::new(dsn, user, password, config)
}

} // verus!
