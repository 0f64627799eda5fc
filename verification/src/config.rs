//! Configuration of the request client: the CA certificate path and the
//! backend base URL, each required and non-empty. The caller reads the two
//! values from its environment and hands them over as they were found; an
//! absent value arrives as `None`.

use vstd::prelude::*;
use vstd::string::StringExecFns;

verus! {

/// A validated configuration: both values present and non-empty.
pub struct Config {
    pub ca_cert_path: String,
    pub backend_url: String,
}

impl Config {
    /// Both required values are non-empty.
    pub open spec fn wf(&self) -> bool {
        self.ca_cert_path@.len() > 0 && self.backend_url@.len() > 0
    }
}

/// A rejected configuration, carrying the two values as they were observed —
/// an absent one read as the empty string — so the diagnostic can show them.
pub struct ConfigError {
    pub ca_cert_path: String,
    pub backend_url: String,
}

/// What a raw configuration value reads as: its contents, or empty when
/// absent.
pub open spec fn observed(v: Option<String>) -> Seq<char> {
    match v {
        Some(s) => s@,
        None => Seq::empty(),
    }
}

/// A configuration is accepted exactly when both values are present and
/// non-empty.
pub open spec fn config_accepted(ca_cert_path: Option<String>, backend_url: Option<String>) -> bool {
    observed(ca_cert_path).len() > 0 && observed(backend_url).len() > 0
}

/// Checks the two raw configuration values once, before any resource is
/// acquired: accepted exactly when both are present and non-empty, and either
/// way the result carries the observed contents unchanged.
pub fn validate_config(ca_cert_path: Option<String>, backend_url: Option<String>) -> (r: Result<
    Config,
    ConfigError,
>)
    ensures
        r is Ok <==> config_accepted(ca_cert_path, backend_url),
        r matches Ok(c) ==> c.ca_cert_path@ == observed(ca_cert_path) && c.backend_url@
            == observed(backend_url) && c.wf(),
        r matches Err(e) ==> e.ca_cert_path@ == observed(ca_cert_path) && e.backend_url@
            == observed(backend_url),
{
    let ca = match ca_cert_path {
        Some(s) => s,
        None => String::new(),
    };
    let url = match backend_url {
        Some(s) => s,
        None => String::new(),
    };
    if ca.as_str().is_empty() || url.as_str().is_empty() {
        Err(ConfigError { ca_cert_path: ca, backend_url: url })
    } else {
        Ok(Config { ca_cert_path: ca, backend_url: url })
    }
}

/// The diagnostic printed for a rejected configuration, naming both variables
/// and their observed contents.
pub open spec fn diagnostic_spec(ca_cert_path: Seq<char>, backend_url: Seq<char>) -> Seq<char> {
    "Environment variables CA_CERT_PATH and BACKEND_URL must be set. CA_CERT_PATH='"@
        + ca_cert_path + "', BACKEND_URL='"@ + backend_url + "'"@
}

impl ConfigError {
    pub fn diagnostic(&self) -> (line: String)
        ensures
            line@ == diagnostic_spec(self.ca_cert_path@, self.backend_url@),
    {
        let mut line =
            "Environment variables CA_CERT_PATH and BACKEND_URL must be set. CA_CERT_PATH='".to_owned();
        line.append(self.ca_cert_path.as_str());
        line.append("', BACKEND_URL='");
        line.append(self.backend_url.as_str());
        line.append("'");
        proof {
            assert(line@ =~= diagnostic_spec(self.ca_cert_path@, self.backend_url@));
        }
        line
    }
}

} // verus!
