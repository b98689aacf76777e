use vstd::prelude::*;

use crate::protocol::Protocol;

verus! {

/// Where the Mist API is and how to log in to it.
#[derive(Debug, Clone, PartialEq, Eq)]
pub struct Config {
    /// Base URL of the Mist API.
    pub mist_api_url: String,
    /// User name and password, when the server asks for them.
    pub auth: Option<(String, String)>,
}

/// Builder of a [`Config`].
#[derive(Debug, Clone)]
pub struct ConfigBuilder {
    inner: Config,
}

impl ConfigBuilder {
    /// The configuration that [`ConfigBuilder::build`] gives.
    pub closed spec fn config(&self) -> Config {
        self.inner
    }

    /// Starts a configuration for the API at `base_api_url`, without credentials.
    pub fn new(base_api_url: &str) -> (res: Self)
        ensures
            res.config().mist_api_url@ == base_api_url@,
            res.config().auth is None,
    {
        ConfigBuilder { inner: Config { mist_api_url: base_api_url.to_owned(), auth: None } }
    }

    /// Sets the user name and password.
    pub fn with_auth(self, username: &str, password: &str) -> (res: Self)
        ensures
            res.config().mist_api_url == self.config().mist_api_url,
            res.config().auth matches Some(creds) && creds.0@ == username@ && creds.1@
                == password@,
    {
        let mut inner = self.inner;
        inner.auth = Some((username.to_owned(), password.to_owned()));
        ConfigBuilder { inner }
    }

    /// The configuration.
    pub fn build(self) -> (res: Config)
        ensures
            res == self.config(),
    {
        self.inner
    }
}

/// The configuration of a Mist server, as it reports it.
#[derive(Debug, Clone)]
pub struct MistConfig {
    /// Server identifier.
    pub serverid: String,
    /// Path of the access log, if one is set.
    pub accesslog: Option<String>,
    /// Global debug level, if one is set.
    pub debug: Option<i32>,
    pub session_input_mode: Option<i32>,
    pub session_output_mode: i32,
    pub session_stream_info_mode: String,
    pub session_unspecified_mode: i32,
    /// Default stream name, if one is set.
    pub default_stream: Option<String>,
    pub session_viewer_mode: i32,
    pub time: i32,
    pub tkn_mode: i32,
    pub version: String,
    pub host: String,
    pub iid: String,
    pub mistver: String,
    /// The configured protocols.
    pub protocols: Vec<Protocol>,
}

} // verus!
