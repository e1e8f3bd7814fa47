//! The process configuration the pipeline runs under: the application
//! key and OAuth client settings, with the tokens the credential
//! collaborator fills in.

use vstd::prelude::*;

use crate::errors::Error;
use crate::urls::join_url;

verus! {

/// The run's configuration. The core treats the tokens as opaque and
/// immutable for one run; scrubbing them after an unauthorized answer
/// is the credential collaborator's job.
#[derive(Debug)]
pub struct AppConfig {
    pub canonical_url: String,
    pub oauth_path: String,
    pub api_key: String,
    pub client_id: String,
    pub client_secret: String,
    pub access_token: String,
    pub refresh_token: String,
}

impl AppConfig {
    /// The redirection endpoint: the OAuth path resolved against the
    /// canonical URL.
    pub fn oauth_url(&self) -> (r: Result<String, Error>)
        ensures
            match r {
                Ok(u) => crate::urls::resolve_of(self.canonical_url@, self.oauth_path@) == Some(
                    u@,
                ),
                Err(e) => crate::urls::resolve_of(self.canonical_url@, self.oauth_path@) is None
                    && e == Error::BadUrl,
            },
    {
        join_url(self.canonical_url.as_str(), self.oauth_path.as_str())
    }
}

} // verus!
