//! The persisted configuration: a single credential string.  Storage and
//! retrieval live outside the library; here the loaded value is checked.

use vstd::prelude::*;

use crate::errors::Failure;

verus! {

/// The tool's configuration as loaded from the credential store.
pub struct AppConfig {
    pub api_key: String,
}

impl AppConfig {
    pub fn new(api_key: String) -> (r: Self)
        ensures
            r.api_key@ == api_key@,
    {
        AppConfig { api_key }
    }

    /// Accepts the configuration exactly when a credential is present: an
    /// empty credential is the `ConfigurationMissing` failure.
    pub fn check_api_key(&self) -> (r: Result<(), Failure>)
        ensures
            self.api_key@.len() > 0 <==> r is Ok,
            match r {
                Ok(_) => true,
                Err(f) => f is ConfigurationMissing,
            },
    {
        if self.api_key.as_str().is_empty() {
            Err(Failure::ConfigurationMissing)
        } else {
            Ok(())
        }
    }
}

} // verus!
