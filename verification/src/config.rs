use vstd::prelude::*;

verus! {

/// The application's configuration: the OAuth client identifier used to
/// reach the remote service. Read from the environment or a config file at
/// startup; how it is read is the shell's business.
#[derive(Clone, Debug)]
pub struct AppConfig {
    pub client_id: String,
}

impl AppConfig {
    /// Wraps a client identifier.
    pub fn new(client_id: String) -> (r: AppConfig)
        ensures
            r.client_id == client_id,
    {
        AppConfig { client_id }
    }
}

} // verus!
