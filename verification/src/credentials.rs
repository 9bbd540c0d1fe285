use crate::servers::RithmicServer;
use crate::systems::RithmicSystem;
use vstd::prelude::*;

verus! {

/// What a client needs to sign in. Loaded once, before any plant connects,
/// and only read afterwards.
#[derive(Debug)]
pub struct RithmicCredentials {
    pub user: String,
    pub server_name: RithmicServer,
    pub system_name: RithmicSystem,
    pub password: String,
    /// The address that transport connections are opened to.
    pub base_url: String,
    pub app_name: String,
    pub app_version: String,
    pub template_version: String,
    /// Whether the server should aggregate quotes for this login.
    pub aggregated_quotes: bool,
}

impl RithmicCredentials {
    /// The name of the file that holds the credentials of this system.
    pub fn file_name(&self) -> (name: String)
        ensures
            name@ == self.system_name.file_name(),
    {
        self.system_name.file_string()
    }
}

} // verus!
