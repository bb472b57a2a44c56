use vstd::prelude::*;

verus! {

/// Runtime configuration handed in at the process boundary: the port the
/// HTTP listener binds and the connection string of the relational store.
pub struct AppConfig {
    pub app_port: u16,
    pub database_url: String,
}

impl AppConfig {
    pub fn new(app_port: u16, database_url: String) -> (r: AppConfig)
        ensures
            r.app_port == app_port,
            r.database_url@ == database_url@,
    {
        AppConfig { app_port, database_url }
    }

    pub fn app_port(&self) -> (r: u16)
        ensures
            r == self.app_port,
    {
        self.app_port
    }

    pub fn database_url(&self) -> (r: &str)
        ensures
            r@ == self.database_url@,
    {
        self.database_url.as_str()
    }
}

} // verus!
