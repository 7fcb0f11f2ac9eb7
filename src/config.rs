use vstd::prelude::*;

verus! {

/// Settings of the backend service: the port it listens on and the database it uses.
pub struct Config {
    port: u16,
    database_url: String,
}

impl Config {
    pub fn new(port: u16, database_url: String) -> (r: Config)
        ensures
            r.port_spec() == port,
            r.database_url_spec() == database_url@,
    {
        Config { port, database_url }
    }

    pub closed spec fn port_spec(&self) -> u16 {
        self.port
    }

    pub closed spec fn database_url_spec(&self) -> Seq<char> {
        self.database_url@
    }

    pub fn port(&self) -> (r: u16)
        ensures
            r == self.port_spec(),
    {
        self.port
    }

    pub fn database_url(&self) -> (r: &str)
        ensures
            r@ == self.database_url_spec(),
    {
        self.database_url.as_str()
    }
}

} // verus!
