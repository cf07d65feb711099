//! The standalone API server's identity.

use vstd::prelude::*;
use crate::config::ServerSchema;
use crate::server::ServerContext;

verus! {

/// An API server listening on `address:port`.
#[derive(Debug)]
pub struct KPGApi {
    pub name: String,
    pub address: String,
    pub port: u16,
}

impl KPGApi {
    /// An API server with the given name and endpoint.
    pub fn new(name: String, address: String, port: u16) -> (res: KPGApi)
        ensures
            res.name == name,
            res.address == address,
            res.port == port,
    {
        KPGApi { name, address, port }
    }

    /// The server's name.
    pub fn get_name(&self) -> (res: String)
        ensures
            res == self.name,
    {
        self.name.clone()
    }

    /// The endpoint of the server, for whatever schema it is asked about.
    pub fn get_schema(&self, schema: ServerSchema) -> (res: Option<ServerContext>)
        ensures
            res == Some(ServerContext { schema, name: self.name, address: self.address, port: self.port }),
    {
        Some(ServerContext { schema, name: self.name.clone(), address: self.address.clone(), port: self.port })
    }
}

} // verus!
