//! Servers as configured and as discovered, and the devices the Plex
//! resources API lists.
use vstd::prelude::*;
use crate::text::opt_view;

verus! {

broadcast use vstd::string::group_string_axioms;

/// A media server the user has configured.
#[derive(Debug, Clone)]
pub struct ServerConfig {
    pub id: String,
    pub name: String,
    pub base_url: String,
    pub is_remote: bool,
    pub machine_identifier: Option<String>,
}

/// A configured server as values.
pub struct ServerConfigView {
    pub id: Seq<char>,
    pub name: Seq<char>,
    pub base_url: Seq<char>,
    pub is_remote: bool,
    pub machine_identifier: Option<Seq<char>>,
}

impl View for ServerConfig {
    type V = ServerConfigView;

    open spec fn view(&self) -> ServerConfigView {
        ServerConfigView {
            id: self.id@,
            name: self.name@,
            base_url: self.base_url@,
            is_remote: self.is_remote,
            machine_identifier: opt_view(self.machine_identifier),
        }
    }
}

impl ServerConfig {
    /// A field-by-field copy.
    pub fn duplicate(&self) -> (r: Self)
        ensures
            r@ == self@,
    {
        ServerConfig {
            id: self.id.clone(),
            name: self.name.clone(),
            base_url: self.base_url.clone(),
            is_remote: self.is_remote,
            machine_identifier: match &self.machine_identifier {
                Some(m) => Some(m.clone()),
                None => None,
            },
        }
    }
}

/// A server found on the network or through the resources API.
#[derive(Debug, Clone)]
pub struct DiscoveredServer {
    pub name: String,
    pub base_url: String,
    pub machine_identifier: Option<String>,
}

/// A discovered server as values.
pub struct DiscoveredServerView {
    pub name: Seq<char>,
    pub base_url: Seq<char>,
    pub machine_identifier: Option<Seq<char>>,
}

impl View for DiscoveredServer {
    type V = DiscoveredServerView;

    open spec fn view(&self) -> DiscoveredServerView {
        DiscoveredServerView {
            name: self.name@,
            base_url: self.base_url@,
            machine_identifier: opt_view(self.machine_identifier),
        }
    }
}

/// A device the Plex resources API lists.
#[derive(Debug)]
pub struct PlexResource {
    pub name: String,
    pub provides: Option<String>,
    pub client_identifier: Option<String>,
    pub connections: Vec<PlexConnection>,
}

/// One way to reach a device.
#[derive(Debug)]
pub struct PlexConnection {
    pub protocol: String,
    pub address: String,
    pub port: u16,
    pub uri: Option<String>,
    pub local: Option<bool>,
    pub relay: Option<bool>,
}

} // verus!
