//! Where the client finds its server.

use vstd::prelude::*;

verus! {

/// An IPv4 address and a port.
#[derive(Clone, Copy, Debug, PartialEq, Eq, Structural)]
pub struct ServerAddr {
    pub ip: Ipv4,
    pub port: u16,
}

/// The four octets of an IPv4 address, first to last.
#[derive(Clone, Copy, Debug, PartialEq, Eq, Structural)]
pub struct Ipv4(pub u8, pub u8, pub u8, pub u8);

/// How to reach the server through Steam.
#[derive(Clone, Copy, Debug, PartialEq, Eq, Structural)]
pub struct SteamConfig {
    pub server_addr: ServerAddr,
    pub app_id: u32,
}

/// The configuration used when none is given: a server on this machine, and the
/// application id of the public Space Wars demo.
pub open spec fn default_steam_config() -> SteamConfig {
    SteamConfig {
        server_addr: ServerAddr { ip: Ipv4(127, 0, 0, 1), port: 27015 },
        app_id: 480,
    }
}

impl Default for SteamConfig {
    fn default() -> (config: SteamConfig)
        ensures
            config == default_steam_config(),
    {
        SteamConfig {
            server_addr: ServerAddr { ip: Ipv4(127, 0, 0, 1), port: 27015 },
            app_id: 480,
        }
    }
}

} // verus!
