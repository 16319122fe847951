use vstd::prelude::*;
use crate::cidr::Cidr;

verus! {

/// The MTU a configuration gets unless another is set.
pub const DEFAULT_MTU: u32 = 1500;

/// Which end of the tunnel this host is.
#[derive(Clone, Copy, Debug, PartialEq, Eq, Structural)]
pub enum Role {
    Client,
    Server,
}

/// Why a configuration was refused before any device or command was touched.
#[derive(Clone, Copy, Debug, PartialEq, Eq, Structural)]
pub enum ConfigError {
    ZeroMtu,
    InvalidPrefix,
    ClientOutsideSubnet,
    ServerOutsideSubnet,
    SameAddress,
    MissingServerHost,
}

/// Addresses and sizes of one tunnel endpoint.
#[derive(Clone, Copy, Debug, PartialEq, Eq, Structural)]
pub struct NetworkConfig {
    pub mtu: u32,
    pub client_address: Cidr,
    pub server_address: Cidr,
    pub tunnel_subnet: Cidr,
    /// The remote server's address; needed by the client role only.
    pub server_host: Option<u32>,
}

impl NetworkConfig {
    /// The first rule that this configuration breaks for `role`, if any.
    pub open spec fn error_for(self, role: Role) -> Option<ConfigError> {
        if self.mtu == 0 {
            Some(ConfigError::ZeroMtu)
        } else if !self.client_address.valid() || !self.server_address.valid()
            || !self.tunnel_subnet.valid() {
            Some(ConfigError::InvalidPrefix)
        } else if !self.tunnel_subnet.holds(self.client_address.addr) {
            Some(ConfigError::ClientOutsideSubnet)
        } else if !self.tunnel_subnet.holds(self.server_address.addr) {
            Some(ConfigError::ServerOutsideSubnet)
        } else if self.client_address.addr == self.server_address.addr {
            Some(ConfigError::SameAddress)
        } else if role == Role::Client && self.server_host is None {
            Some(ConfigError::MissingServerHost)
        } else {
            None
        }
    }

    pub open spec fn valid_for(self, role: Role) -> bool {
        self.error_for(role) is None
    }

    /// A configuration with the default MTU.
    pub fn new(client_address: Cidr, server_address: Cidr, tunnel_subnet: Cidr, server_host: Option<u32>) -> (r: NetworkConfig)
        ensures
            r == (NetworkConfig { mtu: DEFAULT_MTU, client_address, server_address, tunnel_subnet, server_host }),
    {
        NetworkConfig { mtu: DEFAULT_MTU, client_address, server_address, tunnel_subnet, server_host }
    }

    /// The same configuration with another MTU.
    pub fn with_mtu(self, mtu: u32) -> (r: NetworkConfig)
        ensures
            r == (NetworkConfig { mtu, ..self }),
    {
        NetworkConfig { mtu, ..self }
    }

    /// Checks the configuration for `role`, reporting the first rule broken.
    pub fn validate(&self, role: Role) -> (r: Result<(), ConfigError>)
        ensures
            r is Ok <==> self.valid_for(role),
            r matches Err(e) ==> self.error_for(role) == Some(e),
    {
        if self.mtu == 0 {
            return Err(ConfigError::ZeroMtu);
        }
        if self.client_address.prefix > 32 || self.server_address.prefix > 32 || self.tunnel_subnet.prefix > 32 {
            return Err(ConfigError::InvalidPrefix);
        }
        if !self.tunnel_subnet.contains(self.client_address.addr) {
            return Err(ConfigError::ClientOutsideSubnet);
        }
        if !self.tunnel_subnet.contains(self.server_address.addr) {
            return Err(ConfigError::ServerOutsideSubnet);
        }
        if self.client_address.addr == self.server_address.addr {
            return Err(ConfigError::SameAddress);
        }
        match role {
            Role::Client => {
                if self.server_host.is_none() {
                    return Err(ConfigError::MissingServerHost);
                }
            },
            Role::Server => {},
        }
        Ok(())
    }
}

} // verus!
