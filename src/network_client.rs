//! The registry of on-chain probes, one per configured network.
use crate::error::VerifierError;
use crate::model::Network;
use vstd::prelude::*;

verus! {

/// A probe for each network that has one configured.
pub struct AppClients<C> {
    pub mainnet: Option<C>,
    pub testnet: Option<C>,
}

impl<C> AppClients<C> {
    /// The probe registered for `n`.
    pub open spec fn slot(&self, n: Network) -> Option<C> {
        match n {
            Network::VaraMainnet => self.mainnet,
            Network::VaraTestnet => self.testnet,
        }
    }

    /// A registry with no probes.
    pub fn new() -> (r: AppClients<C>)
        ensures
            r.slot(Network::VaraMainnet) is None,
            r.slot(Network::VaraTestnet) is None,
    {
        AppClients { mainnet: None, testnet: None }
    }

    /// Registers `client` as the probe of `network`, replacing any earlier one.
    pub fn set(&mut self, network: Network, client: C)
        ensures
            final(self).slot(network) == Some(client),
            forall|n: Network| n != network ==> final(self).slot(n) == old(self).slot(n),
    {
        match network {
            Network::VaraMainnet => self.mainnet = Some(client),
            Network::VaraTestnet => self.testnet = Some(client),
        }
    }

    /// The probe of `network`; `UnsupportedNetwork` when none is registered.
    pub fn get(&self, network: &Network) -> (r: Result<&C, VerifierError>)
        ensures
            r matches Ok(c) ==> self.slot(*network) == Some(*c),
            r is Err <==> self.slot(*network) is None,
            r matches Err(e) ==> e == VerifierError::UnsupportedNetwork,
    {
        match network {
            Network::VaraMainnet => match &self.mainnet {
                Some(c) => Ok(c),
                None => Err(VerifierError::UnsupportedNetwork),
            },
            Network::VaraTestnet => match &self.testnet {
                Some(c) => Ok(c),
                None => Err(VerifierError::UnsupportedNetwork),
            },
        }
    }

    /// Whether no network has a probe.
    pub fn is_empty(&self) -> (r: bool)
        ensures
            r <==> (self.slot(Network::VaraMainnet) is None && self.slot(Network::VaraTestnet) is None),
    {
        self.mainnet.is_none() && self.testnet.is_none()
    }
}

} // verus!
