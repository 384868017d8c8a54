use vstd::prelude::*;

verus! {

/// The settings of the node's gateway and feeder gateway.
#[derive(Clone, Copy, Debug, PartialEq, Eq, Structural)]
pub struct GatewayConfig {
    pub feeder_gateway_enable: bool,
    pub gateway_enable: bool,
    pub gateway_external: bool,
    pub gateway_port: u16,
}

impl GatewayConfig {
    /// Whether the gateway server is started: when either gateway is enabled.
    pub fn should_start(&self) -> (r: bool)
        ensures
            r == (self.feeder_gateway_enable || self.gateway_enable),
    {
        self.feeder_gateway_enable || self.gateway_enable
    }
}

} // verus!
