//! Pools of graph connections of the protocol's generation 2.

use crate::configuration::AsyncTransportConfiguration;
use crate::pool::graph::GraphClientConfiguration;
use crate::pool::graph::GraphConnectionManager;
use crate::response_handler::ResponseHandler;
use crate::version::VersionV2;
use vstd::prelude::*;

verus! {

/// A manager that opens connections of this generation.
pub fn new_graph_connection_manager<S, SLEEP, H>(
    client_configuration: GraphClientConfiguration,
    transport_configuration: AsyncTransportConfiguration<H>,
) -> (manager: GraphConnectionManager<S, SLEEP, H, VersionV2>) where H: ResponseHandler
    ensures
        manager.client() == client_configuration,
        manager.transport() == transport_configuration,
{
    GraphConnectionManager::new(client_configuration, transport_configuration)
}

} // verus!
