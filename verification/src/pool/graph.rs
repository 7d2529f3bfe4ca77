//! What a pool needs to open a graph connection.

use crate::configuration::AsyncTransportConfiguration;
use crate::response_handler::ResponseHandler;
use crate::session::SessionState;
use crate::text::decimal_text;
use crate::text::u16_to_string;
use crate::version::Version;
use std::marker::PhantomData;
use vstd::prelude::*;
use vstd::string::StringExecFns;

verus! {

/// Where the graph service listens and as whom to sign in.
#[derive(Debug, Clone)]
pub struct GraphClientConfiguration {
    pub host: String,
    pub port: u16,
    pub username: String,
    pub password: String,
    pub space: Option<String>,
}

impl GraphClientConfiguration {
    pub fn new(
        host: String,
        port: u16,
        username: String,
        password: String,
        space: Option<String>,
    ) -> (configuration: Self)
        ensures
            configuration == (GraphClientConfiguration { host, port, username, password, space }),
    {
        Self { host, port, username, password, space }
    }

    /// The address to connect to: the host, a colon, and the port in decimal.
    pub open spec fn address_text(self) -> Seq<char> {
        self.host@ + ":"@ + decimal_text(self.port as nat)
    }

    /// The statement that selects the space of this configuration, where it names
    /// one: `USE` and the space.
    pub open spec fn use_space_text(self) -> Option<Seq<char>> {
        match self.space {
            Some(space) => Some("USE "@ + space@),
            None => None,
        }
    }

    /// The statement to execute first on a new session, where a space is named.
    pub fn use_space_statement(&self) -> (statement: Option<String>)
        ensures
            statement is Some <==> self.space is Some,
            statement matches Some(text) ==> Some(text@) == self.use_space_text(),
    {
        match &self.space {
            Some(space) => Some(String::from_str("USE ").concat(space.as_str())),
            None => None,
        }
    }

    /// The address to connect to.
    pub fn tcp_connect_addr(&self) -> (address: String)
        ensures
            address@ == self.address_text(),
    {
        self.host.clone().concat(":").concat(u16_to_string(self.port).as_str())
    }
}

/// Opens connections for a pool: signs in with the client configuration over a
/// transport with the transport configuration.
pub struct GraphConnectionManager<S, SLEEP, H, V> where H: ResponseHandler, V: Version {
    pub client_configuration: GraphClientConfiguration,
    pub transport_configuration: AsyncTransportConfiguration<H>,
    phantom: PhantomData<(S, SLEEP, V)>,
}

impl<S, SLEEP, H, V> GraphConnectionManager<S, SLEEP, H, V> where H: ResponseHandler, V: Version {
    /// The client configuration that this manager signs in with.
    pub closed spec fn client(self) -> GraphClientConfiguration {
        self.client_configuration
    }

    /// The transport configuration that this manager opens transports with.
    pub closed spec fn transport(self) -> AsyncTransportConfiguration<H> {
        self.transport_configuration
    }

    pub fn new(
        client_configuration: GraphClientConfiguration,
        transport_configuration: AsyncTransportConfiguration<H>,
    ) -> (manager: Self)
        ensures
            manager.client() == client_configuration,
            manager.transport() == transport_configuration,
    {
        Self { client_configuration, transport_configuration, phantom: PhantomData }
    }

    /// Is a connection that comes back to the pool to be evicted? Exactly where its
    /// session says that it has to be closed.
    pub fn has_broken(&self, session: &SessionState) -> (broken: bool)
        ensures
            broken == session.close_required,
    {
        session.is_close_required()
    }
}

} // verus!
