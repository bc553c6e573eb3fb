//! Model Context Protocol support: newline-delimited JSON messages that
//! advertise and invoke tools between two processes.

pub mod bridge;
pub mod client;
pub mod config;
pub mod json;
pub mod protocol;
pub mod server;
pub mod simple;
pub mod slot;
pub mod transport;

pub use config::{McpConfig, McpServerInfo};
pub use simple::{SimpleMcpClient, SimpleMcpClientConfig, SimpleMcpManager, SimpleMcpServer};
pub use simple::SimpleMcpServerConfig;

use crate::keyed::with_entry;
use config::McpClientConfig;
use vstd::prelude::*;

verus! {

/// The manager of the protocol's server and clients.
pub type McpManager = SimpleMcpManager;

/// The configuration of the small client that stands for a configured
/// client: its command and arguments.
pub open spec fn simple_config(c: McpClientConfig) -> SimpleMcpClientConfig {
    SimpleMcpClientConfig { server_command: c.command, server_args: c.args }
}

/// The clients held after those configured were added, one after the
/// other.
pub open spec fn with_clients(
    held: Seq<(String, SimpleMcpClient)>,
    configured: Seq<(String, McpClientConfig)>,
) -> Seq<(String, SimpleMcpClient)>
    decreases configured.len(),
{
    if configured.len() == 0 {
        held
    } else {
        with_clients(
            with_entry(
                held,
                configured[0].0,
                SimpleMcpClient::fresh(simple_config(configured[0].1)),
            ),
            configured.drop_first(),
        )
    }
}

impl SimpleMcpManager {
    /// A manager set up as the configuration says: with a server where
    /// one is configured, under its name and version, and with one client,
    /// not connected, for each configured client.
    pub fn with_config(config: McpConfig) -> (r: Self)
        ensures
            r.wf(),
            match config.server {
                Some(server) => r.server matches Some(s) && s.name() == server.name@ && s.version()
                    == server.version@ && s.tools().len() == 2,
                None => r.server.is_none(),
            },
            r.clients@ == with_clients(Seq::empty(), config.clients@),
    {
        let mut manager = SimpleMcpManager::new();
        assert(manager.clients@ =~= Seq::empty());
        let McpConfig { server, clients, settings: _ } = config;
        match server {
            Some(server_config) => {
                manager.start_server(
                    SimpleMcpServerConfig {
                        name: server_config.name,
                        version: server_config.version,
                        enabled_tools: server_config.exposed_tools,
                    },
                );
            },
            None => {},
        }
        let mut clients = clients;
        let ghost started = manager.server;
        while clients.len() > 0
            invariant
                manager.wf(),
                manager.server == started,
                with_clients(Seq::empty(), config.clients@) == with_clients(
                    manager.clients@,
                    clients@,
                ),
            decreases clients.len(),
        {
            let (name, client_config) = clients.remove(0);
            manager.add_client(
                name,
                SimpleMcpClientConfig {
                    server_command: client_config.command,
                    server_args: client_config.args,
                },
            );
        }
        manager
    }
}

} // verus!
