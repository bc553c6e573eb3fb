//! The data that agents exchange to find and address each other.

use crate::keyed::{distinct_keys, get_key, has_key, put_key, take_key, value_of, with_entry};
use crate::keyed::without_entry;
use crate::mcp::json::Json;
use crate::text::same_text;
use vstd::prelude::*;

verus! {

/// The protocol version that messages carry.
pub const IACP_VERSION: &'static str = "1.0";

/// An agent as the others know it.
#[derive(Debug, Clone)]
pub struct AgentInfo {
    pub agent_id: String,
    pub agent_name: String,
    pub capabilities: Vec<String>,
}

/// Whom a message is for: one agent, or all.
#[derive(Debug, Clone)]
pub struct Recipient {
    pub agent_id: Option<String>,
    pub broadcast: bool,
}

/// How urgent a message is.
#[derive(Debug, Clone, Copy, PartialEq, Eq, Structural)]
pub enum Priority {
    Low,
    Normal,
    High,
    Urgent,
}

impl Default for Priority {
    fn default() -> (r: Self)
        ensures
            r == Priority::Normal,
    {
        Priority::Normal
    }
}

/// What can go wrong between agents.
#[derive(Debug)]
pub enum IacpError {
    VersionMismatch { expected: String, actual: String },
    InvalidMessageFormat { reason: String },
    AgentNotFound { agent_id: String },
    NetworkError { source: String },
    AuthenticationFailed { reason: String },
    MessageTimeout { timeout_ms: u64 },
}

/// Hints for the handling of a message.
#[derive(Debug, Clone)]
pub struct MessageMetadata {
    pub priority: Priority,
    /// When the message expires, as a timestamp.
    pub expires_at: Option<String>,
    pub requires_response: bool,
    /// How long a response is awaited, in seconds.
    pub response_timeout: Option<u32>,
}

/// A message from one agent to another, or to all.
#[derive(Debug)]
pub struct IacpMessage {
    pub iacp_version: String,
    pub message_id: String,
    pub timestamp: String,
    pub sender: AgentInfo,
    pub recipient: Recipient,
    pub message_type: String,
    pub conversation_id: Option<String>,
    pub parent_message_id: Option<String>,
    pub payload: Json,
    pub metadata: MessageMetadata,
}

impl IacpMessage {
    /// A message with the identifier and time given, of normal priority,
    /// outside any conversation, that expects no response.
    pub fn new(
        message_id: String,
        timestamp: String,
        sender: AgentInfo,
        recipient: Recipient,
        message_type: String,
        payload: Json,
    ) -> (r: Self)
        ensures
            r.iacp_version@ == IACP_VERSION@,
            r.message_id == message_id,
            r.timestamp == timestamp,
            r.sender == sender,
            r.recipient == recipient,
            r.message_type == message_type,
            r.conversation_id.is_none(),
            r.parent_message_id.is_none(),
            r.payload == payload,
            r.metadata.priority == Priority::Normal,
            r.metadata.expires_at.is_none(),
            !r.metadata.requires_response,
            r.metadata.response_timeout.is_none(),
    {
        IacpMessage {
            iacp_version: IACP_VERSION.to_string(),
            message_id,
            timestamp,
            sender,
            recipient,
            message_type,
            conversation_id: None,
            parent_message_id: None,
            payload,
            metadata: MessageMetadata {
                priority: Priority::default(),
                expires_at: None,
                requires_response: false,
                response_timeout: None,
            },
        }
    }

    /// The same message as part of a conversation.
    pub fn with_conversation(
        self,
        conversation_id: String,
        parent_message_id: Option<String>,
    ) -> (r: Self)
        ensures
            r == (IacpMessage {
                conversation_id: Some(conversation_id),
                parent_message_id,
                ..self
            }),
    {
        let mut r = self;
        r.conversation_id = Some(conversation_id);
        r.parent_message_id = parent_message_id;
        r
    }

    /// The same message with other handling hints.
    pub fn with_metadata(self, metadata: MessageMetadata) -> (r: Self)
        ensures
            r == (IacpMessage { metadata, ..self }),
    {
        let mut r = self;
        r.metadata = metadata;
        r
    }
}

/// Configuration of the transport between agents.
#[derive(Debug)]
pub struct TransportConfig {
    pub bind_address: String,
    /// First and last port to try.
    pub port_range: (u16, u16),
    /// Largest message taken, in bytes.
    pub max_message_size: usize,
    /// In seconds.
    pub connection_timeout: u64,
    /// In seconds.
    pub heartbeat_interval: u64,
}

impl Clone for TransportConfig {
    fn clone(&self) -> (r: Self)
        ensures
            r == *self,
    {
        TransportConfig {
            bind_address: self.bind_address.clone(),
            port_range: (self.port_range.0, self.port_range.1),
            max_message_size: self.max_message_size,
            connection_timeout: self.connection_timeout,
            heartbeat_interval: self.heartbeat_interval,
        }
    }
}

impl Default for TransportConfig {
    fn default() -> (r: Self)
        ensures
            r.bind_address@ == "127.0.0.1"@,
            r.port_range == (9000u16, 9999u16),
            r.max_message_size == 16777216,
            r.connection_timeout == 30,
            r.heartbeat_interval == 30,
    {
        TransportConfig {
            bind_address: "127.0.0.1".to_string(),
            port_range: (9000, 9999),
            max_message_size: 16777216,
            connection_timeout: 30,
            heartbeat_interval: 30,
        }
    }
}

/// The transport between agents, as far as it is configured.
#[derive(Debug)]
pub struct IacpTransport {
    config: TransportConfig,
}

impl IacpTransport {
    /// The configuration that the transport was made with.
    pub closed spec fn configuration(&self) -> TransportConfig {
        self.config
    }

    /// A transport with the given configuration.
    pub fn new(config: TransportConfig) -> (r: Self)
        ensures
            r.configuration() == config,
    {
        IacpTransport { config }
    }

    /// The configuration of the transport.
    pub fn config(&self) -> (r: &TransportConfig)
        ensures
            *r == self.configuration(),
    {
        &self.config
    }
}

/// Whether an agent has a capability.
pub open spec fn capable(agent: AgentInfo, capability: Seq<char>) -> bool {
    exists|i: int| 0 <= i < agent.capabilities@.len() && agent.capabilities@[i]@ == capability
}

/// The agents among the first `n` registered that have a capability, in
/// the order of registration.
pub open spec fn capable_agents(
    agents: Seq<(String, AgentInfo)>,
    capability: Seq<char>,
    n: nat,
) -> Seq<AgentInfo>
    decreases n,
{
    if n == 0 || n > agents.len() {
        Seq::empty()
    } else if capable(agents[n - 1].1, capability) {
        capable_agents(agents, capability, (n - 1) as nat).push(agents[n - 1].1)
    } else {
        capable_agents(agents, capability, (n - 1) as nat)
    }
}

/// The agents that are known, by identifier.
#[derive(Debug)]
pub struct AgentRegistry {
    agents: Vec<(String, AgentInfo)>,
}

impl AgentRegistry {
    /// The agents registered, by identifier, in the order in which the
    /// identifiers were first registered.
    pub closed spec fn agents(&self) -> Seq<(String, AgentInfo)> {
        self.agents@
    }

    /// No identifier is registered twice.
    pub open spec fn wf(&self) -> bool {
        distinct_keys(self.agents())
    }

    /// A registry without agents.
    pub fn new() -> (r: Self)
        ensures
            r.wf(),
            r.agents().len() == 0,
    {
        AgentRegistry { agents: Vec::new() }
    }

    /// Registers an agent under its identifier, in place of an agent
    /// registered under it before.
    pub fn register_agent(&mut self, agent: AgentInfo)
        requires
            old(self).wf(),
        ensures
            final(self).wf(),
            final(self).agents() == with_entry(old(self).agents(), agent.agent_id, agent),
            value_of(final(self).agents(), agent.agent_id@) == Some(agent),
    {
        let id = agent.agent_id.clone();
        let _ = put_key(&mut self.agents, id, agent);
        assert(self.agents@ == with_entry(old(self).agents(), id, agent));
        assert(with_entry(old(self).agents(), id, agent) =~= with_entry(
            old(self).agents(),
            agent.agent_id,
            agent,
        ));
    }

    /// Takes the agent with this identifier out of the registry; whether
    /// there was one.
    pub fn unregister_agent(&mut self, agent_id: &str) -> (known: bool)
        requires
            old(self).wf(),
        ensures
            final(self).wf(),
            final(self).agents() == without_entry(old(self).agents(), agent_id@),
            known == has_key(old(self).agents(), agent_id@),
            !has_key(final(self).agents(), agent_id@),
    {
        take_key(&mut self.agents, agent_id).is_some()
    }

    /// Whether an agent has a capability.
    pub fn has_capability(agent: &AgentInfo, capability: &str) -> (r: bool)
        ensures
            r == capable(*agent, capability@),
    {
        let mut i: usize = 0;
        while i < agent.capabilities.len()
            invariant
                i <= agent.capabilities.len(),
                forall|k: int| 0 <= k < i ==> agent.capabilities@[k]@ != capability@,
            decreases agent.capabilities.len() - i,
        {
            if same_text(agent.capabilities[i].as_str(), capability) {
                return true;
            }
            i += 1;
        }
        false
    }

    /// The agents that have a capability, in the order of registration.
    pub fn find_agents_by_capability(&self, capability: &str) -> (found: Vec<&AgentInfo>)
        ensures
            found@.len() == capable_agents(self.agents(), capability@, self.agents().len()).len(),
            forall|i: int|
                0 <= i < found@.len() ==> *found@[i] == capable_agents(
                    self.agents(),
                    capability@,
                    self.agents().len(),
                )[i],
    {
        let mut found: Vec<&AgentInfo> = Vec::new();
        let mut i: usize = 0;
        while i < self.agents.len()
            invariant
                i <= self.agents.len(),
                found@.len() == capable_agents(self.agents(), capability@, i as nat).len(),
                forall|k: int|
                    0 <= k < found@.len() ==> *found@[k] == capable_agents(
                        self.agents(),
                        capability@,
                        i as nat,
                    )[k],
            decreases self.agents.len() - i,
        {
            if Self::has_capability(&self.agents[i].1, capability) {
                found.push(&self.agents[i].1);
            }
            i += 1;
        }
        found
    }

    /// All the agents, in the order of registration.
    pub fn get_all_agents(&self) -> (all: Vec<&AgentInfo>)
        ensures
            all@.len() == self.agents().len(),
            forall|i: int| 0 <= i < all@.len() ==> *all@[i] == self.agents()[i].1,
    {
        let mut all: Vec<&AgentInfo> = Vec::new();
        let mut i: usize = 0;
        while i < self.agents.len()
            invariant
                i <= self.agents.len(),
                all@.len() == i,
                forall|k: int| 0 <= k < i ==> *all@[k] == self.agents@[k].1,
            decreases self.agents.len() - i,
        {
            all.push(&self.agents[i].1);
            i += 1;
        }
        all
    }

    /// The agent registered under this identifier.
    pub fn get_agent(&self, agent_id: &str) -> (r: Option<&AgentInfo>)
        ensures
            match r {
                Some(agent) => value_of(self.agents(), agent_id@) == Some(*agent),
                None => !has_key(self.agents(), agent_id@),
            },
    {
        get_key(&self.agents, agent_id)
    }
}

impl Default for AgentRegistry {
    fn default() -> (r: Self)
        ensures
            r.wf(),
            r.agents().len() == 0,
    {
        AgentRegistry::new()
    }
}

} // verus!
