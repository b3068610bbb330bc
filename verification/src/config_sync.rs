//! What is known of the server that the settings are synchronised with.

use crate::text::opt_text;
use vstd::prelude::*;

verus! {

/// The settings that are sent to the server when they change.
#[derive(Debug, Clone, Copy, PartialEq, Eq, Structural)]
pub enum ConfigEndpoint {
    PromptSections,
    SttTimeout,
    LlmFormatting,
}

impl ConfigEndpoint {
    /// The path of the endpoint on the server.
    pub open spec fn path(self) -> Seq<char> {
        match self {
            ConfigEndpoint::PromptSections => "/api/config/prompts"@,
            ConfigEndpoint::SttTimeout => "/api/config/stt-timeout"@,
            ConfigEndpoint::LlmFormatting => "/api/config/llm-formatting"@,
        }
    }

    /// The path of the endpoint on the server.
    pub fn as_path(self) -> (r: &'static str)
        ensures
            r@ == self.path(),
    {
        match self {
            ConfigEndpoint::PromptSections => "/api/config/prompts",
            ConfigEndpoint::SttTimeout => "/api/config/stt-timeout",
            ConfigEndpoint::LlmFormatting => "/api/config/llm-formatting",
        }
    }
}

/// The name of the header that carries the client's id.
pub const CLIENT_UUID_HEADER: &'static str = "X-Client-UUID";

/// Where a setting is to be sent, and as which client.
#[derive(Debug)]
pub struct SyncRequest {
    pub endpoint_url: String,
    pub client_uuid: String,
}

/// The connection to the server, as far as the synchronisation of settings
/// needs it.
#[derive(Debug)]
pub struct ConfigSyncState {
    server_url: Option<String>,
    client_uuid: Option<String>,
}

impl ConfigSyncState {
    /// The address of the server, while connected.
    pub closed spec fn server_url(&self) -> Option<Seq<char>> {
        opt_text(self.server_url)
    }

    /// The id under which the server knows this client, while connected.
    pub closed spec fn client_uuid(&self) -> Option<Seq<char>> {
        opt_text(self.client_uuid)
    }

    /// Whether a server is connected.
    pub open spec fn connected(&self) -> bool {
        self.server_url() is Some && self.client_uuid() is Some
    }

    /// The state without a connection.
    pub fn new() -> (r: Self)
        ensures
            r.server_url() is None,
            r.client_uuid() is None,
    {
        ConfigSyncState { server_url: None, client_uuid: None }
    }

    /// Remembers the server that was connected to.
    pub fn set_connected(&mut self, server_url: String, client_uuid: String)
        ensures
            final(self).server_url() == Some(server_url@),
            final(self).client_uuid() == Some(client_uuid@),
    {
        self.server_url = Some(server_url);
        self.client_uuid = Some(client_uuid);
    }

    /// Forgets the server.
    pub fn set_disconnected(&mut self)
        ensures
            final(self).server_url() is None,
            final(self).client_uuid() is None,
    {
        self.server_url = None;
        self.client_uuid = None;
    }

    /// Whether a server is connected.
    pub fn is_connected(&self) -> (r: bool)
        ensures
            r == self.connected(),
    {
        self.server_url.is_some() && self.client_uuid.is_some()
    }

    /// Where a setting is to be sent. There is nothing to send while no
    /// server is connected.
    pub fn sync_request(&self, endpoint: ConfigEndpoint) -> (r: Option<SyncRequest>)
        ensures
            match r {
                Some(request) => self.server_url() matches Some(url) && self.client_uuid() == Some(
                    request.client_uuid@,
                ) && request.endpoint_url@ == url + endpoint.path(),
                None => !self.connected(),
            },
    {
        match (&self.server_url, &self.client_uuid) {
            (Some(server_url), Some(client_uuid)) => Some(
                SyncRequest {
                    endpoint_url: server_url.clone().concat(endpoint.as_path()),
                    client_uuid: client_uuid.clone(),
                },
            ),
            _ => None,
        }
    }
}

} // verus!
