//! Gateway: bridge a local MCP server to Nostr.
//!
//! The gateway receives MCP requests via Nostr and forwards them to a local MCP
//! server, then publishes responses back to Nostr.

use crate::protocol::error::{is_other, is_outcome, Error};
use crate::protocol::nostr::{tags_view, EventTemplate};
use crate::protocol::types::JsonRpcMessage;
use crate::transport::base::{
    connected_after, is_start_step, BaseTransport, StartAction, StartEvent,
};
use crate::transport::policy::announcement;
use crate::transport::server::config::NostrServerTransportConfig;
use crate::transport::server::{
    response_outcome, NostrServerTransport, PlannedResponse, ServerView,
};
use vstd::prelude::*;

verus! {

/// Configuration for the gateway.
pub struct GatewayConfig {
    /// Nostr server transport configuration.
    pub nostr_config: NostrServerTransportConfig,
}

/// Gateway that bridges a local MCP server to Nostr.
///
/// The caller processes the incoming requests and calls `send_response` for each
/// one.
pub struct NostrMCPGateway {
    pub transport: NostrServerTransport,
    pub is_running: bool,
}

impl NostrMCPGateway {
    /// Create a new gateway.
    pub fn new(config: GatewayConfig) -> (gateway: Self)
        ensures
            gateway.transport.is_fresh(config.nostr_config),
            !gateway.is_running,
    {
        NostrMCPGateway {
            transport: NostrServerTransport::new(config.nostr_config),
            is_running: false,
        }
    }

    /// Decides the next step of starting the gateway: that of starting its
    /// transport, where it is not running. Once the transport has started the
    /// gateway is running, and the receiver of incoming requests is taken.
    pub fn start(&mut self, event: StartEvent) -> (action: StartAction)
        ensures
            ({
                let before = *old(self);
                let started = event matches StartEvent::Subscribed(attempt) && attempt is Ok;
                if before.is_running {
                    &&& *final(self) == before
                    &&& action matches StartAction::Fail(Error::Other(reason)) && reason@
                        == "Gateway already running"@
                } else {
                    &&& final(self).is_running == started
                    &&& final(self).transport.state() == before.transport.state()
                    &&& final(self).transport.settings() == before.transport.settings()
                    &&& final(self).transport.config == before.transport.config
                    &&& final(self).transport.base.is_connected == connected_after(
                        before.transport.base.is_connected,
                        event,
                    )
                    &&& final(self).transport.has_message_receiver == (
                    before.transport.has_message_receiver && !started)
                    &&& if started && !before.transport.has_message_receiver {
                        action matches StartAction::Fail(Error::Other(reason)) && reason@
                            == "Message receiver already taken"@
                    } else {
                        is_start_step(before.transport.base.is_connected, event, action)
                    }
                }
            }),
    {
        if self.is_running {
            return StartAction::Fail(Error::Other("Gateway already running".to_owned()));
        }
        match self.transport.start(event) {
            StartAction::Run => {
                self.is_running = true;
                if self.transport.take_message_receiver() {
                    StartAction::Run
                } else {
                    StartAction::Fail(Error::Other("Message receiver already taken".to_owned()))
                }
            },
            action => action,
        }
    }

    /// Prepares a response for the client that sent a given request.
    pub fn send_response(&self, event_id: &str, response: JsonRpcMessage) -> (result: Result<
        PlannedResponse,
        Error,
    >)
        ensures
            is_outcome(
                result,
                response_outcome(
                    self.transport.settings(),
                    self.transport.state(),
                    event_id@,
                    response@,
                ),
            ),
    {
        self.transport.send_response(event_id, response)
    }

    /// Prepares the server announcement.
    pub fn announce(&self) -> (template: Result<EventTemplate, Error>)
        ensures
            match self.transport.config.server_info {
                Some(info) => template is Ok && template->Ok_0@ == announcement(
                    info@,
                    self.transport.config.encryption_mode,
                    self.transport.config.gift_wrap_mode,
                    tags_view(self.transport.extra_common_tags@),
                    tags_view(self.transport.pricing_tags@),
                ),
                None => is_other(template, "No server info configured"@),
            },
    {
        self.transport.announce()
    }

    /// Stop the gateway, given how disconnecting the relays went.
    pub fn stop(&mut self, attempt: Result<(), Error>) -> (result: Result<(), Error>)
        ensures
            result == if old(self).is_running && old(self).transport.base.is_connected {
                attempt
            } else {
                Ok::<(), Error>(())
            },
            !old(self).is_running || result is Err ==> *final(self) == *old(self),
            old(self).is_running && result is Ok ==> {
                &&& !final(self).is_running
                &&& final(self).transport.base == (BaseTransport {
                    is_connected: false,
                    ..old(self).transport.base
                })
                &&& final(self).transport.has_message_receiver == old(
                    self,
                ).transport.has_message_receiver
                &&& final(self).transport.settings() == old(self).transport.settings()
                &&& final(self).transport.config == old(self).transport.config
                &&& final(self).transport.state() == (ServerView {
                    sessions: Map::empty(),
                    routes: Map::empty(),
                    ..old(self).transport.state()
                })
            },
    {
        if !self.is_running {
            return Ok(());
        }
        let result = self.transport.close(attempt);
        if result.is_ok() {
            self.is_running = false;
        }
        result
    }

    /// Check if the gateway is active.
    pub fn is_active(&self) -> (active: bool)
        ensures
            active == self.is_running,
    {
        self.is_running
    }
}

} // verus!
