//! Proxy: connect to a remote MCP server over Nostr as if it were local.
//!
//! The proxy sends MCP requests over Nostr to a remote server and receives its
//! responses.

use crate::protocol::error::{is_other, Error};
use crate::protocol::nostr::{hex_id, public_key_error};
use crate::protocol::types::JsonRpcMessage;
use crate::transport::base::{
    connected_after, is_start_step, BaseTransport, StartAction, StartEvent,
};
use crate::transport::client::{
    sending, NostrClientTransport, NostrClientTransportConfig, Sending,
};
use vstd::prelude::*;

verus! {

/// Configuration for the proxy.
pub struct ProxyConfig {
    /// Nostr client transport configuration.
    pub nostr_config: NostrClientTransportConfig,
}

/// Proxy that connects to a remote MCP server via Nostr.
pub struct NostrMCPProxy {
    pub transport: NostrClientTransport,
    pub is_running: bool,
}

impl NostrMCPProxy {
    /// Create a new proxy.
    pub fn new(config: ProxyConfig) -> (result: Result<Self, Error>)
        ensures
            match hex_id(config.nostr_config.server_pubkey@) {
                Some(key) => result matches Ok(proxy) && proxy.transport.is_fresh(
                    config.nostr_config,
                    key,
                ) && !proxy.is_running,
                None => is_other(
                    result,
                    "Invalid server pubkey: "@ + public_key_error(
                        config.nostr_config.server_pubkey@,
                    ),
                ),
            },
    {
        match NostrClientTransport::new(config.nostr_config) {
            Ok(transport) => Ok(NostrMCPProxy { transport, is_running: false }),
            Err(error) => Err(error),
        }
    }

    /// Decides the next step of starting the proxy: that of starting its
    /// transport, where it is not running. Once the transport has started the
    /// proxy is running, and the receiver of incoming messages is taken.
    pub fn start(&mut self, event: StartEvent) -> (action: StartAction)
        ensures
            ({
                let before = *old(self);
                let started = event matches StartEvent::Subscribed(attempt) && attempt is Ok;
                if before.is_running {
                    &&& *final(self) == before
                    &&& action matches StartAction::Fail(Error::Other(reason)) && reason@
                        == "Proxy already running"@
                } else {
                    &&& final(self).is_running == started
                    &&& final(self).transport.state() == before.transport.state()
                    &&& final(self).transport.config == before.transport.config
                    &&& final(self).transport.server_pubkey == before.transport.server_pubkey
                    &&& final(self).transport.base.encryption_mode
                        == before.transport.base.encryption_mode
                    &&& final(self).transport.base.is_connected == connected_after(
                        before.transport.base.is_connected,
                        event,
                    )
                    &&& final(self).transport.has_message_receiver == (
                    before.transport.has_message_receiver && !started)
                    &&& if started && !before.transport.has_message_receiver {
                        action matches StartAction::Fail(Error::Other(reason)) && reason@
                            == "Message receiver already taken"@
                    } else {
                        is_start_step(before.transport.base.is_connected, event, action)
                    }
                }
            }),
    {
        if self.is_running {
            return StartAction::Fail(Error::Other("Proxy already running".to_owned()));
        }
        match self.transport.start(event) {
            StartAction::Run => {
                self.is_running = true;
                if self.transport.take_message_receiver() {
                    StartAction::Run
                } else {
                    StartAction::Fail(Error::Other("Message receiver already taken".to_owned()))
                }
            },
            action => action,
        }
    }

    /// Decides what is to be done to send an MCP message to the remote server.
    pub fn send(&self, message: &JsonRpcMessage) -> (decision: Sending)
        ensures
            decision@ == sending(
                self.transport.config.is_stateless,
                self.transport.base.encryption_mode,
                self.transport.config.gift_wrap_mode,
                self.transport.server_pubkey@,
                message@,
            ),
    {
        self.transport.send(message)
    }

    /// Stop the proxy, given how disconnecting the relays went.
    pub fn stop(&mut self, attempt: Result<(), Error>) -> (result: Result<(), Error>)
        ensures
            result == if old(self).is_running && old(self).transport.base.is_connected {
                attempt
            } else {
                Ok::<(), Error>(())
            },
            !old(self).is_running ==> *final(self) == *old(self),
            old(self).is_running ==> {
                &&& final(self).is_running == (result is Err)
                &&& final(self).transport.base == (BaseTransport {
                    is_connected: old(self).transport.base.is_connected && attempt is Err,
                    ..old(self).transport.base
                })
                &&& final(self).transport.config == old(self).transport.config
                &&& final(self).transport.has_message_receiver == old(
                    self,
                ).transport.has_message_receiver
                &&& final(self).transport.server_pubkey == old(self).transport.server_pubkey
                &&& final(self).transport.state() == old(self).transport.state()
            },
    {
        if !self.is_running {
            return Ok(());
        }
        let result = self.transport.close(attempt);
        if result.is_ok() {
            self.is_running = false;
        }
        result
    }

    /// Check if the proxy is active.
    pub fn is_active(&self) -> (active: bool)
        ensures
            active == self.is_running,
    {
        self.is_running
    }
}

} // verus!
