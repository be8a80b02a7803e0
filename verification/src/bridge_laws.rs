//! What a gateway and a proxy do beyond their transports.

use crate::gateway::{GatewayConfig, NostrMCPGateway};
use crate::protocol::error::Error;
use crate::protocol::laws::is_hex;
use crate::protocol::nostr::EventTemplate;
use crate::protocol::types::JsonRpcMessage;
use crate::proxy::{NostrMCPProxy, ProxyConfig};
use crate::transport::base::{StartAction, StartEvent};
use crate::transport::base_laws::{is_next_step, lemma_next_step};
use crate::transport::client::laws::{
    goes_to_server, is_emulated_answer, is_initialization, is_initialized_notice,
};
use crate::transport::client::{NostrClientTransport, Sending};
use crate::transport::server::{NostrServerTransport, PlannedResponse};
use vstd::prelude::*;

verus! {

/// A new gateway does not run, and its transport is new, on the configuration that
/// it is given.
pub proof fn law_gateway_created(config: GatewayConfig, gateway: NostrMCPGateway)
    requires
        call_ensures(NostrMCPGateway::new, (config,), gateway),
    ensures
        !gateway.is_running,
        gateway.transport.config == config.nostr_config,
        gateway.transport.base.encryption_mode == config.nostr_config.encryption_mode,
        !gateway.transport.base.is_connected,
        gateway.transport.has_message_receiver,
        gateway.transport.extra_common_tags@.len() == 0,
        gateway.transport.pricing_tags@.len() == 0,
        forall|client: Seq<char>| !#[trigger] gateway.transport.sessions@.contains_key(client),
        forall|event: Seq<char>| !#[trigger] gateway.transport.event_routes@.contains_key(event),
{
    assert(gateway.transport.state().sessions == gateway.transport.sessions@);
    assert(gateway.transport.state().routes == gateway.transport.event_routes@);
}

/// Whether starting has come to its end: the relays were asked for messages, with
/// success.
pub open spec fn has_subscribed(event: StartEvent) -> bool {
    event matches StartEvent::Subscribed(attempt) && attempt is Ok
}

/// Whether starting fails for that reason.
pub open spec fn fails_for(action: StartAction, text: Seq<char>) -> bool {
    action matches StartAction::Fail(Error::Other(reason)) && reason@ == text
}

/// A gateway that does not run starts as its transport does; it runs from the end
/// of that on, takes what comes in once, and does not start a second time.
pub proof fn law_gateway_started(
    gateway: &mut NostrMCPGateway,
    event: StartEvent,
    action: StartAction,
)
    requires
        call_ensures(NostrMCPGateway::start, (gateway, event), action),
    ensures
        ({
            let before = *old(gateway);
            let after = *final(gateway);
            if before.is_running {
                &&& fails_for(action, "Gateway already running"@)
                &&& after == before
            } else {
                &&& after.is_running <==> has_subscribed(event)
                &&& after.transport.has_message_receiver
                    <==> before.transport.has_message_receiver && !has_subscribed(event)
                &&& if has_subscribed(event) && !before.transport.has_message_receiver {
                    fails_for(action, "Message receiver already taken"@)
                } else {
                    is_next_step(before.transport.base.is_connected, event, action)
                }
                &&& after.transport.sessions@ == before.transport.sessions@
                &&& after.transport.config == before.transport.config
            }
        }),
{
    let before = *old(gateway);
    let after = *final(gateway);
    if !before.is_running {
        if !(has_subscribed(event) && !before.transport.has_message_receiver) {
            lemma_next_step(before.transport.base.is_connected, event, action);
        }
        assert(after.transport.state().sessions == before.transport.state().sessions);
    }
}

/// What a gateway answers and announces is what its transport answers and
/// announces.
pub proof fn law_gateway_speaks_for_transport(
    gateway: &NostrMCPGateway,
    event_id: &str,
    response: JsonRpcMessage,
    by_gateway: Result<PlannedResponse, Error>,
    by_transport: Result<PlannedResponse, Error>,
    announced: Result<EventTemplate, Error>,
    announced_by_transport: Result<EventTemplate, Error>,
)
    requires
        call_ensures(NostrMCPGateway::send_response, (gateway, event_id, response), by_gateway),
        call_ensures(
            NostrServerTransport::send_response,
            (&gateway.transport, event_id, response),
            by_transport,
        ),
        call_ensures(NostrMCPGateway::announce, (gateway,), announced),
        call_ensures(
            NostrServerTransport::announce,
            (&gateway.transport,),
            announced_by_transport,
        ),
    ensures
        match by_transport {
            Ok(planned) => by_gateway matches Ok(sent) && sent@ == planned@,
            Err(Error::Other(reason)) => by_gateway matches Err(Error::Other(given)) && given@
                == reason@,
            Err(_) => false,
        },
        match announced_by_transport {
            Ok(template) => announced matches Ok(given) && given@ == template@,
            Err(Error::Other(reason)) => announced matches Err(Error::Other(given)) && given@
                == reason@,
            Err(_) => false,
        },
{
}

/// A gateway that runs stops where disconnecting succeeds or is not needed, and
/// then keeps no session and no route; otherwise it stays as it is.
pub proof fn law_gateway_stopped(
    gateway: &mut NostrMCPGateway,
    attempt: Result<(), Error>,
    result: Result<(), Error>,
)
    requires
        call_ensures(NostrMCPGateway::stop, (gateway, attempt), result),
    ensures
        ({
            let before = *old(gateway);
            let after = *final(gateway);
            &&& result is Ok <==> !before.is_running || !before.transport.base.is_connected
                || attempt is Ok
            &&& result is Err ==> result == attempt && after == before
            &&& result is Ok ==> !after.is_running
            &&& before.is_running && result is Ok ==> {
                &&& !after.transport.base.is_connected
                &&& forall|client: Seq<char>|
                    !#[trigger] after.transport.sessions@.contains_key(client)
                &&& forall|event: Seq<char>|
                    !#[trigger] after.transport.event_routes@.contains_key(event)
                &&& after.transport.config == before.transport.config
            }
        }),
{
    let after = *final(gateway);
    assert(after.transport.state().sessions == after.transport.sessions@);
    assert(after.transport.state().routes == after.transport.event_routes@);
}

/// A proxy is created exactly where the server's key is one; it does not run yet.
pub proof fn law_proxy_created(config: ProxyConfig, created: Result<NostrMCPProxy, Error>)
    requires
        call_ensures(NostrMCPProxy::new, (config,), created),
    ensures
        created is Ok <==> is_hex(config.nostr_config.server_pubkey@),
        created matches Ok(proxy) ==> {
            &&& !proxy.is_running
            &&& proxy.transport.config == config.nostr_config
            &&& proxy.transport.base.encryption_mode == config.nostr_config.encryption_mode
            &&& !proxy.transport.base.is_connected
            &&& proxy.transport.has_message_receiver
            &&& proxy.transport.pending_requests@ == Set::<Seq<char>>::empty()
        },
        created matches Err(error) ==> (error matches Error::Other(reason)
            && "Invalid server pubkey: "@.is_prefix_of(reason@)),
{
    let key = config.nostr_config.server_pubkey@;
    assert(forall|i: int|
        0 <= i < key.len() ==> crate::protocol::nostr::is_hex_digit(#[trigger] key[i]) == ('0'
            <= key[i] <= '9' || 'a' <= key[i] <= 'f' || 'A' <= key[i] <= 'F'));
    if let Err(Error::Other(reason)) = created {
        let start = "Invalid server pubkey: "@;
        assert(reason@.take(start.len() as int) =~= start);
    }
}

/// A proxy that does not run starts as its transport does; it runs from the end of
/// that on, takes what comes in once, and does not start a second time.
pub proof fn law_proxy_started(proxy: &mut NostrMCPProxy, event: StartEvent, action: StartAction)
    requires
        call_ensures(NostrMCPProxy::start, (proxy, event), action),
    ensures
        ({
            let before = *old(proxy);
            let after = *final(proxy);
            if before.is_running {
                &&& fails_for(action, "Proxy already running"@)
                &&& after == before
            } else {
                &&& after.is_running <==> has_subscribed(event)
                &&& after.transport.has_message_receiver
                    <==> before.transport.has_message_receiver && !has_subscribed(event)
                &&& if has_subscribed(event) && !before.transport.has_message_receiver {
                    fails_for(action, "Message receiver already taken"@)
                } else {
                    is_next_step(before.transport.base.is_connected, event, action)
                }
                &&& after.transport.config == before.transport.config
                &&& after.transport.server_pubkey == before.transport.server_pubkey
            }
        }),
{
    let before = *old(proxy);
    if !before.is_running && !(has_subscribed(event) && !before.transport.has_message_receiver) {
        lemma_next_step(before.transport.base.is_connected, event, action);
    }
}

/// What a proxy sends goes to the server, but where no state is kept the request
/// to initialize is answered at once, and the notice that it is done goes nowhere.
pub proof fn law_proxy_sends(
    proxy: &NostrMCPProxy,
    message: &JsonRpcMessage,
    by_transport: Sending,
    decision: Sending,
)
    requires
        call_ensures(NostrMCPProxy::send, (proxy, message), decision),
        call_ensures(NostrClientTransport::send, (&proxy.transport, message), by_transport),
    ensures
        decision@ == by_transport@,
        match by_transport {
            Sending::Emulated(answer) => {
                &&& proxy.transport.config.is_stateless && is_initialization(*message)
                &&& message matches JsonRpcMessage::Request(request) && is_emulated_answer(
                    answer,
                    request.id@,
                )
            },
            Sending::Dropped => proxy.transport.config.is_stateless && is_initialized_notice(
                *message,
            ),
            Sending::Send(outgoing) => goes_to_server(proxy.transport, *message, outgoing),
        },
{
    crate::transport::client::laws::law_message_sent_to_server(
        &proxy.transport,
        message,
        by_transport,
    );
}

/// A proxy that runs stops where disconnecting succeeds or is not needed; what it
/// awaits stays as it is.
pub proof fn law_proxy_stopped(
    proxy: &mut NostrMCPProxy,
    attempt: Result<(), Error>,
    result: Result<(), Error>,
)
    requires
        call_ensures(NostrMCPProxy::stop, (proxy, attempt), result),
    ensures
        ({
            let before = *old(proxy);
            let after = *final(proxy);
            &&& result is Ok <==> !before.is_running || !before.transport.base.is_connected
                || attempt is Ok
            &&& result is Err ==> result == attempt
            &&& after.is_running <==> result is Err
            &&& before.is_running && result is Ok ==> !after.transport.base.is_connected
            &&& after.transport.pending_requests@ == before.transport.pending_requests@
            &&& after.transport.config == before.transport.config
        }),
{
    if old(proxy).is_running {
        assert(final(proxy).transport.state() == old(proxy).transport.state());
    }
}

/// A gateway and a proxy are active exactly where they run.
pub proof fn law_active_while_running(
    gateway: &NostrMCPGateway,
    proxy: &NostrMCPProxy,
    gateway_active: bool,
    proxy_active: bool,
)
    requires
        call_ensures(NostrMCPGateway::is_active, (gateway,), gateway_active),
        call_ensures(NostrMCPProxy::is_active, (proxy,), proxy_active),
    ensures
        gateway_active == gateway.is_running,
        proxy_active == proxy.is_running,
{
}

} // verus!
