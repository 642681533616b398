use vstd::prelude::*;

use crate::channel::{Channel, ChannelMessage, spec_channel_address};
use crate::error::ChannelError;
use crate::routing::{Address, Route};
use crate::worker::{Action, Context, OutboundMessage};

verus! {

/// The well-known address the listener is registered under.
pub const XX_CHANNEL_LISTENER_ADDRESS: &'static str = "xx_channel_listener";

/// What the listener accepts: a session-initiation request carrying the
/// initiator's chosen session identifier and its first handshake message.
pub enum ChannelListenerMessage {
    CreateResponderChannel { channel_id: String, payload: Vec<u8> },
}

/// The stateless dispatcher at the well-known listener address: for each
/// session-initiation request it has a fresh responder channel started and
/// hands it the initial handshake payload. The session identifier is neither
/// authenticated nor checked for collisions.
pub struct XXChannelListener {
    pub key_exchange_factory_address: Address,
}

impl XXChannelListener {
    /// A listener forwarding the given key-exchange factory address to the
    /// channels it creates.
    pub fn new(key_exchange_factory_address: Address) -> (r: Self)
        ensures
            r.key_exchange_factory_address == key_exchange_factory_address,
    {
        Self { key_exchange_factory_address }
    }

    /// Handle one session-initiation request: start a responder channel
    /// under the derived address, with its remote route set to the
    /// requester's reply route, then deliver the handshake payload to it.
    pub fn handle_message(
        &mut self,
        ctx: &mut Context,
        msg: ChannelListenerMessage,
        reply: Route,
    ) -> (r: Result<(), ChannelError>)
        ensures
            r is Ok,
            *final(self) == *old(self),
            final(ctx).address == old(ctx).address,
            old(ctx).actions@.is_prefix_of(final(ctx).actions@),
            msg matches ChannelListenerMessage::CreateResponderChannel { channel_id, payload }
                ==> final(ctx).actions@.len() == old(ctx).actions@.len() + 2 && (final(ctx).actions@[old(ctx).actions@.len() as int] matches Action::StartChannel {
                address,
                channel,
            } && address@ == spec_channel_address(channel_id@) && channel.is_initiator == false
                && channel.sent_first_msg == false && channel.received_first_msg == false
                && channel.route == reply && channel.channel_id@ == channel_id@
                && channel.kex is None && channel.keys is None
                && channel.key_exchange_completed_callback_route is None
                && channel.key_exchange_factory_address@ == old(self).key_exchange_factory_address@) && (final(ctx).actions@.last() matches Action::Send {
                route,
                message,
            } && route@ == seq![spec_channel_address(channel_id@)] && (message
                matches OutboundMessage::Channel(ChannelMessage::KeyExchange { payload: p }) && p@
                == payload@)),
    {
        match msg {
            ChannelListenerMessage::CreateResponderChannel { channel_id, payload } => {
                let address = Channel::get_address(channel_id.clone());
                let channel = Channel::new(
                    self.key_exchange_factory_address.clone(),
                    false,
                    reply,
                    channel_id,
                    None,
                );
                let to_channel = Route::new().append(address.clone());
                proof {
                    assert(to_channel@ =~= seq![address@]);
                }
                ctx.actions.push(Action::StartChannel { address, channel });
                ctx.actions.push(
                    Action::Send {
                        route: to_channel,
                        message: OutboundMessage::Channel(
                            ChannelMessage::KeyExchange { payload },
                        ),
                    },
                );
                proof {
                    assert(old(ctx).actions@.is_prefix_of(ctx.actions@));
                }
                Ok(())
            },
        }
    }
}

} // verus!
