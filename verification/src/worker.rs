use vstd::prelude::*;

use crate::channel::{Channel, ChannelMessage, KeyExchangeCompleted};
use crate::channel_listener::ChannelListenerMessage;
use crate::error::ChannelError;
use crate::routing::{Address, Envelope, Route};

verus! {

/// A typed message handed to the routing substrate for delivery.
pub enum OutboundMessage {
    Channel(ChannelMessage),
    Listener(ChannelListenerMessage),
    Completed(KeyExchangeCompleted),
}

/// One effect a handler asks the routing substrate to perform. Handlers
/// never touch the substrate themselves; they only append actions.
pub enum Action {
    /// Send a typed message along a route.
    Send { route: Route, message: OutboundMessage },
    /// Register and start a new channel under an address.
    StartChannel { address: Address, channel: Channel },
    /// Hand a decrypted envelope back to the substrate for delivery toward
    /// its onward destination.
    Forward { envelope: Envelope },
}

/// What the substrate exposes to a handler while it runs: the handler's own
/// address and the list of effects requested so far. Effects that were
/// appended before a handler fails have already been requested and stay.
pub struct Context {
    pub address: Address,
    pub actions: Vec<Action>,
}

impl Context {
    /// A context for a worker at the given address, with no effects yet.
    pub fn new(address: Address) -> (r: Self)
        ensures
            r.address@ == address@,
            r.actions@ == Seq::<Action>::empty(),
    {
        Context { address, actions: Vec::new() }
    }
}

/// The base worker shape: what a message processor plugged into the
/// substrate implements. All methods default to doing nothing.
pub trait Worker {
    /// The message type the worker accepts.
    type Message;

    /// Runs once after the worker is registered, before any message.
    fn initialize(&mut self, _context: &mut Context) -> (r: Result<(), ChannelError>) {
        Ok(())
    }

    /// Runs once when the worker is being stopped.
    fn shutdown(&mut self, _context: &mut Context) -> (r: Result<(), ChannelError>) {
        Ok(())
    }

    /// Handles one delivered message, given its onward route and the reply
    /// route back to the sender.
    fn handle_message(
        &mut self,
        _context: &mut Context,
        _msg: Self::Message,
        _onward: Route,
        _reply: Route,
    ) -> (r: Result<(), ChannelError>) {
        Ok(())
    }
}

} // verus!
