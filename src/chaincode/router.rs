//! Classification of the messages that arrive on the peer stream.
use vstd::prelude::*;
use crate::messages::{ERROR, INIT, READY, REGISTERED, RESPONSE, TRANSACTION};

verus! {

/// Where the registration with the peer stands.
#[derive(Clone, Copy, Debug, PartialEq, Eq, Structural)]
pub enum RouterState {
    /// `REGISTER` was sent.
    Created,
    /// The peer answered `REGISTERED`.
    Established,
    /// The peer sent `READY`: invocations may come.
    Ready,
}

/// Where an inbound message goes.
#[derive(Clone, Copy, Debug, PartialEq, Eq, Structural)]
pub enum Route {
    /// A change of registration state, nothing to deliver.
    StateChange,
    /// A new invocation: to the transaction queue.
    Transaction,
    /// A reply to a state request: to the mailbox of its transaction.
    PeerResponse,
    /// Anything else: logged and dropped.
    Drop,
}

pub open spec fn route_of(message_type: i32) -> Route {
    if message_type == REGISTERED || message_type == READY {
        Route::StateChange
    } else if message_type == INIT || message_type == TRANSACTION {
        Route::Transaction
    } else if message_type == RESPONSE || message_type == ERROR {
        Route::PeerResponse
    } else {
        Route::Drop
    }
}

pub open spec fn next_state(state: RouterState, message_type: i32) -> RouterState {
    if message_type == REGISTERED && state == RouterState::Created {
        RouterState::Established
    } else if message_type == READY && state == RouterState::Established {
        RouterState::Ready
    } else {
        state
    }
}

/// The router's state after an inbound message of `message_type`, and where
/// the message goes.
pub fn on_message(state: RouterState, message_type: i32) -> (r: (RouterState, Route))
    ensures
        r.0 == next_state(state, message_type),
        r.1 == route_of(message_type),
{
    if message_type == REGISTERED {
        let next = if state == RouterState::Created {
            RouterState::Established
        } else {
            state
        };
        (next, Route::StateChange)
    } else if message_type == READY {
        let next = if state == RouterState::Established {
            RouterState::Ready
        } else {
            state
        };
        (next, Route::StateChange)
    } else if message_type == INIT || message_type == TRANSACTION {
        (state, Route::Transaction)
    } else if message_type == RESPONSE || message_type == ERROR {
        (state, Route::PeerResponse)
    } else {
        (state, Route::Drop)
    }
}

} // verus!
