//! The account-level event dispatcher: maps each inbound event to the one
//! action the bot takes for it.
//!
//! A challenge is accepted; a game start opens that game's board-state
//! stream and starts a session bound to it; every other event kind is
//! ignored, so unrecognized events never abort the dispatcher loop.

use vstd::prelude::*;

verus! {

/// One inbound account-level event.
#[derive(Debug)]
pub enum AccountEvent {
    /// An incoming challenge, by its challenge id.
    Challenge {
        /// The challenge id to accept.
        id: String,
    },
    /// A game has started, by its game id.
    GameStart {
        /// The id of the started game.
        game_id: String,
    },
    /// Any other event kind.
    Other,
}

/// The action the dispatcher takes for one event.
#[derive(Debug)]
pub enum DispatchAction {
    /// Call the accept-challenge interface with this id. The result is only
    /// logged; there is no retry.
    AcceptChallenge {
        /// The challenge id to accept.
        id: String,
    },
    /// Open the board-state stream of this game and start a session bound
    /// to it, running concurrently with the dispatcher loop.
    StartSession {
        /// The id of the game to attach to.
        game_id: String,
    },
    /// Do nothing.
    Ignore,
}

/// Decides the dispatcher's action for one account-level event.
pub fn dispatch(ev: AccountEvent) -> (a: DispatchAction)
    ensures
        ev matches AccountEvent::Challenge { id } ==> (a matches DispatchAction::AcceptChallenge {
            id: out,
        } && out == id),
        ev matches AccountEvent::GameStart { game_id } ==> (a
            matches DispatchAction::StartSession { game_id: out } && out == game_id),
        ev is Other ==> a is Ignore,
{
    match ev {
        AccountEvent::Challenge { id } => DispatchAction::AcceptChallenge { id },
        AccountEvent::GameStart { game_id } => DispatchAction::StartSession { game_id },
        AccountEvent::Other => DispatchAction::Ignore,
    }
}

} // verus!
