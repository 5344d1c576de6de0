//! Move selection: uniformly at random from the legal moves, or delegated
//! to the engine bridge.
//!
//! The random strategy is complete here; the engine strategy is realized by
//! the session emitting a request to the engine bridge and resuming when the
//! answer event arrives.

use vstd::prelude::*;

verus! {

/// The two move-selection strategies.
#[derive(Clone, Copy, Debug, PartialEq, Eq, Structural)]
pub enum Strategy {
    /// Pick uniformly at random from the legal moves.
    Random,
    /// Delegate to the external engine through the engine bridge.
    Engine,
}

/// Why no move could be selected.
#[derive(Clone, Copy, Debug, PartialEq, Eq, Structural)]
pub enum SelectionError {
    /// The supplied legal-move set was empty, which signals game over.
    NoLegalMoves,
    /// The engine bridge reported its process unusable.
    EngineUnavailable,
    /// No engine answer arrived within the bounded wait.
    Timeout,
}

/// Relies on `rand::random_range` over `0..n` with the thread-local
/// generator. Which index comes back depends on chance, so nothing more
/// than the bound is stated.
#[verifier::external_body]
fn random_below(n: usize) -> (i: usize)
    requires
        n > 0,
    ensures
        i < n,
{
    rand::random_range(0..n)
}

/// Draws one move uniformly at random from `legal`. Fails exactly when
/// `legal` is empty; the chosen move is always one of `legal`.
pub fn select_random(legal: &Vec<String>) -> (r: Result<String, SelectionError>)
    ensures
        r is Ok <==> legal.deep_view().len() > 0,
        r matches Ok(m) ==> legal.deep_view().contains(m@),
        r matches Err(e) ==> e == SelectionError::NoLegalMoves,
{
    if legal.len() == 0 {
        return Err(SelectionError::NoLegalMoves);
    }
    let i = random_below(legal.len());
    let m = legal[i].clone();
    proof {
        assert(legal.deep_view()[i as int] == m@);
        assert(legal.deep_view().contains(m@));
    }
    Ok(m)
}

} // verus!
