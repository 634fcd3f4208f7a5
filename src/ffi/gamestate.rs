//! Ownership rules of engine state handles.
//!
//! The engine owns each game state and hands out its address. A `GameState`
//! holds at most one such address in its slot. An advance takes the address
//! out (the engine then owns it alone and may hand back a successor); a
//! release takes it out to be freed. Either way the slot is left empty, so
//! an address is handed on at most once, and never read after.

use vstd::prelude::*;

use super::error::MahjongFFIError;

verus! {

/// The address of an engine state, never null. It has no `Clone`: whoever
/// holds it is the one side that may pass it to the engine.
#[derive(Debug)]
pub struct RawGameState {
    addr: usize,
}

impl View for RawGameState {
    type V = usize;

    closed spec fn view(&self) -> usize {
        self.addr
    }
}

impl RawGameState {
    #[verifier::type_invariant]
    spec fn non_null(self) -> bool {
        self.addr != 0
    }

    /// The engine's answer as a handle: none for the null address.
    pub fn from_addr(addr: usize) -> (r: Option<RawGameState>)
        ensures
            r is None <==> addr == 0,
            r matches Some(p) ==> p@ == addr,
    {
        if addr == 0 {
            None
        } else {
            Some(RawGameState { addr })
        }
    }

    pub fn addr(&self) -> (r: usize)
        ensures
            r == self@,
            r != 0,
    {
        proof {
            use_type_invariant(self);
        }
        self.addr
    }
}

/// What an advance takes from a slot: the address it holds, or, from an
/// empty slot, the report that it was already consumed.
pub open spec fn take_outcome(slot: Option<usize>) -> Result<usize, MahjongFFIError> {
    match slot {
        Some(addr) => Ok(addr),
        None => Err(MahjongFFIError::GameStateConsumed),
    }
}

/// What a release hands to the engine to free: the address the slot holds, if any.
pub open spec fn release_outcome(slot: Option<usize>) -> Option<usize> {
    slot
}

/// The slot after an advance has taken from it: empty, whatever it held.
pub open spec fn slot_after_take(slot: Option<usize>) -> Option<usize> {
    None
}

/// The slot after a release: empty, whatever it held.
pub open spec fn slot_after_release(slot: Option<usize>) -> Option<usize> {
    None
}

/// A handle on one engine state: its slot holds the state's address until
/// an advance or a release takes it.
#[derive(Debug)]
pub struct GameState {
    ptr: Option<RawGameState>,
}

impl View for GameState {
    type V = Option<usize>;

    closed spec fn view(&self) -> Option<usize> {
        match self.ptr {
            Some(p) => Some(p@),
            None => None,
        }
    }
}

impl GameState {
    /// A handle on the state the engine created; the engine refused when it
    /// answered with the null address.
    pub fn new(created: usize) -> (r: Result<GameState, MahjongFFIError>)
        ensures
            match r {
                Ok(g) => created != 0 && g@ == Some(created),
                Err(e) => created == 0 && e == MahjongFFIError::FailedToAllocateGameState,
            },
    {
        match RawGameState::from_addr(created) {
            Some(p) => Ok(GameState { ptr: Some(p) }),
            None => Err(MahjongFFIError::FailedToAllocateGameState),
        }
    }

    /// The address in the slot, if the slot holds one.
    pub fn as_ptr(&self) -> (r: Option<usize>)
        ensures
            r == self@,
    {
        match &self.ptr {
            Some(p) => Some(p.addr()),
            None => None,
        }
    }

    /// Takes the state out of the slot to hand it to the engine's advance.
    /// The slot is empty afterwards, whatever the outcome.
    pub fn take_for_advance(&mut self) -> (r: Result<RawGameState, MahjongFFIError>)
        ensures
            final(self)@ == slot_after_take(old(self)@),
            match r {
                Ok(p) => take_outcome(old(self)@) == Ok::<usize, MahjongFFIError>(p@),
                Err(e) => take_outcome(old(self)@) == Err::<usize, MahjongFFIError>(e),
            },
    {
        match self.ptr.take() {
            Some(p) => Ok(p),
            None => Err(MahjongFFIError::GameStateConsumed),
        }
    }

    /// The handle that follows an advance: the engine's successor, or the
    /// end of the game when the engine answered with the null address.
    pub fn from_successor(successor: usize) -> (r: Result<GameState, MahjongFFIError>)
        ensures
            match r {
                Ok(g) => successor != 0 && g@ == Some(successor),
                Err(e) => successor == 0 && e == MahjongFFIError::GameEnded,
            },
    {
        match RawGameState::from_addr(successor) {
            Some(p) => Ok(GameState { ptr: Some(p) }),
            None => Err(MahjongFFIError::GameEnded),
        }
    }

    /// Takes the state out of the slot for the engine to free. The slot is
    /// empty afterwards, so a second release frees nothing.
    pub fn release(&mut self) -> (r: Option<RawGameState>)
        ensures
            final(self)@ == slot_after_release(old(self)@),
            match r {
                Some(p) => release_outcome(old(self)@) == Some(p@),
                None => release_outcome(old(self)@) is None,
            },
    {
        self.ptr.take()
    }
}

/// Two advances on one handle, serialized by its lock: the first takes the
/// state exactly when the handle held one, the second is told the state was
/// consumed, and a release after them frees nothing, so no state is handed
/// on twice.
pub proof fn lemma_one_advance_wins(slot: Option<usize>)
    ensures
        take_outcome(slot) is Ok <==> slot is Some,
        take_outcome(slot_after_take(slot)) == Err::<usize, MahjongFFIError>(
            MahjongFFIError::GameStateConsumed,
        ),
        release_outcome(slot_after_take(slot_after_take(slot))) is None,
{
}

/// Once an advance or a release has emptied a handle, there is nothing left
/// to observe: the slot holds no address, for any later step of either kind.
pub proof fn lemma_nothing_to_observe_after_take_or_release(slot: Option<usize>)
    ensures
        slot_after_take(slot) is None,
        slot_after_release(slot) is None,
        slot_after_release(slot_after_take(slot)) is None,
        slot_after_take(slot_after_release(slot)) is None,
{
}

} // verus!
