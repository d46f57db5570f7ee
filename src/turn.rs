//! Round-robin turns shared by the players of a team.

use vstd::prelude::*;

verus! {

/// Whose turn it is, and whether the game is over for the team.
#[derive(Debug, Clone, Copy, PartialEq, Eq, Structural)]
pub struct TurnState {
    pub current: usize,
    pub game_over: bool,
}

/// Player `id` has to wait in state `s`.
pub open spec fn waits(s: TurnState, id: int) -> bool {
    s.current != id && !s.game_over
}

/// `s` after the current player handed the turn on among `total` players.
pub open spec fn advanced(s: TurnState, total: int) -> TurnState {
    TurnState { current: ((s.current + 1) % total) as usize, game_over: s.game_over }
}

impl TurnState {
    /// The first player's turn, game running.
    pub fn new() -> (r: TurnState)
        ensures
            r.current == 0,
            !r.game_over,
    {
        TurnState { current: 0, game_over: false }
    }

    /// Whether player `player_id` must keep waiting: it is not its turn and
    /// the game goes on.
    pub fn must_wait(&self, player_id: usize) -> (r: bool)
        ensures
            r == waits(*self, player_id as int),
    {
        self.current != player_id && !self.game_over
    }

    /// Hands the turn to the next of `total_players`, round robin.
    pub fn advance(&mut self, total_players: usize)
        requires
            total_players > 0,
            old(self).current < total_players,
        ensures
            *final(self) == advanced(*old(self), total_players as int),
            final(self).current < total_players,
    {
        self.current = (self.current + 1) % total_players;
    }

    /// Ends the game for every player.
    pub fn finish(&mut self)
        ensures
            final(self).game_over,
            final(self).current == old(self).current,
    {
        self.game_over = true;
    }
}

/// While the game runs, exactly the player whose turn it is may go on, and
/// once it hands the turn on exactly the next one may.
pub proof fn lemma_one_player_at_a_time(s: TurnState, total: usize)
    requires
        total > 0,
        s.current < total,
        !s.game_over,
    ensures
        forall|id: int| 0 <= id < total ==> (!waits(s, id) <==> id == s.current),
        forall|id: int|
            0 <= id < total ==> (!waits(advanced(s, total as int), id) <==> id == (s.current + 1)
                % (total as int)),
        total > 1 ==> (s.current + 1) % (total as int) != s.current,
{
    let next = (s.current + 1) % (total as int);
    let c = s.current as int;
    let t = total as int;
    if c + 1 < t {
        assert((c + 1) % t == c + 1) by (nonlinear_arith)
            requires
                0 <= c + 1 < t,
        ;
    } else {
        assert((c + 1) % t == 0) by (nonlinear_arith)
            requires
                c + 1 == t,
                t > 0,
        ;
    }
    assert(advanced(s, total as int).current == next);
}

/// When the game is over no player waits.
pub proof fn lemma_game_over_releases_all(s: TurnState, id: int)
    requires
        s.game_over,
    ensures
        !waits(s, id),
{
}

} // verus!
