//! One player's decisions: what to do on its turn, and how to take what the
//! server answered. Sending, receiving and waiting are left to the caller.

use vstd::prelude::*;

use crate::base64::DecodeError;
use crate::challenge::{challenge_answer, total, with_secret, SharedSecrets};
use crate::direction::{relative_between, CardinalDirection, RelativeDirection};
use crate::glyph::{glyphs_of, Glyphs};
use crate::map::{counts_of, target_of, MazeMap, MAX_SIDE};
use crate::messages::{ActionError, Challenge, ServerEvent};
use crate::radar::{decoded_radar_grid, RadarView};

verus! {

/// A player: its name, its map, its heading and how many moves it sent.
pub struct PlayerAgent {
    pub name: String,
    pub map: MazeMap,
    pub cardinal_direction: CardinalDirection,
    pub move_count: usize,
}

/// What a player does on its turn.
#[derive(Debug, Clone, Copy, PartialEq, Eq, Structural)]
pub enum TurnPlan {
    /// Send this answer to the pending challenge.
    Solve(u64),
    /// Send this move, which heads the player in the given direction.
    Move(RelativeDirection, CardinalDirection),
    /// No open direction is left: the team's game is over.
    Exhausted,
}

/// The answer owed to the pending challenge, if there is one the secrets
/// can answer.
pub open spec fn pending_answer(pending: Option<Challenge>, secrets: Seq<(Seq<char>, u64)>) -> Option<u64> {
    match pending {
        Some(c) => answer_of(c, secrets),
        None => None,
    }
}

/// A challenge the team can work on: a secret sum with a modulus above zero.
pub open spec fn is_answerable(c: Challenge) -> bool {
    match c {
        Challenge::SecretSumModulo(m) => m > 0,
        Challenge::SOS => false,
    }
}

/// What follows a server's answer to a move.
#[derive(Debug, Clone, Copy, PartialEq, Eq, Structural)]
pub enum Reaction {
    /// Go on with the next turn.
    Continue,
    /// A challenge is pending: solve it now.
    SolveChallenge,
    /// The radar view could not be decoded; the map is unchanged.
    RadarRejected(DecodeError),
    /// The map cannot grow any further; it is unchanged.
    MapFull,
}

/// The answer a challenge calls for, as `challenge_answer` gives it.
pub open spec fn answer_of(c: Challenge, secrets: Seq<(Seq<char>, u64)>) -> Option<u64> {
    match c {
        Challenge::SecretSumModulo(m) => if m > 0 {
            Some((total(secrets) % (m as int)) as u64)
        } else {
            None
        },
        Challenge::SOS => None,
    }
}

impl PlayerAgent {
    /// The map is well formed, the player's position being where it stands
    /// before its next move.
    pub open spec fn wf(&self) -> bool {
        self.map.wf()
    }

    /// A player named `name` whose first radar view, taken facing North,
    /// is `encoded_radar`; fails when the radar cannot be decoded.
    pub fn new(name: String, encoded_radar: String) -> (r: Result<PlayerAgent, DecodeError>)
        ensures
            match r {
                Ok(agent) => {
                    &&& agent.wf()
                    &&& agent.name == name
                    &&& decoded_radar_grid(encoded_radar@, CardinalDirection::North) == Ok::<
                        Glyphs,
                        DecodeError,
                    >(glyphs_of(&agent.map.grid))
                    &&& agent.map.pos() == (3int, 3int)
                    &&& agent.map.current_cardinal_direction == CardinalDirection::North
                    &&& agent.cardinal_direction == CardinalDirection::North
                    &&& agent.move_count == 0
                },
                Err(e) => decoded_radar_grid(encoded_radar@, CardinalDirection::North) == Err::<
                    Glyphs,
                    DecodeError,
                >(e),
            },
    {
        match RadarView::new(encoded_radar, CardinalDirection::North) {
            Ok(view) => {
                proof {
                    crate::glyph::lemma_grid_shape(&view.grid, 7, 7);
                }
                let map: MazeMap = MazeMap::new(&view.grid, CardinalDirection::North);
                proof {
                    assert(glyphs_of(&map.grid)[0].len() == 7);
                    crate::glyph::lemma_grid_shape(&map.grid, 7, 7);
                    assert(map.rows() == 7);
                    assert(map.cols() == 7);
                    assert(map.wf());
                    assert(decoded_radar_grid(encoded_radar@, CardinalDirection::North) == Ok::<Glyphs, DecodeError>(glyphs_of(&map.grid)));
                }
                Ok(PlayerAgent { name, map, cardinal_direction: CardinalDirection::North, move_count: 0 })
            },
            Err(e) => Err(e),
        }
    }

    /// Decides this turn: answer a pending challenge when the secrets can,
    /// else (no challenge, or one they cannot answer) take the next move by
    /// Tremaux's rule. The visit is counted and
    /// the heading turned, but the position stays until the server's radar
    /// view confirms the move.
    pub fn plan_turn(&mut self, pending: Option<Challenge>, secrets: &SharedSecrets) -> (r: TurnPlan)
        requires
            old(self).wf(),
        ensures
            final(self).wf(),
            final(self).name == old(self).name,
            final(self).cardinal_direction == old(self).cardinal_direction,
            match pending_answer(pending, secrets.contents()) {
                Some(a) => {
                    &&& r == TurnPlan::Solve(a)
                    &&& *final(self) == *old(self)
                },
                None => match r {
                    TurnPlan::Move(rel, d) => {
                        let t = target_of(old(self).map.pos(), d);
                        let n = old(self).map.count_at(t.0, t.1);
                        &&& old(self).map.preferred(d)
                        &&& rel == relative_between(old(self).map.current_cardinal_direction, d)
                        &&& final(self).map.pos() == old(self).map.pos()
                        &&& final(self).map.current_cardinal_direction == d
                        &&& final(self).map.grid == old(self).map.grid
                        &&& counts_of(&final(self).map.visits) == counts_of(&old(self).map.visits).update(
                            t.0,
                            counts_of(&old(self).map.visits)[t.0].update(
                                t.1,
                                if n < u32::MAX {
                                    (n + 1) as u32
                                } else {
                                    n
                                },
                            ),
                        )
                        &&& final(self).move_count == if old(self).move_count < usize::MAX {
                            old(self).move_count + 1
                        } else {
                            old(self).move_count as int
                        }
                    },
                    TurnPlan::Exhausted => {
                        &&& forall|d: CardinalDirection| !old(self).map.can_move(d)
                        &&& *final(self) == *old(self)
                    },
                    _ => false,
                },
            },
    {
        let answer: Option<u64> = match pending {
            Some(c) => challenge_answer(&c, secrets),
            None => None,
        };
        match answer {
            Some(a) => TurnPlan::Solve(a),
            None => {
                let from: (isize, isize) = self.map.player_position;
                match self.map.next_move_tremaux() {
                    Some((rel, d)) => {
                        self.map.player_position = from;
                        if self.move_count < usize::MAX {
                            self.move_count = self.move_count + 1;
                        }
                        TurnPlan::Move(rel, d)
                    },
                    None => TurnPlan::Exhausted,
                }
            },
        }
    }

    /// Takes the server's answer to a move towards `moved`: a radar view is
    /// decoded and merged into the map (moving the player), a secret-sum
    /// challenge becomes pending and is to be solved (any other challenge is
    /// let go), a request to solve first is
    /// followed when a challenge is pending, a secret is stored under this
    /// player's name, and anything else is let go.
    pub fn handle_move_response(
        &mut self,
        event: ServerEvent,
        moved: CardinalDirection,
        secrets: &mut SharedSecrets,
        pending: &mut Option<Challenge>,
    ) -> (r: Reaction)
        requires
            old(self).wf(),
        ensures
            final(self).wf(),
            final(self).name == old(self).name,
            final(self).move_count == old(self).move_count,
            match event {
                ServerEvent::RadarView(s) => {
                    &&& *final(pending) == *old(pending)
                    &&& final(secrets).contents() == old(secrets).contents()
                    &&& match decoded_radar_grid(s@, moved) {
                        Err(e) => r == Reaction::RadarRejected(e) && *final(self) == *old(self),
                        Ok(g) => if old(self).map.rows() + 2 < MAX_SIDE && old(self).map.cols() + 2
                            < MAX_SIDE {
                            &&& r == Reaction::Continue
                            &&& glyphs_of(&final(self).map.grid) == old(self).map.merged_glyphs(g, moved)
                            &&& counts_of(&final(self).map.visits) == old(self).map.expanded_counts(moved)
                            &&& final(self).map.pos() == old(self).map.merged_position(moved)
                            &&& final(self).map.current_cardinal_direction == moved
                            &&& final(self).cardinal_direction == moved
                        } else {
                            r == Reaction::MapFull && *final(self) == *old(self)
                        },
                    }
                },
                ServerEvent::Challenge(c) => {
                    &&& r == if is_answerable(c) {
                        Reaction::SolveChallenge
                    } else {
                        Reaction::Continue
                    }
                    &&& *final(pending) == if is_answerable(c) {
                        Some(c)
                    } else {
                        *old(pending)
                    }
                    &&& *final(self) == *old(self)
                    &&& final(secrets).contents() == old(secrets).contents()
                },
                ServerEvent::ActionError(err) => {
                    &&& r == if err == ActionError::SolveChallengeFirst && old(pending).is_some() {
                        Reaction::SolveChallenge
                    } else {
                        Reaction::Continue
                    }
                    &&& *final(pending) == *old(pending)
                    &&& *final(self) == *old(self)
                    &&& final(secrets).contents() == old(secrets).contents()
                },
                ServerEvent::Secret(v) => {
                    &&& r == Reaction::Continue
                    &&& final(secrets).contents() == with_secret(
                        old(secrets).contents(),
                        old(self).name@,
                        v,
                    )
                    &&& *final(pending) == *old(pending)
                    &&& *final(self) == *old(self)
                },
                ServerEvent::Other => {
                    &&& r == Reaction::Continue
                    &&& *final(pending) == *old(pending)
                    &&& *final(self) == *old(self)
                    &&& final(secrets).contents() == old(secrets).contents()
                },
            },
    {
        match event {
            ServerEvent::RadarView(s) => {
                match RadarView::new(s, moved) {
                    Err(e) => Reaction::RadarRejected(e),
                    Ok(view) => {
                        if self.map.grid.len() + 2 < MAX_SIDE && self.map.grid[0].len() + 2
                            < MAX_SIDE {
                            self.map.merge_radar_view(&view.grid, moved);
                            self.cardinal_direction = moved;
                            Reaction::Continue
                        } else {
                            Reaction::MapFull
                        }
                    },
                }
            },
            ServerEvent::Challenge(c) => {
                match c {
                    Challenge::SecretSumModulo(m) => if m > 0 {
                        *pending = Some(c);
                        Reaction::SolveChallenge
                    } else {
                        Reaction::Continue
                    },
                    Challenge::SOS => Reaction::Continue,
                }
            },
            ServerEvent::ActionError(err) => {
                if err == ActionError::SolveChallengeFirst && pending.is_some() {
                    Reaction::SolveChallenge
                } else {
                    Reaction::Continue
                }
            },
            ServerEvent::Secret(v) => {
                secrets.insert(self.name.clone(), v);
                Reaction::Continue
            },
            ServerEvent::Other => Reaction::Continue,
        }
    }
}

} // verus!
