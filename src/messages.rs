//! The game's protocol messages, as plain values.

use vstd::prelude::*;

use crate::direction::RelativeDirection;

verus! {

/// Why the server refused a registration.
#[derive(Debug, Clone, Copy, PartialEq, Eq, Structural)]
pub enum RegistrationError {
    AlreadyRegistered,
    InvalidName,
    InvalidRegistrationToken,
    TooManyPlayers,
}

/// Asks the server to register a team.
#[derive(Debug, Clone, PartialEq, Eq)]
pub struct RegisterTeam {
    pub name: String,
}

/// The server's answer to `RegisterTeam`.
#[derive(Debug, Clone, PartialEq, Eq)]
pub enum RegisterTeamResult {
    /// Registered: how many players to subscribe, with the team's token.
    Accepted { expected_players: u8, registration_token: String },
    /// Refused, and why.
    Rejected(RegistrationError),
}

/// Asks the server to add a player to a registered team.
#[derive(Debug, Clone, PartialEq, Eq)]
pub struct SubscribePlayer {
    pub name: String,
    pub registration_token: String,
}

/// The server's answer to `SubscribePlayer`.
#[derive(Debug, Clone, Copy, PartialEq, Eq, Structural)]
pub enum SubscribePlayerResult {
    /// Subscribed.
    Accepted,
    /// Refused, and why.
    Rejected(RegistrationError),
}

/// What a player asks to do on its turn.
#[derive(Debug, Clone, PartialEq, Eq)]
pub enum Action {
    MoveTo(RelativeDirection),
    SolveChallenge { answer: String },
}

/// Why the server refused an action.
#[derive(Debug, Clone, Copy, PartialEq, Eq, Structural)]
pub enum ActionError {
    CannotPassThroughWall,
    CannotPassThroughOpponent,
    NoRunningChallenge,
    SolveChallengeFirst,
    InvalidChallengeSolution,
}

/// A puzzle the server poses to the team.
#[derive(Debug, Clone, Copy, PartialEq, Eq, Structural)]
pub enum Challenge {
    SecretSumModulo(u64),
    SOS,
}

/// Help text the server may send.
#[derive(Debug, Clone, PartialEq, Eq)]
pub struct SOSHelper {
    pub message: String,
}

/// What the server sent back after an action, as far as a player acts on it.
#[derive(Debug, Clone, PartialEq, Eq)]
pub enum ServerEvent {
    /// A new encoded radar view.
    RadarView(String),
    /// A challenge for the team.
    Challenge(Challenge),
    /// The action was refused.
    ActionError(ActionError),
    /// A hint carrying this player's secret.
    Secret(u64),
    /// Anything else: other hints, unexpected messages.
    Other,
}

} // verus!
