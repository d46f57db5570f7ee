use maze_client::add;
use maze_client::users::{get_user, UserError};
use maze_client::division::{div, MyError};
use maze_client::agent::{PlayerAgent, Reaction, TurnPlan};
use maze_client::base64::DecodeError;
use maze_client::challenge::{after_solve_attempt, challenge_answer, SharedSecrets, SolveOutcome};
use maze_client::direction::{
    absolute_to_relative_direction, CardinalDirection, Orientation, RelativeDirection,
};
use maze_client::frame::{decode_frame_length, encode_frame, length_prefix};
use maze_client::messages::{ActionError, Challenge, ServerEvent};
use maze_client::turn::TurnState;

#[test]
fn it_works() {
    let result = add(2, 2);
    assert_eq!(result, 4);
}

#[test]
fn secret_sum_modulo_seven() {
    let mut secrets: SharedSecrets = SharedSecrets::new();
    secrets.insert(String::from("A"), 3);
    secrets.insert(String::from("B"), 5);
    assert_eq!(secrets.calculate_secret_sum(7), 1);
    assert_eq!(challenge_answer(&Challenge::SecretSumModulo(7), &secrets), Some(1));
}

#[test]
fn secrets_replace_and_sum_wide() {
    let mut secrets: SharedSecrets = SharedSecrets::new();
    secrets.insert(String::from("Player 1"), u64::MAX);
    secrets.insert(String::from("Player 2"), u64::MAX);
    secrets.insert(String::from("Player 1"), 4);
    assert_eq!(secrets.len(), 2);
    // (4 + u64::MAX) mod u64::MAX == 4
    assert_eq!(secrets.calculate_secret_sum(u64::MAX), 4);
    assert_eq!(secrets.calculate_secret_sum(10), ((4u128 + u64::MAX as u128) % 10) as u64);
    assert_eq!(challenge_answer(&Challenge::SecretSumModulo(0), &secrets), None);
    assert_eq!(challenge_answer(&Challenge::SOS, &secrets), None);
    assert_eq!(SharedSecrets::new().calculate_secret_sum(3), 0);
}

#[test]
fn solve_attempt_outcomes() {
    let first = ServerEvent::ActionError(ActionError::SolveChallengeFirst);
    assert_eq!(after_solve_attempt(&first, 0, 3), SolveOutcome::Retry);
    assert_eq!(after_solve_attempt(&first, 3, 3), SolveOutcome::GiveUp);
    assert_eq!(
        after_solve_attempt(&ServerEvent::ActionError(ActionError::InvalidChallengeSolution), 0, 3),
        SolveOutcome::Clear
    );
    assert_eq!(after_solve_attempt(&ServerEvent::Other, 0, 3), SolveOutcome::Clear);
}

#[test]
fn one_thread_of_three_proceeds() {
    let mut state: TurnState = TurnState::new();
    assert_eq!(state.current, 0);
    let released: Vec<usize> = (0..3).filter(|id| !state.must_wait(*id)).collect();
    assert_eq!(released, vec![0]);
    state.advance(3);
    let released: Vec<usize> = (0..3).filter(|id| !state.must_wait(*id)).collect();
    assert_eq!(released, vec![1]);
    state.advance(3);
    state.advance(3);
    assert_eq!(state.current, 0);
    state.finish();
    assert!((0..3).all(|id| !state.must_wait(id)));
}

#[test]
fn directions_and_turns() {
    let n = CardinalDirection::North;
    let e = CardinalDirection::East;
    let s = CardinalDirection::South;
    let w = CardinalDirection::West;
    assert_eq!(absolute_to_relative_direction(&n, &n), RelativeDirection::Front);
    assert_eq!(absolute_to_relative_direction(&n, &e), RelativeDirection::Right);
    assert_eq!(absolute_to_relative_direction(&w, &n), RelativeDirection::Right);
    assert_eq!(absolute_to_relative_direction(&e, &n), RelativeDirection::Left);
    assert_eq!(absolute_to_relative_direction(&s, &n), RelativeDirection::Back);
    assert_eq!(Orientation::North.turn_right(), Orientation::East);
    assert_eq!(Orientation::North.turn_left(), Orientation::West);
    assert_eq!(Orientation::East.turn_back(), Orientation::West);
    assert_eq!(Orientation::North.to_movement(RelativeDirection::Front), (0, -1));
    assert_eq!(Orientation::East.to_movement(RelativeDirection::Right), (0, 1));
    assert_eq!(Orientation::West.to_movement(RelativeDirection::Left), (0, 1));
    assert_eq!(Orientation::South.to_movement(RelativeDirection::Back), (0, -1));
}

#[test]
fn frames_carry_a_little_endian_length() {
    assert_eq!(length_prefix(258), vec![2, 1, 0, 0]);
    let frame: Vec<u8> = encode_frame(&vec![7, 8, 9]).unwrap();
    assert_eq!(frame, vec![3, 0, 0, 0, 7, 8, 9]);
    assert_eq!(decode_frame_length(&frame[0..4]), Some(3));
    assert_eq!(decode_frame_length(&[0, 1, 0, 1]), Some(16777472));
    assert_eq!(decode_frame_length(&[1, 2, 3]), None);
}

#[test]
fn agent_plans_and_merges() {
    let mut agent: PlayerAgent =
        PlayerAgent::new(String::from("Player 1"), String::from("ieysGjGO8papd/a")).unwrap();
    assert_eq!(agent.map.player_position, (3, 3));
    let mut secrets: SharedSecrets = SharedSecrets::new();
    let mut pending: Option<Challenge> = None;
    // the golden view: from (3, 3) north (1, 3) is open behind no wall
    let plan: TurnPlan = agent.plan_turn(None, &secrets);
    assert_eq!(plan, TurnPlan::Move(RelativeDirection::Front, CardinalDirection::North));
    assert_eq!(agent.map.player_position, (3, 3));
    assert_eq!(agent.move_count, 1);
    let reaction: Reaction = agent.handle_move_response(
        ServerEvent::RadarView(String::from("ieysGjGO8papd/a")),
        CardinalDirection::North,
        &mut secrets,
        &mut pending,
    );
    assert_eq!(reaction, Reaction::Continue);
    assert_eq!(agent.map.player_position, (3, 3));
    assert_eq!(agent.map.grid.len(), 9);
    assert_eq!(agent.cardinal_direction, CardinalDirection::North);

    let reaction: Reaction = agent.handle_move_response(
        ServerEvent::Secret(6),
        CardinalDirection::North,
        &mut secrets,
        &mut pending,
    );
    assert_eq!(reaction, Reaction::Continue);
    assert_eq!(secrets.calculate_secret_sum(4), 2);

    let reaction: Reaction = agent.handle_move_response(
        ServerEvent::Challenge(Challenge::SecretSumModulo(4)),
        CardinalDirection::North,
        &mut secrets,
        &mut pending,
    );
    assert_eq!(reaction, Reaction::SolveChallenge);
    assert_eq!(pending, Some(Challenge::SecretSumModulo(4)));
    assert_eq!(agent.plan_turn(pending, &secrets), TurnPlan::Solve(2));
    // a challenge the secrets cannot answer does not hold the player back
    assert!(matches!(agent.plan_turn(Some(Challenge::SOS), &secrets), TurnPlan::Move(_, _)));

    let reaction: Reaction = agent.handle_move_response(
        ServerEvent::RadarView(String::from("bad!")),
        CardinalDirection::North,
        &mut secrets,
        &mut pending,
    );
    assert_eq!(reaction, Reaction::RadarRejected(DecodeError::InvalidCharacter));
    let reaction: Reaction = agent.handle_move_response(
        ServerEvent::ActionError(ActionError::SolveChallengeFirst),
        CardinalDirection::North,
        &mut secrets,
        &mut pending,
    );
    assert_eq!(reaction, Reaction::SolveChallenge);
    let mut none_pending: Option<Challenge> = None;
    let reaction: Reaction = agent.handle_move_response(
        ServerEvent::ActionError(ActionError::SolveChallengeFirst),
        CardinalDirection::North,
        &mut secrets,
        &mut none_pending,
    );
    assert_eq!(reaction, Reaction::Continue);
}

#[test]
fn test_div() {
    assert_eq!(div(8, 4).unwrap(), 2);
}

#[test]
fn test_div_by_zero() {
    assert!(div(8, 0).is_err());
}

#[test]
fn division_rounds_towards_zero() {
    assert_eq!(div(-7, 2), Ok(-3));
    assert_eq!(div(7, -2), Ok(-3));
    assert_eq!(div(-7, -2), Ok(3));
    assert_eq!(div(i32::MIN, 1), Ok(i32::MIN));
    assert_eq!(div(i32::MIN, 2), Ok(-1073741824));
    assert_eq!(div(0, 0), Err(MyError::DivideByZero));
}

#[test]
fn unanswerable_challenges_are_let_go() {
    let mut agent: PlayerAgent =
        PlayerAgent::new(String::from("Player 2"), String::from("ieysGjGO8papd/a")).unwrap();
    let mut secrets: SharedSecrets = SharedSecrets::new();
    let mut pending: Option<Challenge> = None;
    let reaction: Reaction = agent.handle_move_response(
        ServerEvent::Challenge(Challenge::SOS),
        CardinalDirection::North,
        &mut secrets,
        &mut pending,
    );
    assert_eq!(reaction, Reaction::Continue);
    assert_eq!(pending, None);
    let reaction: Reaction = agent.handle_move_response(
        ServerEvent::Challenge(Challenge::SecretSumModulo(0)),
        CardinalDirection::North,
        &mut secrets,
        &mut pending,
    );
    assert_eq!(reaction, Reaction::Continue);
    assert_eq!(pending, None);
    assert_eq!(
        agent.plan_turn(Some(Challenge::SecretSumModulo(0)), &secrets),
        TurnPlan::Move(RelativeDirection::Front, CardinalDirection::North)
    );
}

#[test]
fn users_cannot_be_found_without_a_database() {
    assert_eq!(get_user("John Doe"), Err(UserError::DBNotFound));
    assert_eq!(get_user("someone"), Err(UserError::DBNotFound));
}
