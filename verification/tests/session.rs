use game_session::machine::{check_game_status, get_game_status, handle, handle_reply, init, state};
use game_session::types::{
    ActorId, Command, Event, GameResult, GameStatus, HandleContext, MessageId, Session,
    SessionAction, SessionEvent, SessionStatus,
};

fn actor(n: u64) -> ActorId {
    ActorId { hi: 0, lo: n as u128 }
}

fn user1() -> ActorId {
    actor(10)
}

fn session_program() -> ActorId {
    actor(1)
}

fn target_program() -> ActorId {
    actor(2)
}

fn init_msg() -> MessageId {
    MessageId { hi: 0, lo: 100 }
}

fn client_ctx(block: u32) -> HandleContext {
    HandleContext { source: user1(), program_id: session_program(), block_height: block }
}

fn self_ctx(block: u32) -> HandleContext {
    HandleContext { source: session_program(), program_id: session_program(), block_height: block }
}

/// Runs one full `StartGame` round: request, suspension, downstream reply,
/// resumption. Returns the commands of the resumed dispatch.
fn start_game_round(session: &mut Session, block: u32) -> Vec<Command> {
    let cmds = handle(session, SessionAction::StartGame { user: user1() }, &client_ctx(block));
    assert!(matches!(cmds[0], Command::SendAction { .. }));
    assert!(matches!(cmds[1], Command::Wait));
    let woken = handle_reply(session, Event::GameStarted { user: user1() });
    assert!(matches!(woken[0], Command::Wake { .. }));
    handle(session, SessionAction::StartGame { user: user1() }, &client_ctx(block))
}

/// Runs one full `CheckWord` round: request, suspension, downstream reply
/// with the given letter report, resumption. Returns the commands of the
/// resumed dispatch.
fn check_word_round(
    session: &mut Session,
    word: &str,
    correct_positions: Vec<u8>,
    contained_in_word: Vec<u8>,
    block: u32,
) -> Vec<Command> {
    let action = SessionAction::CheckWord { user: user1(), word: String::from(word) };
    let cmds = handle(session, action.clone(), &client_ctx(block));
    assert!(matches!(cmds[0], Command::SendAction { .. }));
    assert!(matches!(cmds[1], Command::Wait));
    let woken = handle_reply(
        session,
        Event::WordChecked { user: user1(), correct_positions, contained_in_word },
    );
    assert!(matches!(woken[0], Command::Wake { .. }));
    handle(session, action, &client_ctx(block))
}

#[test]
fn test_game_session_state() {
    let mut session = init(target_program(), init_msg(), 1);
    start_game_round(&mut session, 2);

    // Guesses against the target word "human".
    check_word_round(&mut session, "house", vec![0], vec![2], 3);
    let snapshot = state(&session);
    assert_eq!(snapshot.session_status, SessionStatus::Waiting);

    check_word_round(&mut session, "horse", vec![0], vec![], 4);
    check_word_round(&mut session, "human", vec![0, 1, 2, 3, 4], vec![], 5);
    let snapshot = state(&session);
    assert_eq!(
        snapshot.session_status,
        SessionStatus::GameEnded { result: GameResult::Win }
    );
}

#[test]
fn test_timeout() {
    let mut session = init(target_program(), init_msg(), 1);
    start_game_round(&mut session, 2);
    check_word_round(&mut session, "hello", vec![0], vec![], 3);

    // The clock passes the deadline and the scheduled self-directed
    // status check fires.
    handle(
        &mut session,
        SessionAction::CheckGameStatus { user: user1() },
        &self_ctx(300),
    );
    let snapshot = state(&session);
    assert_eq!(
        snapshot.session_status,
        SessionStatus::GameEnded { result: GameResult::Lose }
    );
}

#[test]
fn test_init_record() {
    let session = init(target_program(), init_msg(), 7);
    assert_eq!(session.target_program_id, target_program());
    assert_eq!(session.session_status, SessionStatus::Waiting);
    assert_eq!(session.game_status, GameStatus { game_result: None });
    assert_eq!(session.msg_ids, Some((init_msg(), init_msg())));
    assert_eq!(session.guess_count, 0);
    assert_eq!(session.start_block, 7);
}

#[test]
fn test_start_game_scenario() {
    let mut session = init(target_program(), init_msg(), 1);
    let cmds = handle(&mut session, SessionAction::StartGame { user: user1() }, &client_ctx(2));
    assert_eq!(cmds.len(), 2);
    assert_eq!(
        cmds[0],
        Command::SendAction {
            to: target_program(),
            action: game_session::types::Action::StartGame { user: user1() },
        }
    );
    assert_eq!(cmds[1], Command::Wait);
    assert_eq!(state(&session).session_status, SessionStatus::MessageSent);

    let woken = handle_reply(&mut session, Event::GameStarted { user: user1() });
    assert_eq!(woken, vec![Command::Wake { message_id: init_msg() }]);
    assert_eq!(
        state(&session).session_status,
        SessionStatus::MessageReceived(Event::GameStarted { user: user1() })
    );

    let cmds = handle(&mut session, SessionAction::StartGame { user: user1() }, &client_ctx(3));
    assert_eq!(cmds.len(), 2);
    assert_eq!(
        cmds[0],
        Command::SendDelayed {
            to: session_program(),
            action: SessionAction::CheckGameStatus { user: user1() },
            delay: 200,
        }
    );
    assert_eq!(cmds[1], Command::Reply { event: SessionEvent::GameStarted { user: user1() } });
    assert_eq!(state(&session).session_status, SessionStatus::Waiting);
}

#[test]
fn test_win_reply_carries_status() {
    let mut session = init(target_program(), init_msg(), 1);
    start_game_round(&mut session, 2);
    let cmds = check_word_round(&mut session, "human", vec![0, 1, 2, 3, 4], vec![], 3);
    assert_eq!(
        cmds,
        vec![Command::Reply {
            event: SessionEvent::GameStatus(GameStatus { game_result: Some(GameResult::Win) }),
        }]
    );
    assert_eq!(get_game_status(&session), GameStatus { game_result: Some(GameResult::Win) });
}

#[test]
fn test_round_reply_reports_letters() {
    let mut session = init(target_program(), init_msg(), 1);
    start_game_round(&mut session, 2);
    let cmds = check_word_round(&mut session, "house", vec![0, 3], vec![1], 3);
    assert_eq!(
        cmds,
        vec![Command::Reply {
            event: SessionEvent::WordChecked {
                user: user1(),
                correct_positions: vec![0, 3],
                contained_in_word: vec![1],
            },
        }]
    );
    assert_eq!(state(&session).session_status, SessionStatus::Waiting);
    assert_eq!(get_game_status(&session), GameStatus { game_result: None });
}

#[test]
fn test_guess_count_counts_rounds() {
    let mut session = init(target_program(), init_msg(), 1);
    start_game_round(&mut session, 2);
    assert_eq!(state(&session).guess_count, 0);
    check_word_round(&mut session, "house", vec![0], vec![], 3);
    assert_eq!(state(&session).guess_count, 1);
    check_word_round(&mut session, "horse", vec![0], vec![], 4);
    assert_eq!(state(&session).guess_count, 2);
    check_word_round(&mut session, "hosta", vec![0], vec![], 5);
    assert_eq!(state(&session).guess_count, 3);
}

#[test]
fn test_lose_after_six_rounds() {
    let mut session = init(target_program(), init_msg(), 1);
    start_game_round(&mut session, 2);
    for round in 0..5u32 {
        check_word_round(&mut session, "house", vec![0], vec![], 3 + round);
        assert_eq!(state(&session).guess_count, round + 1);
        assert_eq!(state(&session).session_status, SessionStatus::Waiting);
    }
    let cmds = check_word_round(&mut session, "horse", vec![0], vec![], 9);
    assert_eq!(
        cmds,
        vec![Command::Reply {
            event: SessionEvent::GameStatus(GameStatus { game_result: Some(GameResult::Lose) }),
        }]
    );
    let snapshot = state(&session);
    assert_eq!(snapshot.guess_count, 6);
    assert_eq!(snapshot.session_status, SessionStatus::GameEnded { result: GameResult::Lose });
}

#[test]
fn test_result_immutable_after_win() {
    let mut session = init(target_program(), init_msg(), 1);
    start_game_round(&mut session, 2);
    check_word_round(&mut session, "human", vec![0, 1, 2, 3, 4], vec![], 3);
    let before = state(&session);

    let cmds = handle(
        &mut session,
        SessionAction::CheckWord { user: user1(), word: String::from("house") },
        &client_ctx(4),
    );
    assert_eq!(
        cmds,
        vec![Command::Reply {
            event: SessionEvent::GameStatus(GameStatus { game_result: Some(GameResult::Win) }),
        }]
    );
    assert_eq!(state(&session), before);

    // Even a late deadline check cannot overwrite the declared win.
    handle(&mut session, SessionAction::CheckGameStatus { user: user1() }, &self_ctx(500));
    assert_eq!(state(&session), before);
}

#[test]
fn test_already_sent_error() {
    let mut session = init(target_program(), init_msg(), 1);
    handle(&mut session, SessionAction::StartGame { user: user1() }, &client_ctx(2));
    assert_eq!(state(&session).session_status, SessionStatus::MessageSent);
    let before = state(&session);

    let cmds = handle(
        &mut session,
        SessionAction::CheckWord { user: user1(), word: String::from("house") },
        &client_ctx(3),
    );
    assert_eq!(
        cmds,
        vec![Command::Reply {
            event: SessionEvent::GameError(String::from(
                "Message has already been sent, restart the game",
            )),
        }]
    );
    assert_eq!(state(&session), before);

    let cmds = handle(&mut session, SessionAction::StartGame { user: user1() }, &client_ctx(3));
    assert_eq!(cmds.len(), 1);
    assert_eq!(state(&session), before);
}

#[test]
fn test_too_many_guesses_error() {
    // The quota arm guards the machine even in a record no honest run
    // produces: still `Waiting` with the counter already at the limit.
    let mut session = Session {
        target_program_id: target_program(),
        session_status: SessionStatus::Waiting,
        game_status: GameStatus { game_result: None },
        msg_ids: Some((init_msg(), init_msg())),
        guess_count: 6,
        start_block: 1,
    };
    let cmds = handle(
        &mut session,
        SessionAction::CheckWord { user: user1(), word: String::from("house") },
        &client_ctx(2),
    );
    assert_eq!(
        cmds,
        vec![Command::Reply {
            event: SessionEvent::GameError(String::from("Game over: Too many guesses")),
        }]
    );
    assert_eq!(session.session_status, SessionStatus::Waiting);
    assert_eq!(session.guess_count, 6);
}

#[test]
fn test_unauthorized_status_check() {
    let mut session = init(target_program(), init_msg(), 1);
    let before = state(&session);
    // The check runs at the primary dispatch and once more after it, so an
    // unauthorized poll is refused twice.
    let cmds = handle(&mut session, SessionAction::CheckGameStatus { user: user1() }, &client_ctx(2));
    assert_eq!(cmds.len(), 2);
    for cmd in &cmds {
        assert_eq!(
            *cmd,
            Command::Reply {
                event: SessionEvent::GameError(String::from(
                    "Only the program can check game status",
                )),
            }
        );
    }
    assert_eq!(state(&session), before);
}

#[test]
fn test_status_poll_before_deadline() {
    let mut session = init(target_program(), init_msg(), 1);
    let cmds = handle(&mut session, SessionAction::CheckGameStatus { user: user1() }, &self_ctx(150));
    assert_eq!(cmds.len(), 2);
    for cmd in &cmds {
        assert_eq!(
            *cmd,
            Command::SendEvent {
                to: user1(),
                event: SessionEvent::GameStatus(GameStatus { game_result: None }),
            }
        );
    }
    assert_eq!(state(&session).session_status, SessionStatus::Waiting);
}

#[test]
fn test_deadline_boundary() {
    // Exactly at start_block + 200 the deadline has elapsed.
    let mut session = init(target_program(), init_msg(), 1);
    let mut other = init(target_program(), init_msg(), 1);
    let mut cmds = check_game_status(&mut session, user1(), &self_ctx(200));
    assert_eq!(
        cmds,
        vec![Command::SendEvent {
            to: user1(),
            event: SessionEvent::GameStatus(GameStatus { game_result: None }),
        }]
    );
    assert_eq!(session.session_status, SessionStatus::Waiting);
    cmds = check_game_status(&mut other, user1(), &self_ctx(201));
    assert_eq!(
        cmds,
        vec![Command::SendEvent {
            to: user1(),
            event: SessionEvent::GameStatus(GameStatus { game_result: Some(GameResult::Lose) }),
        }]
    );
    assert_eq!(other.session_status, SessionStatus::GameEnded { result: GameResult::Lose });
}

#[test]
fn test_timeout_poll_reply_carries_loss() {
    let mut session = init(target_program(), init_msg(), 1);
    start_game_round(&mut session, 2);
    check_word_round(&mut session, "hello", vec![0], vec![], 3);
    let cmds = handle(
        &mut session,
        SessionAction::CheckGameStatus { user: user1() },
        &self_ctx(300),
    );
    assert_eq!(cmds.len(), 2);
    for cmd in &cmds {
        assert_eq!(
            *cmd,
            Command::SendEvent {
                to: user1(),
                event: SessionEvent::GameStatus(GameStatus { game_result: Some(GameResult::Lose) }),
            }
        );
    }
    assert_eq!(get_game_status(&session), GameStatus { game_result: Some(GameResult::Lose) });
}

#[test]
fn test_late_reply_after_timeout_is_discarded() {
    let mut session = init(target_program(), init_msg(), 1);
    // A guess is suspended downstream when the deadline check forces the loss.
    handle(
        &mut session,
        SessionAction::CheckWord { user: user1(), word: String::from("hello") },
        &client_ctx(2),
    );
    assert_eq!(state(&session).session_status, SessionStatus::MessageSent);
    handle(&mut session, SessionAction::CheckGameStatus { user: user1() }, &self_ctx(300));
    assert_eq!(
        state(&session).session_status,
        SessionStatus::GameEnded { result: GameResult::Lose }
    );

    // The late reply still wakes the suspended request, but the record
    // stays decided and the resumed dispatch reports the fixed loss.
    let woken = handle_reply(
        &mut session,
        Event::WordChecked { user: user1(), correct_positions: vec![0], contained_in_word: vec![] },
    );
    assert_eq!(woken, vec![Command::Wake { message_id: init_msg() }]);
    assert_eq!(
        state(&session).session_status,
        SessionStatus::GameEnded { result: GameResult::Lose }
    );
    assert_eq!(state(&session).guess_count, 0);

    let cmds = handle(
        &mut session,
        SessionAction::CheckWord { user: user1(), word: String::from("hello") },
        &client_ctx(301),
    );
    assert_eq!(
        cmds,
        vec![Command::Reply {
            event: SessionEvent::GameStatus(GameStatus { game_result: Some(GameResult::Lose) }),
        }]
    );
}

#[test]
fn test_state_snapshot_equals_record() {
    let mut session = init(target_program(), init_msg(), 1);
    start_game_round(&mut session, 2);
    check_word_round(&mut session, "house", vec![0], vec![2], 3);
    let snapshot = state(&session);
    assert_eq!(snapshot, session);
}
