//! The session state machine: the specification of every transition, and
//! the executable handlers proved against it.

use vstd::prelude::*;

use crate::types::{
    ActorId, MessageId, GameResult, GameStatus, Action, Event, SessionAction, SessionEvent,
    SessionStatus, Session, HandleContext, Command, ActionV, EventV, SessionActionV,
    SessionEventV, SessionStatusV, SessionV, CommandV, views_of, ended, wf,
};

verus! {

/// The session record as initialization leaves it: waiting, no outcome,
/// no rounds played, correlation pair captured once, clock anchored.
pub open spec fn initial_session(
    target_program_id: ActorId,
    msg_id: MessageId,
    block_height: u32,
) -> SessionV {
    SessionV {
        target_program_id,
        session_status: SessionStatusV::Waiting,
        game_status: GameStatus { game_result: None },
        msg_ids: Some((msg_id, msg_id)),
        guess_count: 0,
        start_block: block_height,
    }
}

/// Creates the single session record.
///
/// `msg_id` is the identity of the message being processed at
/// initialization; the correlation pair stores it twice, and it is the
/// second component that later resumes a suspended request.
pub fn init(target_program_id: ActorId, msg_id: MessageId, block_height: u32) -> (s: Session)
    ensures
        s@ == initial_session(target_program_id, msg_id, block_height),
        wf(s@),
{
    Session {
        target_program_id,
        session_status: SessionStatus::Waiting,
        game_status: GameStatus { game_result: None },
        msg_ids: Some((msg_id, msg_id)),
        guess_count: 0,
        start_block: block_height,
    }
}

/// Returns a copy of the authoritative outcome record.
pub fn get_game_status(session: &Session) -> (status: GameStatus)
    ensures
        status == session@.game_status,
{
    session.game_status
}

/// Reply text for a guess submitted after all six rounds are spent.
pub open spec fn too_many_guesses_text() -> Seq<char> {
    "Game over: Too many guesses"@
}

/// Reply text for a client request that arrives while another request is
/// already suspended on a downstream call.
pub open spec fn already_sent_text() -> Seq<char> {
    "Message has already been sent, restart the game"@
}

/// Reply text for a status check whose sender is not the orchestrator itself.
pub open spec fn unauthorized_text() -> Seq<char> {
    "Only the program can check game status"@
}

/// The deadline is 200 clock ticks past the block height captured at
/// initialization, for the session's whole life.
pub open spec fn deadline_passed(s: SessionV, block_height: u32) -> bool {
    block_height as int >= s.start_block as int + 200
}

/// A status check is honoured only when the orchestrator sent it to itself.
pub open spec fn status_check_allowed(ctx: HandleContext) -> bool {
    ctx.source == ctx.program_id
}

/// State after one deadline/status check: past the deadline an undecided
/// game is forced into a loss; a decided game is never overwritten.
pub open spec fn check_next(s: SessionV, ctx: HandleContext) -> SessionV {
    if status_check_allowed(ctx) && deadline_passed(s, ctx.block_height) && !ended(s) {
        SessionV {
            game_status: GameStatus { game_result: Some(GameResult::Lose) },
            session_status: SessionStatusV::GameEnded { result: GameResult::Lose },
            ..s
        }
    } else {
        s
    }
}

/// Messages issued by one deadline/status check: an unauthorized sender is
/// refused; otherwise the outcome as it stands after the check goes to `user`.
pub open spec fn check_cmds(s: SessionV, user: ActorId, ctx: HandleContext) -> Seq<CommandV> {
    if !status_check_allowed(ctx) {
        seq![CommandV::Reply { event: SessionEventV::GameError(unauthorized_text()) }]
    } else {
        seq![
            CommandV::SendEvent {
                to: user,
                event: SessionEventV::GameStatus(check_next(s, ctx).game_status),
            },
        ]
    }
}

/// State after a completed guess round: the round counter moves up by one;
/// five correct positions declare a win; a sixth round without a win
/// declares a loss; otherwise the machine returns to `Waiting`.
pub open spec fn word_checked_next(s: SessionV, correct_positions: Seq<u8>) -> SessionV {
    let n = (s.guess_count + 1) as u32;
    if correct_positions.len() == 5 {
        SessionV {
            guess_count: n,
            game_status: GameStatus { game_result: Some(GameResult::Win) },
            session_status: SessionStatusV::GameEnded { result: GameResult::Win },
            ..s
        }
    } else if n >= 6 {
        SessionV {
            guess_count: n,
            game_status: GameStatus { game_result: Some(GameResult::Lose) },
            session_status: SessionStatusV::GameEnded { result: GameResult::Lose },
            ..s
        }
    } else {
        SessionV { guess_count: n, session_status: SessionStatusV::Waiting, ..s }
    }
}

/// Reply issued by a completed guess round: the declared outcome when the
/// round decides the game, the letter report otherwise.
pub open spec fn word_checked_cmds(
    s: SessionV,
    user: ActorId,
    correct_positions: Seq<u8>,
    contained_in_word: Seq<u8>,
) -> Seq<CommandV> {
    let n = (s.guess_count + 1) as u32;
    if correct_positions.len() == 5 {
        seq![
            CommandV::Reply {
                event: SessionEventV::GameStatus(
                    GameStatus { game_result: Some(GameResult::Win) },
                ),
            },
        ]
    } else if n >= 6 {
        seq![
            CommandV::Reply {
                event: SessionEventV::GameStatus(
                    GameStatus { game_result: Some(GameResult::Lose) },
                ),
            },
        ]
    } else {
        seq![
            CommandV::Reply {
                event: SessionEventV::WordChecked { user, correct_positions, contained_in_word },
            },
        ]
    }
}

/// State after the primary dispatch of one inbound message, before the
/// cross-cutting status check of [`handle_next`].
pub open spec fn dispatch_next(s: SessionV, a: SessionActionV, ctx: HandleContext) -> SessionV {
    match s.session_status {
        SessionStatusV::Waiting => match a {
            SessionActionV::StartGame { .. } => SessionV {
                session_status: SessionStatusV::MessageSent,
                ..s
            },
            SessionActionV::CheckWord { .. } => {
                if s.guess_count >= 6 {
                    s
                } else if ended(s) {
                    s
                } else {
                    SessionV { session_status: SessionStatusV::MessageSent, ..s }
                }
            },
            SessionActionV::CheckGameStatus { .. } => check_next(s, ctx),
        },
        SessionStatusV::MessageSent => s,
        SessionStatusV::MessageReceived(event) => match event {
            EventV::GameStarted { .. } => SessionV {
                session_status: SessionStatusV::Waiting,
                ..s
            },
            EventV::WordChecked { correct_positions, .. } => word_checked_next(
                s,
                correct_positions,
            ),
        },
        SessionStatusV::GameEnded { .. } => s,
    }
}

/// Messages issued by the primary dispatch of one inbound message.
pub open spec fn dispatch_cmds(s: SessionV, a: SessionActionV, ctx: HandleContext) -> Seq<
    CommandV,
> {
    match s.session_status {
        SessionStatusV::Waiting => match a {
            SessionActionV::StartGame { user } => seq![
                CommandV::SendAction {
                    to: s.target_program_id,
                    action: ActionV::StartGame { user },
                },
                CommandV::Wait,
            ],
            SessionActionV::CheckWord { user, word } => {
                if s.guess_count >= 6 {
                    seq![
                        CommandV::Reply {
                            event: SessionEventV::GameError(too_many_guesses_text()),
                        },
                    ]
                } else if ended(s) {
                    seq![CommandV::Reply { event: SessionEventV::GameStatus(s.game_status) }]
                } else {
                    seq![
                        CommandV::SendAction {
                            to: s.target_program_id,
                            action: ActionV::CheckWord { user, word },
                        },
                        CommandV::Wait,
                    ]
                }
            },
            SessionActionV::CheckGameStatus { user } => check_cmds(s, user, ctx),
        },
        SessionStatusV::MessageSent => seq![
            CommandV::Reply { event: SessionEventV::GameError(already_sent_text()) },
        ],
        SessionStatusV::MessageReceived(event) => match event {
            EventV::GameStarted { user } => seq![
                CommandV::SendDelayed {
                    to: ctx.program_id,
                    action: SessionActionV::CheckGameStatus { user },
                    delay: 200,
                },
                CommandV::Reply { event: SessionEventV::GameStarted { user } },
            ],
            EventV::WordChecked { user, correct_positions, contained_in_word } => {
                word_checked_cmds(s, user, correct_positions, contained_in_word)
            },
        },
        SessionStatusV::GameEnded { .. } => seq![
            CommandV::Reply { event: SessionEventV::GameStatus(s.game_status) },
        ],
    }
}

/// State after one inbound message is fully processed: the primary dispatch,
/// then - for a status check, whatever state the dispatch produced - the
/// deadline check once more.
pub open spec fn handle_next(s: SessionV, a: SessionActionV, ctx: HandleContext) -> SessionV {
    let s1 = dispatch_next(s, a, ctx);
    if a is CheckGameStatus {
        check_next(s1, ctx)
    } else {
        s1
    }
}

/// All messages issued while one inbound message is processed, in order.
pub open spec fn handle_cmds(s: SessionV, a: SessionActionV, ctx: HandleContext) -> Seq<
    CommandV,
> {
    let s1 = dispatch_next(s, a, ctx);
    match a {
        SessionActionV::CheckGameStatus { user } => dispatch_cmds(s, a, ctx) + check_cmds(
            s1,
            user,
            ctx,
        ),
        _ => dispatch_cmds(s, a, ctx),
    }
}

/// State after a downstream reply lands: while the game is undecided the
/// machine records the reply for the resumed request; a reply that arrives
/// after the outcome was fixed changes nothing. Either way the stored
/// correlation identifier is woken, and at most that one suspended request
/// resumes.
pub open spec fn reply_next(s: SessionV, event: EventV) -> SessionV {
    if s.msg_ids is Some && !ended(s) {
        SessionV { session_status: SessionStatusV::MessageReceived(event), ..s }
    } else {
        s
    }
}

/// The wake signal a downstream reply triggers.
pub open spec fn reply_cmds(s: SessionV) -> Seq<CommandV> {
    match s.msg_ids {
        Some((_, original)) => seq![CommandV::Wake { message_id: original }],
        None => Seq::empty(),
    }
}

/// Copies a byte vector.
fn clone_bytes(bytes: &Vec<u8>) -> (copied: Vec<u8>)
    ensures
        copied@ == bytes@,
{
    let mut copied: Vec<u8> = Vec::new();
    let mut i: usize = 0;
    while i < bytes.len()
        invariant
            i <= bytes.len(),
            copied.len() == i,
            forall|j: int| 0 <= j < i ==> copied@[j] == bytes@[j],
        decreases bytes.len() - i,
    {
        copied.push(bytes[i]);
        i = i + 1;
    }
    proof {
        assert(copied@ =~= bytes@);
    }
    copied
}

/// Runs one deadline/status check and replies with the outcome:
/// unauthorized senders are refused; past the deadline an undecided game
/// is forced into a loss; the outcome as it then stands is sent to `user`.
pub fn check_game_status(session: &mut Session, user: ActorId, ctx: &HandleContext) -> (out: Vec<
    Command,
>)
    ensures
        final(session)@ == check_next(old(session)@, *ctx),
        views_of(out@) == check_cmds(old(session)@, user, *ctx),
        wf(old(session)@) ==> wf(final(session)@),
{
    let mut out: Vec<Command> = Vec::new();
    if ctx.source != ctx.program_id {
        out.push(
            Command::Reply {
                event: SessionEvent::GameError(
                    String::from_str("Only the program can check game status"),
                ),
            },
        );
        proof {
            assert(views_of(out@) =~= check_cmds(old(session)@, user, *ctx));
        }
        return out;
    }
    let current_block: u64 = ctx.block_height as u64;
    let deadline: u64 = session.start_block as u64 + 200;
    if current_block >= deadline && session.game_status.game_result.is_none() {
        session.game_status = GameStatus { game_result: Some(GameResult::Lose) };
        session.session_status = SessionStatus::GameEnded { result: GameResult::Lose };
    }
    out.push(Command::SendEvent { to: user, event: SessionEvent::GameStatus(session.game_status) });
    proof {
        assert(views_of(out@) =~= check_cmds(old(session)@, user, *ctx));
    }
    out
}

/// Processes one inbound message against the current state: the primary
/// dispatch on the current state, then - for a status check - the deadline
/// check once more, so a timeout trigger is honoured whatever state the
/// dispatch produced.
///
/// The round counter can only move while a checked-word reply is recorded,
/// and a well-formed record then has at most five rounds counted; the
/// precondition asks no more than that, so the counter cannot overflow.
pub fn handle(session: &mut Session, action: SessionAction, ctx: &HandleContext) -> (out: Vec<
    Command,
>)
    requires
        old(session)@.session_status matches SessionStatusV::MessageReceived(
            EventV::WordChecked { .. },
        ) ==> old(session)@.guess_count < 6,
    ensures
        final(session)@ == handle_next(old(session)@, action@, *ctx),
        views_of(out@) == handle_cmds(old(session)@, action@, *ctx),
        wf(old(session)@) ==> wf(final(session)@),
{
    let ghost s0 = session@;
    let ghost a0 = action@;
    let mut out: Vec<Command> = Vec::new();
    let post_check_user: Option<ActorId> = match &action {
        SessionAction::CheckGameStatus { user } => Some(*user),
        _ => None,
    };
    match &session.session_status {
        SessionStatus::Waiting => {
            match action {
                SessionAction::StartGame { user } => {
                    out.push(
                        Command::SendAction {
                            to: session.target_program_id,
                            action: Action::StartGame { user },
                        },
                    );
                    session.session_status = SessionStatus::MessageSent;
                    out.push(Command::Wait);
                },
                SessionAction::CheckWord { user, word } => {
                    if session.guess_count >= 6 {
                        out.push(
                            Command::Reply {
                                event: SessionEvent::GameError(
                                    String::from_str("Game over: Too many guesses"),
                                ),
                            },
                        );
                    } else if session.game_status.game_result.is_some() {
                        out.push(
                            Command::Reply {
                                event: SessionEvent::GameStatus(session.game_status),
                            },
                        );
                    } else {
                        out.push(
                            Command::SendAction {
                                to: session.target_program_id,
                                action: Action::CheckWord { user, word },
                            },
                        );
                        session.session_status = SessionStatus::MessageSent;
                        out.push(Command::Wait);
                    }
                },
                SessionAction::CheckGameStatus { user } => {
                    let mut more = check_game_status(session, user, ctx);
                    out.append(&mut more);
                },
            }
        },
        SessionStatus::MessageSent => {
            out.push(
                Command::Reply {
                    event: SessionEvent::GameError(
                        String::from_str("Message has already been sent, restart the game"),
                    ),
                },
            );
        },
        SessionStatus::MessageReceived(event) => {
            match event {
                Event::GameStarted { user } => {
                    let u: ActorId = *user;
                    out.push(
                        Command::SendDelayed {
                            to: ctx.program_id,
                            action: SessionAction::CheckGameStatus { user: u },
                            delay: 200,
                        },
                    );
                    out.push(Command::Reply { event: SessionEvent::GameStarted { user: u } });
                    session.session_status = SessionStatus::Waiting;
                },
                Event::WordChecked { user, correct_positions, contained_in_word } => {
                    let u: ActorId = *user;
                    let cp = clone_bytes(correct_positions);
                    let ciw = clone_bytes(contained_in_word);
                    let n: u32 = session.guess_count + 1;
                    session.guess_count = n;
                    if cp.len() == 5 {
                        session.game_status = GameStatus { game_result: Some(GameResult::Win) };
                        session.session_status = SessionStatus::GameEnded {
                            result: GameResult::Win,
                        };
                        out.push(
                            Command::Reply {
                                event: SessionEvent::GameStatus(session.game_status),
                            },
                        );
                    } else if n >= 6 {
                        session.game_status = GameStatus { game_result: Some(GameResult::Lose) };
                        session.session_status = SessionStatus::GameEnded {
                            result: GameResult::Lose,
                        };
                        out.push(
                            Command::Reply {
                                event: SessionEvent::GameStatus(session.game_status),
                            },
                        );
                    } else {
                        session.session_status = SessionStatus::Waiting;
                        out.push(
                            Command::Reply {
                                event: SessionEvent::WordChecked {
                                    user: u,
                                    correct_positions: cp,
                                    contained_in_word: ciw,
                                },
                            },
                        );
                    }
                },
            }
        },
        SessionStatus::GameEnded { .. } => {
            out.push(Command::Reply { event: SessionEvent::GameStatus(session.game_status) });
        },
    }
    if let Some(user) = post_check_user {
        let mut more = check_game_status(session, user, ctx);
        out.append(&mut more);
    }
    proof {
        assert(session@ == handle_next(s0, a0, *ctx));
        assert(views_of(out@) =~= handle_cmds(s0, a0, *ctx));
    }
    out
}

/// Records a downstream reply and wakes the suspended request it belongs
/// to. The correlation pair is the one captured at initialization; a wake
/// for an identifier that no longer names a suspended request is discarded
/// by the runtime, so at most one resume succeeds per suspension.
pub fn handle_reply(session: &mut Session, event: Event) -> (out: Vec<Command>)
    ensures
        final(session)@ == reply_next(old(session)@, event@),
        views_of(out@) == reply_cmds(old(session)@),
        wf(old(session)@) ==> wf(final(session)@),
{
    let mut out: Vec<Command> = Vec::new();
    if let Some((_, original_message_id)) = session.msg_ids {
        if session.game_status.game_result.is_none() {
            session.session_status = SessionStatus::MessageReceived(event);
        }
        out.push(Command::Wake { message_id: original_message_id });
    }
    proof {
        assert(views_of(out@) =~= reply_cmds(old(session)@));
    }
    out
}

/// Copies a downstream reply.
fn clone_event(event: &Event) -> (copied: Event)
    ensures
        copied@ == event@,
{
    match event {
        Event::GameStarted { user } => Event::GameStarted { user: *user },
        Event::WordChecked { user, correct_positions, contained_in_word } => Event::WordChecked {
            user: *user,
            correct_positions: clone_bytes(correct_positions),
            contained_in_word: clone_bytes(contained_in_word),
        },
    }
}

/// Copies a machine state.
fn clone_status(status: &SessionStatus) -> (copied: SessionStatus)
    ensures
        copied@ == status@,
{
    match status {
        SessionStatus::Waiting => SessionStatus::Waiting,
        SessionStatus::MessageSent => SessionStatus::MessageSent,
        SessionStatus::MessageReceived(event) => SessionStatus::MessageReceived(
            clone_event(event),
        ),
        SessionStatus::GameEnded { result } => SessionStatus::GameEnded { result: *result },
    }
}

/// Returns a full snapshot of the session record for external observers,
/// equal to the record itself.
pub fn state(session: &Session) -> (snapshot: Session)
    ensures
        snapshot@ == session@,
{
    Session {
        target_program_id: session.target_program_id,
        session_status: clone_status(&session.session_status),
        game_status: session.game_status,
        msg_ids: session.msg_ids,
        guess_count: session.guess_count,
        start_block: session.start_block,
    }
}

} // verus!
