//! Data model of the session orchestrator: the session record, the messages
//! exchanged with the client and with the downstream game service, and the
//! mathematical views the contracts are stated over.

use vstd::prelude::*;

verus! {

/// Identity of an actor (a client or a program) in the host runtime,
/// modelled as its raw 256-bit address split into two halves.
#[derive(Clone, Copy, PartialEq, Eq, Structural, Debug)]
pub struct ActorId {
    pub hi: u128,
    pub lo: u128,
}

/// Identity of a message in the host runtime, modelled like [`ActorId`].
#[derive(Clone, Copy, PartialEq, Eq, Structural, Debug)]
pub struct MessageId {
    pub hi: u128,
    pub lo: u128,
}

/// Outcome of a finished game.
#[derive(Clone, Copy, PartialEq, Eq, Debug)]
pub enum GameResult {
    Win,
    Lose,
}

/// The authoritative outcome record: empty until a result is declared,
/// then fixed forever.
#[derive(Clone, Copy, PartialEq, Eq, Debug)]
pub struct GameStatus {
    pub game_result: Option<GameResult>,
}

/// Request sent downstream to the game-logic service.
#[derive(Clone, PartialEq, Eq, Debug)]
pub enum Action {
    StartGame { user: ActorId },
    CheckWord { user: ActorId, word: String },
}

/// Reply received from the game-logic service.
#[derive(Clone, PartialEq, Eq, Debug)]
pub enum Event {
    GameStarted { user: ActorId },
    WordChecked { user: ActorId, correct_positions: Vec<u8>, contained_in_word: Vec<u8> },
}

/// Request sent by a client (or by the orchestrator to itself, for the
/// scheduled deadline check).
#[derive(Clone, PartialEq, Eq, Debug)]
pub enum SessionAction {
    StartGame { user: ActorId },
    CheckWord { user: ActorId, word: String },
    CheckGameStatus { user: ActorId },
}

/// Reply sent back to a client.
#[derive(Clone, PartialEq, Eq, Debug)]
pub enum SessionEvent {
    GameStarted { user: ActorId },
    WordChecked { user: ActorId, correct_positions: Vec<u8>, contained_in_word: Vec<u8> },
    GameStatus(GameStatus),
    GameError(String),
}

/// State of the session state machine.
#[derive(Clone, PartialEq, Eq, Debug)]
pub enum SessionStatus {
    Waiting,
    MessageSent,
    MessageReceived(Event),
    GameEnded { result: GameResult },
}

/// The single session record the orchestrator owns.
#[derive(Clone, PartialEq, Eq, Debug)]
pub struct Session {
    /// Identity of the downstream game-logic service; fixed at initialization.
    pub target_program_id: ActorId,
    /// Current state of the state machine.
    pub session_status: SessionStatus,
    /// The outcome, once declared.
    pub game_status: GameStatus,
    /// Correlation pair identifying the suspended original request;
    /// captured once at initialization.
    pub msg_ids: Option<(MessageId, MessageId)>,
    /// Number of completed guess rounds; never exceeds six.
    pub guess_count: u32,
    /// Block height captured at initialization; the deadline is this
    /// value plus 200 ticks.
    pub start_block: u32,
}

/// Ambient facts a handler needs from the host runtime: who sent the
/// message being processed, the orchestrator's own identity, and the
/// current logical clock value.
#[derive(Clone, Copy, PartialEq, Eq, Structural, Debug)]
pub struct HandleContext {
    pub source: ActorId,
    pub program_id: ActorId,
    pub block_height: u32,
}

/// A messaging effect the host runtime must perform, in order, after a
/// handler returns. The handlers only decide; they never touch the wire.
#[derive(Clone, PartialEq, Eq, Debug)]
pub enum Command {
    /// Send a request to the downstream game service.
    SendAction { to: ActorId, action: Action },
    /// Reply to the message currently being processed.
    Reply { event: SessionEvent },
    /// Send an event directly to an actor.
    SendEvent { to: ActorId, event: SessionEvent },
    /// Send a session request to an actor after a delay in clock ticks.
    SendDelayed { to: ActorId, action: SessionAction, delay: u32 },
    /// Suspend the message currently being processed.
    Wait,
    /// Resume the suspended message with the given identity, if any.
    Wake { message_id: MessageId },
}

/// Mathematical view of [`Event`].
pub enum EventV {
    GameStarted { user: ActorId },
    WordChecked { user: ActorId, correct_positions: Seq<u8>, contained_in_word: Seq<u8> },
}

/// Mathematical view of [`Action`].
pub enum ActionV {
    StartGame { user: ActorId },
    CheckWord { user: ActorId, word: Seq<char> },
}

/// Mathematical view of [`SessionAction`].
pub enum SessionActionV {
    StartGame { user: ActorId },
    CheckWord { user: ActorId, word: Seq<char> },
    CheckGameStatus { user: ActorId },
}

/// Mathematical view of [`SessionEvent`].
pub enum SessionEventV {
    GameStarted { user: ActorId },
    WordChecked { user: ActorId, correct_positions: Seq<u8>, contained_in_word: Seq<u8> },
    GameStatus(GameStatus),
    GameError(Seq<char>),
}

/// Mathematical view of [`SessionStatus`].
pub enum SessionStatusV {
    Waiting,
    MessageSent,
    MessageReceived(EventV),
    GameEnded { result: GameResult },
}

/// Mathematical view of [`Session`].
pub struct SessionV {
    pub target_program_id: ActorId,
    pub session_status: SessionStatusV,
    pub game_status: GameStatus,
    pub msg_ids: Option<(MessageId, MessageId)>,
    pub guess_count: u32,
    pub start_block: u32,
}

/// Mathematical view of [`Command`].
pub enum CommandV {
    SendAction { to: ActorId, action: ActionV },
    Reply { event: SessionEventV },
    SendEvent { to: ActorId, event: SessionEventV },
    SendDelayed { to: ActorId, action: SessionActionV, delay: u32 },
    Wait,
    Wake { message_id: MessageId },
}

impl View for Event {
    type V = EventV;

    open spec fn view(&self) -> EventV {
        match self {
            Event::GameStarted { user } => EventV::GameStarted { user: *user },
            Event::WordChecked { user, correct_positions, contained_in_word } => {
                EventV::WordChecked {
                    user: *user,
                    correct_positions: correct_positions@,
                    contained_in_word: contained_in_word@,
                }
            },
        }
    }
}

impl View for Action {
    type V = ActionV;

    open spec fn view(&self) -> ActionV {
        match self {
            Action::StartGame { user } => ActionV::StartGame { user: *user },
            Action::CheckWord { user, word } => ActionV::CheckWord { user: *user, word: word@ },
        }
    }
}

impl View for SessionAction {
    type V = SessionActionV;

    open spec fn view(&self) -> SessionActionV {
        match self {
            SessionAction::StartGame { user } => SessionActionV::StartGame { user: *user },
            SessionAction::CheckWord { user, word } => {
                SessionActionV::CheckWord { user: *user, word: word@ }
            },
            SessionAction::CheckGameStatus { user } => {
                SessionActionV::CheckGameStatus { user: *user }
            },
        }
    }
}

impl View for SessionEvent {
    type V = SessionEventV;

    open spec fn view(&self) -> SessionEventV {
        match self {
            SessionEvent::GameStarted { user } => SessionEventV::GameStarted { user: *user },
            SessionEvent::WordChecked { user, correct_positions, contained_in_word } => {
                SessionEventV::WordChecked {
                    user: *user,
                    correct_positions: correct_positions@,
                    contained_in_word: contained_in_word@,
                }
            },
            SessionEvent::GameStatus(status) => SessionEventV::GameStatus(*status),
            SessionEvent::GameError(message) => SessionEventV::GameError(message@),
        }
    }
}

impl View for SessionStatus {
    type V = SessionStatusV;

    open spec fn view(&self) -> SessionStatusV {
        match self {
            SessionStatus::Waiting => SessionStatusV::Waiting,
            SessionStatus::MessageSent => SessionStatusV::MessageSent,
            SessionStatus::MessageReceived(event) => SessionStatusV::MessageReceived(event@),
            SessionStatus::GameEnded { result } => SessionStatusV::GameEnded { result: *result },
        }
    }
}

impl View for Session {
    type V = SessionV;

    open spec fn view(&self) -> SessionV {
        SessionV {
            target_program_id: self.target_program_id,
            session_status: self.session_status@,
            game_status: self.game_status,
            msg_ids: self.msg_ids,
            guess_count: self.guess_count,
            start_block: self.start_block,
        }
    }
}

impl View for Command {
    type V = CommandV;

    open spec fn view(&self) -> CommandV {
        match self {
            Command::SendAction { to, action } => CommandV::SendAction { to: *to, action: action@ },
            Command::Reply { event } => CommandV::Reply { event: event@ },
            Command::SendEvent { to, event } => CommandV::SendEvent { to: *to, event: event@ },
            Command::SendDelayed { to, action, delay } => {
                CommandV::SendDelayed { to: *to, action: action@, delay: *delay }
            },
            Command::Wait => CommandV::Wait,
            Command::Wake { message_id } => CommandV::Wake { message_id: *message_id },
        }
    }
}

/// Views of a command list, element by element.
pub open spec fn views_of(commands: Seq<Command>) -> Seq<CommandV> {
    commands.map_values(|c: Command| c@)
}

/// True once the outcome has been declared.
pub open spec fn ended(s: SessionV) -> bool {
    s.game_status.game_result is Some
}

/// Well-formedness of a session record. Initialization establishes it and
/// every handler preserves it:
/// - at most six rounds are ever counted;
/// - the declared outcome and the terminal state agree: the result is
///   `Some(r)` exactly when the machine stands in `GameEnded { r }`;
/// - once all six rounds are spent the outcome is declared.
pub open spec fn wf(s: SessionV) -> bool {
    &&& s.guess_count <= 6
    &&& match s.game_status.game_result {
        Some(r) => s.session_status == SessionStatusV::GameEnded { result: r },
        None => !(s.session_status is GameEnded),
    }
    &&& s.guess_count == 6 ==> s.game_status.game_result is Some
}

} // verus!
