//! Session-wide laws, proved over whole input sequences: how the round
//! counter moves, when each outcome is declared, and that a declared
//! outcome is final.

use vstd::prelude::*;

use crate::types::{
    ActorId, GameResult, HandleContext, EventV, SessionActionV, SessionEventV, SessionStatusV,
    SessionV, CommandV, ended, wf,
};
use crate::machine::{
    handle_next, handle_cmds, reply_next, status_check_allowed, deadline_passed,
    already_sent_text, too_many_guesses_text,
};

verus! {

/// One input the orchestrator can process: an inbound message together
/// with its runtime context, or a downstream reply.
pub enum InputV {
    ClientMsg { action: SessionActionV, ctx: HandleContext },
    ServiceReply { event: EventV },
}

/// State after one input.
pub open spec fn input_next(s: SessionV, input: InputV) -> SessionV {
    match input {
        InputV::ClientMsg { action, ctx } => handle_next(s, action, ctx),
        InputV::ServiceReply { event } => reply_next(s, event),
    }
}

/// State after a whole sequence of inputs.
pub open spec fn run(s: SessionV, inputs: Seq<InputV>) -> SessionV
    decreases inputs.len(),
{
    if inputs.len() == 0 {
        s
    } else {
        run(input_next(s, inputs[0]), inputs.drop_first())
    }
}

/// An input completes one guess round exactly when an inbound message is
/// dispatched while a checked-word reply stands recorded: that dispatch is
/// the resumption of the suspended guess request.
pub open spec fn completes_round(s: SessionV, input: InputV) -> bool {
    &&& s.session_status matches SessionStatusV::MessageReceived(EventV::WordChecked { .. })
    &&& input is ClientMsg
}

/// Number of guess rounds a sequence of inputs completes from state `s`.
pub open spec fn rounds(s: SessionV, inputs: Seq<InputV>) -> int
    decreases inputs.len(),
{
    if inputs.len() == 0 {
        0
    } else {
        (if completes_round(s, inputs[0]) {
            1 as int
        } else {
            0
        }) + rounds(input_next(s, inputs[0]), inputs.drop_first())
    }
}

/// No command in the list calls the downstream service.
pub open spec fn no_downstream_call(cmds: Seq<CommandV>) -> bool {
    forall|i: int| 0 <= i < cmds.len() ==> !(#[trigger] cmds[i] is SendAction)
}

/// Every handler preserves well-formedness of the session record.
pub proof fn lemma_input_preserves_wf(s: SessionV, input: InputV)
    requires
        wf(s),
    ensures
        wf(input_next(s, input)),
{
}

/// Well-formedness is preserved along any input sequence.
pub proof fn lemma_run_preserves_wf(s: SessionV, inputs: Seq<InputV>)
    requires
        wf(s),
    ensures
        wf(run(s, inputs)),
    decreases inputs.len(),
{
    if inputs.len() > 0 {
        lemma_input_preserves_wf(s, inputs[0]);
        lemma_run_preserves_wf(input_next(s, inputs[0]), inputs.drop_first());
    }
}

/// Law: the round counter counts exactly the completed guess rounds.
/// From a well-formed record, a sequence of inputs that completes N rounds
/// moves `guess_count` from its current value to that value plus N, and
/// the counter never passes six.
pub proof fn lemma_guess_count_counts_rounds(s: SessionV, inputs: Seq<InputV>)
    requires
        wf(s),
    ensures
        run(s, inputs).guess_count == s.guess_count + rounds(s, inputs),
        run(s, inputs).guess_count <= 6,
    decreases inputs.len(),
{
    lemma_run_preserves_wf(s, inputs);
    if inputs.len() > 0 {
        lemma_input_preserves_wf(s, inputs[0]);
        assert(input_next(s, inputs[0]).guess_count == s.guess_count + (
        if completes_round(s, inputs[0]) {
            1 as int
        } else {
            0
        }));
        lemma_guess_count_counts_rounds(input_next(s, inputs[0]), inputs.drop_first());
    }
}

/// Law: a guess is never accepted once six rounds are counted. A
/// well-formed record with the counter at six is decided, so a further
/// `CheckWord` request changes nothing and issues no downstream call.
pub proof fn lemma_check_word_refused_at_limit(
    s: SessionV,
    user: ActorId,
    word: Seq<char>,
    ctx: HandleContext,
)
    requires
        wf(s),
        s.guess_count == 6,
    ensures
        handle_next(s, SessionActionV::CheckWord { user, word }, ctx) == s,
        no_downstream_call(handle_cmds(s, SessionActionV::CheckWord { user, word }, ctx)),
{
}

/// The transition-table row behind the same law: while the machine still
/// stands in `Waiting` with the counter at the limit, a guess is answered
/// with the quota error before any downstream call is attempted.
pub proof fn lemma_check_word_quota_error(
    s: SessionV,
    user: ActorId,
    word: Seq<char>,
    ctx: HandleContext,
)
    requires
        s.session_status is Waiting,
        s.guess_count >= 6,
    ensures
        handle_next(s, SessionActionV::CheckWord { user, word }, ctx) == s,
        handle_cmds(s, SessionActionV::CheckWord { user, word }, ctx) =~= seq![
            CommandV::Reply { event: SessionEventV::GameError(too_many_guesses_text()) },
        ],
{
}

/// A downstream reply on its own never declares an outcome and never
/// moves the round counter; it only records the reply for the resumed
/// request.
pub proof fn lemma_reply_declares_nothing(s: SessionV, event: EventV)
    ensures
        reply_next(s, event).game_status == s.game_status,
        reply_next(s, event).guess_count == s.guess_count,
{
}

/// Law: a win is declared exactly by a round with five correct positions.
/// From a well-formed, undecided record, processing one inbound message
/// declares a win if and only if the recorded downstream reply is a
/// checked word whose correct-position count is five.
pub proof fn lemma_win_iff_five_correct(s: SessionV, a: SessionActionV, ctx: HandleContext)
    requires
        wf(s),
        !ended(s),
    ensures
        (handle_next(s, a, ctx).game_status.game_result == Some(GameResult::Win)) <==> (
        s.session_status matches SessionStatusV::MessageReceived(
            EventV::WordChecked { correct_positions, .. },
        ) && correct_positions.len() == 5),
{
}

/// Law: a loss is declared exactly when the sixth round completes without
/// a win, or when an authorized status check runs past the deadline while
/// no win is declared by the same dispatch — whichever comes first;
/// [`lemma_result_immutable`] then keeps the result fixed.
pub proof fn lemma_lose_iff(s: SessionV, a: SessionActionV, ctx: HandleContext)
    requires
        wf(s),
        !ended(s),
    ensures
        (handle_next(s, a, ctx).game_status.game_result == Some(GameResult::Lose)) <==> ({
            ||| (s.session_status matches SessionStatusV::MessageReceived(
                EventV::WordChecked { correct_positions, .. },
            ) && correct_positions.len() != 5 && s.guess_count >= 5)
            ||| (a is CheckGameStatus && status_check_allowed(ctx) && deadline_passed(
                s,
                ctx.block_height,
            ) && !(s.session_status matches SessionStatusV::MessageReceived(
                EventV::WordChecked { correct_positions, .. },
            ) && correct_positions.len() == 5))
        }),
{
}

/// Law: once the outcome is declared, the whole record is frozen: any
/// further input leaves a decided, well-formed record unchanged, so the
/// machine never leaves `GameEnded` and the result never changes.
pub proof fn lemma_ended_session_is_frozen(s: SessionV, input: InputV)
    requires
        wf(s),
        ended(s),
    ensures
        input_next(s, input) == s,
{
}

/// The same law over a whole input sequence.
pub proof fn lemma_result_immutable(s: SessionV, inputs: Seq<InputV>)
    requires
        wf(s),
        ended(s),
    ensures
        run(s, inputs) == s,
    decreases inputs.len(),
{
    if inputs.len() > 0 {
        lemma_ended_session_is_frozen(s, inputs[0]);
        lemma_result_immutable(s, inputs.drop_first());
    }
}

/// Law: a client request that arrives while another request is suspended
/// on a downstream call is answered with the "already sent" error, and a
/// start or guess request then changes nothing. (A status check still runs
/// the cross-cutting deadline check afterwards, which past the deadline
/// declares the loss; that is the one such input that may move the state.)
pub proof fn lemma_in_flight_request_rejected(s: SessionV, a: SessionActionV, ctx: HandleContext)
    requires
        s.session_status is MessageSent,
    ensures
        handle_cmds(s, a, ctx).len() >= 1,
        handle_cmds(s, a, ctx)[0] == (CommandV::Reply {
            event: SessionEventV::GameError(already_sent_text()),
        }),
        !(a is CheckGameStatus) ==> handle_next(s, a, ctx) == s && handle_cmds(s, a, ctx) =~= seq![
            CommandV::Reply { event: SessionEventV::GameError(already_sent_text()) },
        ],
{
}

} // verus!

