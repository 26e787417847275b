//! What holds of the reading of the service's replies.

use crate::completion::{outcome_of, ReasonView, ReplyView, ResultView};
use crate::flow::{next, ActionView, EventView, StageView};
use vstd::prelude::*;

verus! {

/// Where the first candidate of an answer carries a text, that text is the
/// result, exactly.
pub proof fn first_text_is_the_result(candidates: Seq<Option<Seq<char>>>, text: Seq<char>)
    requires
        candidates.len() > 0,
        candidates[0] == Some(text),
    ensures
        outcome_of(ReplyView::Answered(candidates)) == ResultView::Text(text),
{
}

/// An answer without candidates, and one whose first candidate carries no
/// text, is a failure, each with its own reason.
pub proof fn empty_answer_is_a_failure(candidates: Seq<Option<Seq<char>>>)
    ensures
        candidates.len() == 0 ==> outcome_of(ReplyView::Answered(candidates))
            == ResultView::Failure(ReasonView::NoChoices),
        candidates.len() > 0 && candidates[0] is None ==> outcome_of(
            ReplyView::Answered(candidates),
        ) == ResultView::Failure(ReasonView::EmptyResponse),
{
}

/// A result is a text only where the service answered and its first
/// candidate carries that very text: no text is made up, not even an empty
/// one.
pub proof fn text_is_never_made_up(reply: ReplyView, text: Seq<char>)
    requires
        outcome_of(reply) == ResultView::Text(text),
    ensures
        reply matches ReplyView::Answered(candidates) && candidates.len() > 0 && candidates[0]
            == Some(text),
{
}

/// A failed call is a failure that carries the client's account of it.
pub proof fn failed_call_keeps_its_account(words: Seq<char>)
    ensures
        outcome_of(ReplyView::Failed(words)) == ResultView::Failure(ReasonView::Service(words)),
{
}

/// Nothing is kept from one completion to the next: while the request is
/// with the service, the step taken follows the reply at hand alone. The
/// same message, answered twice with different texts, is replied to with
/// different texts.
pub proof fn replies_are_read_afresh(
    chat_id: i64,
    first: Seq<Option<Seq<char>>>,
    second: Seq<Option<Seq<char>>>,
    one: Seq<char>,
    other: Seq<char>,
)
    requires
        first.len() > 0 && first[0] == Some(one),
        second.len() > 0 && second[0] == Some(other),
        one != other,
    ensures
        next(StageView::AwaitCompletion { chat_id }, EventView::Replied(ReplyView::Answered(first)))
            != next(
            StageView::AwaitCompletion { chat_id },
            EventView::Replied(ReplyView::Answered(second)),
        ),
        next(
            StageView::AwaitCompletion { chat_id },
            EventView::Replied(ReplyView::Answered(first)),
        ).action == Some(ActionView::SendText { chat_id, text: one }),
        next(
            StageView::AwaitCompletion { chat_id },
            EventView::Replied(ReplyView::Answered(second)),
        ).action == Some(ActionView::SendText { chat_id, text: other }),
{
}

} // verus!
