//! The course of one message through the relay, step by step.
//!
//! The relay performs nothing itself. Each step names at most one action for
//! its caller to perform and the stage that waits for what comes of it; the
//! caller reports that as an event and gets the next step. A step may also
//! carry a line for the operators' log, to be written at error severity.

use crate::completion::{
    build_refusal, conclude, outcome_of, prepare, prepared, prepared_view, CompletionRequest,
    CompletionResult, FailureReason, ReasonView, ReplyView, RequestView, ResultView, ServiceReply,
    Submission,
};
use vstd::prelude::*;
use vstd::string::*;

verus! {

/// Something for the caller to perform.
#[derive(Debug, PartialEq)]
pub enum Action {
    /// Signal "typing" to the conversation.
    SignalTyping { chat_id: i64 },
    /// Send a text message to the conversation.
    SendText { chat_id: i64, text: String },
    /// Put the request to the completion service.
    Submit { submission: Submission },
}

/// An action as contracts see it.
pub enum ActionView {
    SignalTyping { chat_id: i64 },
    SendText { chat_id: i64, text: Seq<char> },
    Submit { request: RequestView },
}

impl View for Action {
    type V = ActionView;

    open spec fn view(&self) -> ActionView {
        match *self {
            Action::SignalTyping { chat_id } => ActionView::SignalTyping { chat_id },
            Action::SendText { chat_id, text } => ActionView::SendText { chat_id, text: text@ },
            Action::Submit { submission } => ActionView::Submit { request: submission@ },
        }
    }
}

/// What the relay waits for.
#[derive(Debug, PartialEq)]
pub enum Stage {
    /// The typing signal is out; `request` goes to the service once it is through.
    AwaitSignal { chat_id: i64, request: CompletionRequest },
    /// The request is with the completion service.
    AwaitCompletion { chat_id: i64 },
    /// The reply is on its way to the conversation.
    AwaitDelivery,
    /// Nothing is left to do.
    Done,
    /// An action could not be delivered; the failure is the caller's to report.
    Failed,
}

/// A stage as contracts see it.
pub enum StageView {
    AwaitSignal { chat_id: i64, request: RequestView },
    AwaitCompletion { chat_id: i64 },
    AwaitDelivery,
    Done,
    Failed,
}

impl View for Stage {
    type V = StageView;

    open spec fn view(&self) -> StageView {
        match *self {
            Stage::AwaitSignal { chat_id, request } => StageView::AwaitSignal {
                chat_id,
                request: request@,
            },
            Stage::AwaitCompletion { chat_id } => StageView::AwaitCompletion { chat_id },
            Stage::AwaitDelivery => StageView::AwaitDelivery,
            Stage::Done => StageView::Done,
            Stage::Failed => StageView::Failed,
        }
    }
}

/// What came of the last action.
#[derive(Debug, PartialEq, Eq)]
pub enum Event {
    /// The signal or the message went out.
    Delivered,
    /// The signal or the message could not be sent.
    Undelivered,
    /// The completion service was called; what came back.
    Replied(ServiceReply),
}

/// An event as contracts see it.
pub enum EventView {
    Delivered,
    Undelivered,
    Replied(ReplyView),
}

impl View for Event {
    type V = EventView;

    open spec fn view(&self) -> EventView {
        match *self {
            Event::Delivered => EventView::Delivered,
            Event::Undelivered => EventView::Undelivered,
            Event::Replied(reply) => EventView::Replied(reply@),
        }
    }
}

/// One step: the stage reached, a line for the log where there is one, and
/// the action to perform where there is one.
#[derive(Debug, PartialEq)]
pub struct Transition {
    pub stage: Stage,
    pub log: Option<String>,
    pub action: Option<Action>,
}

/// A step as contracts see it.
pub struct TransitionView {
    pub stage: StageView,
    pub log: Option<Seq<char>>,
    pub action: Option<ActionView>,
}

impl View for Transition {
    type V = TransitionView;

    open spec fn view(&self) -> TransitionView {
        TransitionView {
            stage: self.stage@,
            log: match self.log {
                Some(line) => Some(line@),
                None => None,
            },
            action: match self.action {
                Some(action) => Some(action@),
                None => None,
            },
        }
    }
}

/// What the user is told when a completion fails, whatever the reason.
pub open spec fn apology() -> Seq<char> {
    "Sorry, I encountered an error while processing your request."@
}

/// The line the operators read when a completion fails.
pub open spec fn error_line(reason: ReasonView) -> Seq<char> {
    "OpenAI request error: "@ + reason.description()
}

/// A step to `stage` with nothing to log and nothing to perform.
pub open spec fn rest(stage: StageView) -> TransitionView {
    TransitionView { stage, log: None, action: None }
}

/// The step that answers the conversation once the completion's result is
/// known: its text, or the apology with the reason in the log.
pub open spec fn answer(chat_id: i64, result: ResultView) -> TransitionView {
    match result {
        ResultView::Text(text) => TransitionView {
            stage: StageView::AwaitDelivery,
            log: None,
            action: Some(ActionView::SendText { chat_id, text }),
        },
        ResultView::Failure(reason) => TransitionView {
            stage: StageView::AwaitDelivery,
            log: Some(error_line(reason)),
            action: Some(ActionView::SendText { chat_id, text: apology() }),
        },
    }
}

/// The step that follows the typing signal: the request goes to the
/// service, or, where it could not be made ready, the conversation is
/// answered with that failure.
pub open spec fn submission(chat_id: i64, ready: Result<RequestView, ReasonView>) -> TransitionView {
    match ready {
        Ok(request) => TransitionView {
            stage: StageView::AwaitCompletion { chat_id },
            log: None,
            action: Some(ActionView::Submit { request }),
        },
        Err(reason) => answer(chat_id, ResultView::Failure(reason)),
    }
}

/// The step that `event` brings about at `stage`. An event that the stage
/// does not wait for changes nothing.
pub open spec fn next(stage: StageView, event: EventView) -> TransitionView {
    match stage {
        StageView::AwaitSignal { chat_id, request } => match event {
            EventView::Delivered => submission(
                chat_id,
                prepared(request, build_refusal(request.model, request.text)),
            ),
            EventView::Undelivered => rest(StageView::Failed),
            EventView::Replied(_) => rest(stage),
        },
        StageView::AwaitCompletion { chat_id } => match event {
            EventView::Replied(reply) => answer(chat_id, outcome_of(reply)),
            _ => rest(stage),
        },
        StageView::AwaitDelivery => match event {
            EventView::Delivered => rest(StageView::Done),
            EventView::Undelivered => rest(StageView::Failed),
            EventView::Replied(_) => rest(stage),
        },
        StageView::Done => rest(stage),
        StageView::Failed => rest(stage),
    }
}

impl TransitionView {
    /// The action of this step, as a sequence of none or one.
    pub open spec fn taken(self) -> Seq<ActionView> {
        match self.action {
            Some(action) => seq![action],
            None => Seq::empty(),
        }
    }

    /// The log line of this step, as a sequence of none or one.
    pub open spec fn logged(self) -> Seq<Seq<char>> {
        match self.log {
            Some(line) => seq![line],
            None => Seq::empty(),
        }
    }
}

/// The stage reached when `events` come in, one after the other, from `step` on.
pub open spec fn stage_after(step: TransitionView, events: Seq<EventView>) -> StageView
    decreases events.len(),
{
    if events.len() == 0 {
        step.stage
    } else {
        stage_after(next(step.stage, events[0]), events.drop_first())
    }
}

/// The actions handed out, in order, by `step` and by the steps that
/// `events` bring about after it.
pub open spec fn actions_over(step: TransitionView, events: Seq<EventView>) -> Seq<ActionView>
    decreases events.len(),
{
    if events.len() == 0 {
        step.taken()
    } else {
        step.taken() + actions_over(next(step.stage, events[0]), events.drop_first())
    }
}

/// The lines logged, in order, by `step` and by the steps that `events`
/// bring about after it.
pub open spec fn logs_over(step: TransitionView, events: Seq<EventView>) -> Seq<Seq<char>>
    decreases events.len(),
{
    if events.len() == 0 {
        step.logged()
    } else {
        step.logged() + logs_over(next(step.stage, events[0]), events.drop_first())
    }
}

/// Answers the conversation `chat_id` with the result of the completion.
pub fn reply_with(chat_id: i64, result: CompletionResult) -> (step: Transition)
    ensures
        step@ == answer(chat_id, result@),
{
    match result {
        CompletionResult::Text(text) => Transition {
            stage: Stage::AwaitDelivery,
            log: None,
            action: Some(Action::SendText { chat_id, text }),
        },
        CompletionResult::Failure(reason) => {
            let line = String::from_str("OpenAI request error: ").concat(
                reason.describe().as_str(),
            );
            let text = String::from_str(
                "Sorry, I encountered an error while processing your request.",
            );
            Transition {
                stage: Stage::AwaitDelivery,
                log: Some(line),
                action: Some(Action::SendText { chat_id, text }),
            }
        },
    }
}

/// A step to `stage` with nothing to log and nothing to perform.
fn rest_at(stage: Stage) -> (step: Transition)
    ensures
        step@ == rest(stage@),
{
    Transition { stage, log: None, action: None }
}

/// Hands a request that was made ready to the service; answers the
/// conversation `chat_id` with the failure where it could not be.
pub fn submit(chat_id: i64, ready: Result<Submission, FailureReason>) -> (step: Transition)
    ensures
        step@ == submission(chat_id, prepared_view(ready)),
{
    match ready {
        Ok(submission) => Transition {
            stage: Stage::AwaitCompletion { chat_id },
            log: None,
            action: Some(Action::Submit { submission }),
        },
        Err(reason) => reply_with(chat_id, CompletionResult::Failure(reason)),
    }
}

/// Takes the flow from `stage` on, given what came of its last action.
pub fn advance(stage: Stage, event: Event) -> (step: Transition)
    ensures
        step@ == next(stage@, event@),
{
    match stage {
        Stage::AwaitSignal { chat_id, request } => match event {
            Event::Delivered => submit(chat_id, prepare(request)),
            Event::Undelivered => rest_at(Stage::Failed),
            Event::Replied(_) => rest_at(Stage::AwaitSignal { chat_id, request }),
        },
        Stage::AwaitCompletion { chat_id } => match event {
            Event::Replied(reply) => reply_with(chat_id, conclude(reply)),
            _ => rest_at(Stage::AwaitCompletion { chat_id }),
        },
        Stage::AwaitDelivery => match event {
            Event::Delivered => rest_at(Stage::Done),
            Event::Undelivered => rest_at(Stage::Failed),
            Event::Replied(_) => rest_at(Stage::AwaitDelivery),
        },
        Stage::Done => rest_at(Stage::Done),
        Stage::Failed => rest_at(Stage::Failed),
    }
}

} // verus!
