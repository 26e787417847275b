//! What holds of the course of a message from the router to its end,
//! whatever its caller reports along the way.

use crate::completion::{build_refusal, ReasonView, ReplyView, RequestView, ResultView};
use crate::config::ConfigView;
use crate::flow::{
    actions_over, answer, apology, error_line, logs_over, next, rest, stage_after, ActionView,
    EventView, StageView, TransitionView,
};
use crate::handlers::mention_request;
use crate::message::MessageView;
use crate::router::routed;
use vstd::prelude::*;

verus! {

/// The router takes exactly one way: a command is answered with a text, a
/// mention opens with the typing signal, and an ignored message brings
/// about nothing.
pub proof fn router_takes_exactly_one_way(
    msg: MessageView,
    config: ConfigView,
    bot_name: Seq<char>,
)
    ensures
        msg.intent(bot_name) is Command <==> routed(msg, config, bot_name).action matches Some(
            ActionView::SendText { .. },
        ),
        msg.intent(bot_name) is Mention <==> routed(msg, config, bot_name).action matches Some(
            ActionView::SignalTyping { .. },
        ),
        msg.intent(bot_name) is Ignore <==> routed(msg, config, bot_name).action is None,
{
}

/// A command is answered with the configured greeting, sent to the
/// conversation the command came from; once that is delivered, nothing is
/// left to do, and nothing was logged.
pub proof fn command_is_answered_with_the_greeting(
    msg: MessageView,
    config: ConfigView,
    bot_name: Seq<char>,
)
    requires
        msg.intent(bot_name) is Command,
    ensures
        actions_over(routed(msg, config, bot_name), seq![EventView::Delivered]) == seq![
            ActionView::SendText { chat_id: msg.chat_id, text: config.greeting_message },
        ],
        logs_over(routed(msg, config, bot_name), seq![EventView::Delivered]) == Seq::<
            Seq<char>,
        >::empty(),
        stage_after(routed(msg, config, bot_name), seq![EventView::Delivered]) == StageView::Done,
{
    let start = routed(msg, config, bot_name);
    unfold_event(start, EventView::Delivered, Seq::empty());
    assert(seq![EventView::Delivered] + Seq::<EventView>::empty() =~= seq![EventView::Delivered]);
    assert(actions_over(start, seq![EventView::Delivered]) =~= seq![
        ActionView::SendText { chat_id: msg.chat_id, text: config.greeting_message },
    ]);
    assert(logs_over(start, seq![EventView::Delivered]) =~= Seq::<Seq<char>>::empty());
}

/// A mention that the service answers: the typing signal goes to the
/// conversation, the request carries the configured model and the text of
/// the message (the placeholder where it has none), and the text of the
/// first candidate is sent to the same conversation. Nothing is logged.
pub proof fn mention_is_answered_with_the_completion(
    msg: MessageView,
    config: ConfigView,
    bot_name: Seq<char>,
    candidates: Seq<Option<Seq<char>>>,
    text: Seq<char>,
)
    requires
        msg.intent(bot_name) is Mention,
        build_refusal(config.llm_model_name, msg.text_or_placeholder()) is None,
        candidates.len() > 0,
        candidates[0] == Some(text),
    ensures
        ({
            let events = seq![
                EventView::Delivered,
                EventView::Replied(ReplyView::Answered(candidates)),
                EventView::Delivered,
            ];
            let start = routed(msg, config, bot_name);
            &&& actions_over(start, events) == seq![
                ActionView::SignalTyping { chat_id: msg.chat_id },
                ActionView::Submit { request: mention_request(msg, config.llm_model_name) },
                ActionView::SendText { chat_id: msg.chat_id, text },
            ]
            &&& logs_over(start, events) == Seq::<Seq<char>>::empty()
            &&& stage_after(start, events) == StageView::Done
        }),
{
    let reply = EventView::Replied(ReplyView::Answered(candidates));
    let events = seq![EventView::Delivered, reply, EventView::Delivered];
    let start = routed(msg, config, bot_name);
    let second = next(start.stage, EventView::Delivered);
    let third = next(second.stage, reply);
    unfold_event(start, EventView::Delivered, seq![reply, EventView::Delivered]);
    unfold_event(second, reply, seq![EventView::Delivered]);
    unfold_event(third, EventView::Delivered, Seq::empty());
    assert(seq![EventView::Delivered] + seq![reply, EventView::Delivered] =~= events);
    assert(seq![reply] + seq![EventView::Delivered] =~= seq![reply, EventView::Delivered]);
    assert(seq![EventView::Delivered] + Seq::<EventView>::empty() =~= seq![EventView::Delivered]);
    assert(actions_over(start, events) =~= seq![
        ActionView::SignalTyping { chat_id: msg.chat_id },
        ActionView::Submit { request: mention_request(msg, config.llm_model_name) },
        ActionView::SendText { chat_id: msg.chat_id, text },
    ]);
    assert(logs_over(start, events) =~= Seq::<Seq<char>>::empty());
}

/// A mention for which the call to the service fails: the typing signal and
/// the request go out as ever, the conversation is sent the apology and
/// nothing else, and the one line logged ends in the client's account of
/// the error.
pub proof fn failed_call_is_apologised_for(
    msg: MessageView,
    config: ConfigView,
    bot_name: Seq<char>,
    words: Seq<char>,
)
    requires
        msg.intent(bot_name) is Mention,
        build_refusal(config.llm_model_name, msg.text_or_placeholder()) is None,
    ensures
        ({
            let events = seq![
                EventView::Delivered,
                EventView::Replied(ReplyView::Failed(words)),
                EventView::Delivered,
            ];
            let start = routed(msg, config, bot_name);
            &&& actions_over(start, events) == seq![
                ActionView::SignalTyping { chat_id: msg.chat_id },
                ActionView::Submit { request: mention_request(msg, config.llm_model_name) },
                ActionView::SendText { chat_id: msg.chat_id, text: apology() },
            ]
            &&& logs_over(start, events) == seq![
                "OpenAI request error: OpenAI API error: "@ + words,
            ]
            &&& stage_after(start, events) == StageView::Done
        }),
{
    let reply = EventView::Replied(ReplyView::Failed(words));
    let events = seq![EventView::Delivered, reply, EventView::Delivered];
    let start = routed(msg, config, bot_name);
    let second = next(start.stage, EventView::Delivered);
    let third = next(second.stage, reply);
    unfold_event(start, EventView::Delivered, seq![reply, EventView::Delivered]);
    unfold_event(second, reply, seq![EventView::Delivered]);
    unfold_event(third, EventView::Delivered, Seq::empty());
    assert(seq![EventView::Delivered] + seq![reply, EventView::Delivered] =~= events);
    assert(seq![reply] + seq![EventView::Delivered] =~= seq![reply, EventView::Delivered]);
    assert(seq![EventView::Delivered] + Seq::<EventView>::empty() =~= seq![EventView::Delivered]);
    assert(actions_over(start, events) =~= seq![
        ActionView::SignalTyping { chat_id: msg.chat_id },
        ActionView::Submit { request: mention_request(msg, config.llm_model_name) },
        ActionView::SendText { chat_id: msg.chat_id, text: apology() },
    ]);
    assert(error_line(ReasonView::Service(words)) =~= "OpenAI request error: OpenAI API error: "@
        + words) by {
        reveal_strlit("OpenAI request error: ");
        reveal_strlit("OpenAI API error: ");
        reveal_strlit("OpenAI request error: OpenAI API error: ");
    }
    assert(logs_over(start, events) =~= seq![
        "OpenAI request error: OpenAI API error: "@ + words,
    ]);
}

/// Whatever the reason a completion failed, the user is sent the apology:
/// the reason goes to the log and nowhere else.
pub proof fn reason_is_kept_from_the_user(chat_id: i64, reason: ReasonView)
    ensures
        answer(chat_id, ResultView::Failure(reason)).action == Some(
            ActionView::SendText { chat_id, text: apology() },
        ),
        answer(chat_id, ResultView::Failure(reason)).log == Some(error_line(reason)),
{
}

/// A message that is ignored brings about no action and no log line,
/// whatever is reported afterwards.
pub proof fn ignored_message_is_silent(
    msg: MessageView,
    config: ConfigView,
    bot_name: Seq<char>,
    events: Seq<EventView>,
)
    requires
        msg.intent(bot_name) is Ignore,
    ensures
        actions_over(routed(msg, config, bot_name), events) == Seq::<ActionView>::empty(),
        logs_over(routed(msg, config, bot_name), events) == Seq::<Seq<char>>::empty(),
        stage_after(routed(msg, config, bot_name), events) == StageView::Done,
{
    ended_flow_stays_ended(StageView::Done, events);
}

/// Once a flow is done or has failed, it stays so and is silent.
pub proof fn ended_flow_stays_ended(stage: StageView, events: Seq<EventView>)
    requires
        stage is Done || stage is Failed,
    ensures
        actions_over(rest(stage), events) == Seq::<ActionView>::empty(),
        logs_over(rest(stage), events) == Seq::<Seq<char>>::empty(),
        stage_after(rest(stage), events) == stage,
    decreases events.len(),
{
    if events.len() > 0 {
        ended_flow_stays_ended(stage, events.drop_first());
        assert(next(stage, events[0]) == rest(stage));
    }
    assert(actions_over(rest(stage), events) =~= Seq::<ActionView>::empty());
    assert(logs_over(rest(stage), events) =~= Seq::<Seq<char>>::empty());
}

/// A signal or a message that cannot be delivered ends the flow at once:
/// the failure is reported, nothing further is attempted or logged.
pub proof fn undelivered_action_fails_the_flow(stage: StageView, events: Seq<EventView>)
    requires
        stage is AwaitSignal || stage is AwaitDelivery,
    ensures
        next(stage, EventView::Undelivered) == rest(StageView::Failed),
        actions_over(next(stage, EventView::Undelivered), events) == Seq::<ActionView>::empty(),
        logs_over(next(stage, EventView::Undelivered), events) == Seq::<Seq<char>>::empty(),
        stage_after(next(stage, EventView::Undelivered), events) == StageView::Failed,
{
    ended_flow_stays_ended(StageView::Failed, events);
}

/// How a flow unfolds when an event comes in ahead of others.
proof fn unfold_event(step: TransitionView, event: EventView, events: Seq<EventView>)
    ensures
        stage_after(step, seq![event] + events) == stage_after(next(step.stage, event), events),
        actions_over(step, seq![event] + events) == step.taken() + actions_over(
            next(step.stage, event),
            events,
        ),
        logs_over(step, seq![event] + events) == step.logged() + logs_over(
            next(step.stage, event),
            events,
        ),
{
    assert((seq![event] + events).drop_first() =~= events);
}

/// Whether an action is addressed to the conversation `chat_id`. A request
/// to the completion service is addressed to no conversation.
pub open spec fn stays_in(action: ActionView, chat_id: i64) -> bool {
    match action {
        ActionView::SignalTyping { chat_id: target } => target == chat_id,
        ActionView::SendText { chat_id: target, .. } => target == chat_id,
        ActionView::Submit { .. } => true,
    }
}

/// Every signal and every message that a flow hands out goes to the
/// conversation that the inbound message came from, whatever is reported
/// along the way.
pub proof fn every_action_stays_in_the_conversation(
    msg: MessageView,
    config: ConfigView,
    bot_name: Seq<char>,
    events: Seq<EventView>,
)
    ensures
        forall|i: int|
            0 <= i < actions_over(routed(msg, config, bot_name), events).len() ==> stays_in(
                #[trigger] actions_over(routed(msg, config, bot_name), events)[i],
                msg.chat_id,
            ),
{
    flow_stays_in(routed(msg, config, bot_name), msg.chat_id, events);
}

/// Whether a stage keeps to the conversation `chat_id`.
spec fn stage_stays_in(stage: StageView, chat_id: i64) -> bool {
    match stage {
        StageView::AwaitSignal { chat_id: target, .. } => target == chat_id,
        StageView::AwaitCompletion { chat_id: target } => target == chat_id,
        _ => true,
    }
}

/// A step that keeps to a conversation is followed by such steps only.
proof fn flow_stays_in(step: TransitionView, chat_id: i64, events: Seq<EventView>)
    requires
        stage_stays_in(step.stage, chat_id),
        step.action matches Some(action) ==> stays_in(action, chat_id),
    ensures
        forall|i: int|
            0 <= i < actions_over(step, events).len() ==> stays_in(
                #[trigger] actions_over(step, events)[i],
                chat_id,
            ),
    decreases events.len(),
{
    if events.len() > 0 {
        let own = step.taken();
        let later = actions_over(next(step.stage, events[0]), events.drop_first());
        flow_stays_in(next(step.stage, events[0]), chat_id, events.drop_first());
        assert forall|i: int| 0 <= i < (own + later).len() implies stays_in(
            #[trigger] (own + later)[i],
            chat_id,
        ) by {
            if i >= own.len() {
                assert((own + later)[i] == later[i - own.len()]);
            }
        }
    }
}

/// Every request that a flow puts to the completion service carries the
/// configured model, which is not empty, and the text of the message as it
/// is, or the placeholder where the message has none.
pub proof fn every_request_asks_what_the_message_says(
    msg: MessageView,
    config: ConfigView,
    bot_name: Seq<char>,
    events: Seq<EventView>,
)
    requires
        config.llm_model_name.len() > 0,
    ensures
        forall|i: int|
            0 <= i < actions_over(routed(msg, config, bot_name), events).len() ==> (
            #[trigger] actions_over(routed(msg, config, bot_name), events)[i] matches ActionView::Submit {
                request,
            } ==> request.model == config.llm_model_name && request.model.len() > 0
                && request.text == msg.text_or_placeholder()),
{
    let request = mention_request(msg, config.llm_model_name);
    flow_keeps_to(routed(msg, config, bot_name), request, events);
}

/// Whether a step keeps to the request `request`: whatever it waits to
/// submit, and whatever it submits, is that request.
spec fn keeps_to(step: TransitionView, request: RequestView) -> bool {
    &&& step.stage matches StageView::AwaitSignal { request: waiting, .. } ==> waiting == request
    &&& step.action matches Some(ActionView::Submit { request: submitted }) ==> submitted
        == request
}

/// A step that keeps to a request is followed by such steps only.
proof fn flow_keeps_to(step: TransitionView, request: RequestView, events: Seq<EventView>)
    requires
        keeps_to(step, request),
    ensures
        forall|i: int|
            0 <= i < actions_over(step, events).len() ==> (#[trigger] actions_over(
                step,
                events,
            )[i] matches ActionView::Submit { request: submitted } ==> submitted == request),
    decreases events.len(),
{
    if events.len() > 0 {
        let own = step.taken();
        let later = actions_over(next(step.stage, events[0]), events.drop_first());
        flow_keeps_to(next(step.stage, events[0]), request, events.drop_first());
        assert forall|i: int| 0 <= i < (own + later).len() implies (#[trigger] (own + later)[i] matches ActionView::Submit {
            request: submitted,
        } ==> submitted == request) by {
            if i >= own.len() {
                assert((own + later)[i] == later[i - own.len()]);
            }
        }
    }
}

/// A message is answered at most once: a text sent to the conversation is
/// the last action of its flow, whatever is reported afterwards.
pub proof fn text_is_the_last_action(
    msg: MessageView,
    config: ConfigView,
    bot_name: Seq<char>,
    events: Seq<EventView>,
)
    ensures
        forall|i: int|
            0 <= i < actions_over(routed(msg, config, bot_name), events).len() && (
            #[trigger] actions_over(routed(msg, config, bot_name), events)[i]) is SendText ==> i
                == actions_over(routed(msg, config, bot_name), events).len() - 1,
{
    flow_ends_with_its_text(routed(msg, config, bot_name), events);
}

/// Whether a step is one that a flow can take: a text goes out only on the
/// way to the end of the flow, and a flow that has ended hands out nothing.
spec fn winds_down(step: TransitionView) -> bool {
    &&& step.action matches Some(ActionView::SendText { .. }) ==> step.stage is AwaitDelivery
    &&& step.stage is Done || step.stage is Failed ==> step.action is None
}

/// In a flow of steps that wind down, a text is the last action.
proof fn flow_ends_with_its_text(step: TransitionView, events: Seq<EventView>)
    requires
        winds_down(step),
    ensures
        forall|i: int|
            0 <= i < actions_over(step, events).len() && (#[trigger] actions_over(
                step,
                events,
            )[i]) is SendText ==> i == actions_over(step, events).len() - 1,
    decreases events.len(),
{
    if events.len() > 0 {
        let own = step.taken();
        let later = actions_over(next(step.stage, events[0]), events.drop_first());
        flow_ends_with_its_text(next(step.stage, events[0]), events.drop_first());
        if step.action matches Some(ActionView::SendText { .. }) {
            nothing_follows_the_reply(step, events);
        }
        assert forall|i: int|
            0 <= i < (own + later).len() && (#[trigger] (own + later)[i]) is SendText implies i == (
        own + later).len() - 1 by {
            if i >= own.len() {
                assert((own + later)[i] == later[i - own.len()]);
            }
        }
    }
}

/// Once the reply is on its way, or the flow has ended, no further action
/// is handed out.
proof fn nothing_follows_the_reply(step: TransitionView, events: Seq<EventView>)
    requires
        step.stage is AwaitDelivery || step.stage is Done || step.stage is Failed,
    ensures
        actions_over(step, events) == step.taken(),
    decreases events.len(),
{
    if events.len() > 0 {
        nothing_follows_the_reply(next(step.stage, events[0]), events.drop_first());
        assert(step.taken() + Seq::<ActionView>::empty() =~= step.taken());
    }
}

/// The service is asked at most once for a message, and only after the
/// typing signal: the signal, where there is one, is the first action of a
/// flow, and the request, where there is one, the second.
pub proof fn signal_and_request_lead_the_flow(
    msg: MessageView,
    config: ConfigView,
    bot_name: Seq<char>,
    events: Seq<EventView>,
)
    ensures
        ({
            let actions = actions_over(routed(msg, config, bot_name), events);
            forall|i: int|
                0 <= i < actions.len() ==> {
                    &&& (#[trigger] actions[i]) is SignalTyping ==> i == 0
                    &&& actions[i] is Submit ==> i == 1 && actions[0] is SignalTyping
                }
        }),
{
    let start = routed(msg, config, bot_name);
    if start.stage is AwaitSignal {
        request_follows_the_signal(start, events);
    } else {
        nothing_follows_the_reply(start, events);
    }
}

/// While the typing signal is awaited, the request is the next action
/// handed out, and no further signal or request follows.
proof fn request_follows_the_signal(step: TransitionView, events: Seq<EventView>)
    requires
        step.stage is AwaitSignal,
        step.action is None || step.action matches Some(ActionView::SignalTyping { .. }),
    ensures
        ({
            let actions = actions_over(step, events);
            let own = step.taken().len();
            forall|i: int|
                own <= i < actions.len() ==> {
                    &&& !((#[trigger] actions[i]) is SignalTyping)
                    &&& actions[i] is Submit ==> i == own
                }
        }),
    decreases events.len(),
{
    if events.len() > 0 {
        let own = step.taken();
        let following = next(step.stage, events[0]);
        let later = actions_over(following, events.drop_first());
        if following.stage is AwaitSignal {
            request_follows_the_signal(following, events.drop_first());
        } else if following.stage is AwaitCompletion {
            only_the_reply_follows_the_request(following, events.drop_first());
        } else {
            nothing_follows_the_reply(following, events.drop_first());
        }
        assert forall|i: int| own.len() <= i < (own + later).len() implies {
            &&& !((#[trigger] (own + later)[i]) is SignalTyping)
            &&& (own + later)[i] is Submit ==> i == own.len()
        } by {
            assert((own + later)[i] == later[i - own.len()]);
        }
    }
}

/// Once the request is with the service, only the reply is still handed out.
proof fn only_the_reply_follows_the_request(step: TransitionView, events: Seq<EventView>)
    requires
        step.stage is AwaitCompletion,
    ensures
        ({
            let actions = actions_over(step, events);
            forall|i: int|
                step.taken().len() <= i < actions.len() ==> (#[trigger] actions[i]) is SendText
        }),
    decreases events.len(),
{
    if events.len() > 0 {
        let own = step.taken();
        let following = next(step.stage, events[0]);
        let later = actions_over(following, events.drop_first());
        if following.stage is AwaitCompletion {
            only_the_reply_follows_the_request(following, events.drop_first());
        } else {
            nothing_follows_the_reply(following, events.drop_first());
        }
        assert forall|i: int| own.len() <= i < (own + later).len() implies (#[trigger] (own
            + later)[i]) is SendText by {
            assert((own + later)[i] == later[i - own.len()]);
        }
    }
}

} // verus!
