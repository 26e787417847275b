use async_openai::types::{
    ChatCompletionRequestMessage, ChatCompletionRequestUserMessage,
    ChatCompletionRequestUserMessageContent, CreateChatCompletionRequestArgs,
};
use mention_relay::completion::{
    conclude, prepare, submission_from, CompletionRequest, CompletionResult, FailureReason,
    ServiceReply,
};

#[test]
fn first_candidate_text_is_the_result() {
    let reply = ServiceReply::Answered(vec![Some("It's sunny.".to_string())]);
    assert_eq!(conclude(reply), CompletionResult::Text("It's sunny.".to_string()));
}

#[test]
fn later_candidates_do_not_count() {
    let reply = ServiceReply::Answered(vec![
        Some("first".to_string()),
        Some("second".to_string()),
        None,
    ]);
    assert_eq!(conclude(reply), CompletionResult::Text("first".to_string()));
    let reply = ServiceReply::Answered(vec![None, Some("second".to_string())]);
    assert_eq!(conclude(reply), CompletionResult::Failure(FailureReason::EmptyResponse));
}

#[test]
fn no_candidate_is_a_failure() {
    let reply = ServiceReply::Answered(vec![]);
    assert_eq!(conclude(reply), CompletionResult::Failure(FailureReason::NoChoices));
}

#[test]
fn candidate_without_text_is_a_failure() {
    let reply = ServiceReply::Answered(vec![None]);
    assert_eq!(conclude(reply), CompletionResult::Failure(FailureReason::EmptyResponse));
}

#[test]
fn empty_text_of_a_candidate_is_still_its_text() {
    let reply = ServiceReply::Answered(vec![Some(String::new())]);
    assert_eq!(conclude(reply), CompletionResult::Text(String::new()));
}

#[test]
fn failed_call_is_a_failure_with_the_account() {
    let reply = ServiceReply::Failed("Reqwest(timeout)".to_string());
    assert_eq!(
        conclude(reply),
        CompletionResult::Failure(FailureReason::Service("Reqwest(timeout)".to_string()))
    );
}

#[test]
fn same_request_answered_twice_gives_each_answer() {
    let first = conclude(ServiceReply::Answered(vec![Some("one".to_string())]));
    let second = conclude(ServiceReply::Answered(vec![Some("another".to_string())]));
    assert_eq!(first, CompletionResult::Text("one".to_string()));
    assert_eq!(second, CompletionResult::Text("another".to_string()));
    assert_ne!(first, second);
}

#[test]
fn reasons_read_as_the_operator_expects() {
    assert_eq!(
        FailureReason::Unbuilt("invalid args: model".to_string()).describe(),
        "Failed to build request: invalid args: model"
    );
    assert_eq!(
        FailureReason::Service("ApiError(quota)".to_string()).describe(),
        "OpenAI API error: ApiError(quota)"
    );
    assert_eq!(FailureReason::EmptyResponse.describe(), "Received an empty response");
    assert_eq!(FailureReason::NoChoices.describe(), "No response choices available");
}

#[test]
fn request_keeps_model_and_text() {
    let request = CompletionRequest::new("gpt-4o-mini", "what's up?").unwrap();
    assert_eq!(request.model(), "gpt-4o-mini");
    assert_eq!(request.text(), "what's up?");
    assert_eq!(request.clone(), request);
}

#[test]
fn request_may_carry_an_empty_text() {
    let request = CompletionRequest::new("m", "").unwrap();
    assert_eq!(request.text(), "");
}

#[test]
fn request_needs_a_model() {
    assert_eq!(CompletionRequest::new("", "what's up?"), None);
}

#[test]
fn prepared_request_is_one_user_turn_for_the_model() {
    let request = CompletionRequest::new("gpt-4o-mini", "what's up?").unwrap();
    let submission = prepare(request.clone()).unwrap();
    assert_eq!(submission.request(), &request);
    let encoded = submission.into_encoded();
    assert_eq!(encoded.model, "gpt-4o-mini");
    assert_eq!(
        encoded.messages,
        vec![ChatCompletionRequestMessage::User(ChatCompletionRequestUserMessage {
            content: ChatCompletionRequestUserMessageContent::Text("what's up?".to_string()),
            name: None,
        })]
    );
    let expected = CreateChatCompletionRequestArgs::default()
        .model("gpt-4o-mini")
        .messages([ChatCompletionRequestMessage::User(ChatCompletionRequestUserMessage {
            content: ChatCompletionRequestUserMessageContent::Text("what's up?".to_string()),
            name: None,
        })])
        .build()
        .unwrap();
    assert_eq!(encoded, expected);
}

#[test]
fn builder_refusal_becomes_the_reason() {
    let request = CompletionRequest::new("m", "t").unwrap();
    assert_eq!(
        submission_from(request, Err("invalid args: nothing".to_string())),
        Err(FailureReason::Unbuilt("invalid args: nothing".to_string()))
    );
}

#[test]
fn built_request_is_paired_with_what_it_asks() {
    let request = CompletionRequest::new("m", "t").unwrap();
    let built = CreateChatCompletionRequestArgs::default()
        .model("m")
        .messages([ChatCompletionRequestMessage::User(ChatCompletionRequestUserMessage {
            content: ChatCompletionRequestUserMessageContent::Text("t".to_string()),
            name: None,
        })])
        .build()
        .unwrap();
    let submission = submission_from(request.clone(), Ok(built.clone())).unwrap();
    assert_eq!(submission.request(), &request);
    assert_eq!(submission.into_encoded(), built);
}
