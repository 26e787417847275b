//! The exchange with the completion service: what is asked of it, what it
//! hands back, and what a reply amounts to.

use async_openai::types::{
    ChatCompletionRequestMessage, ChatCompletionRequestUserMessage,
    ChatCompletionRequestUserMessageContent, CreateChatCompletionRequest,
    CreateChatCompletionRequestArgs,
};
use vstd::prelude::*;
use vstd::string::*;

verus! {

/// The request type of the service's client, carried through unread.
#[verifier::external_type_specification]
#[verifier::external_body]
pub struct ExCreateChatCompletionRequest(async_openai::types::CreateChatCompletionRequest);

/// What a request asks: which model, and the one user turn put to it.
pub struct RequestView {
    pub model: Seq<char>,
    pub text: Seq<char>,
}

/// A request to the completion service: a model and a single user turn.
#[derive(Debug, PartialEq, Eq)]
pub struct CompletionRequest {
    model: String,
    text: String,
}

impl View for CompletionRequest {
    type V = RequestView;

    closed spec fn view(&self) -> RequestView {
        RequestView { model: self.model@, text: self.text@ }
    }
}

impl Clone for CompletionRequest {
    fn clone(&self) -> (copy: CompletionRequest)
        ensures
            copy@ == self@,
    {
        proof {
            use_type_invariant(self);
        }
        CompletionRequest { model: self.model.clone(), text: self.text.clone() }
    }
}

impl CompletionRequest {
    #[verifier::type_invariant]
    spec fn names_a_model(&self) -> bool {
        self.model@.len() > 0
    }

    /// A request for `model` with `text` as the user turn, unless `model` is empty.
    pub fn new(model: &str, text: &str) -> (made: Option<CompletionRequest>)
        ensures
            made is None <==> model@.len() == 0,
            made matches Some(request) ==> request@ == (RequestView { model: model@, text: text@ }),
    {
        if model.is_empty() {
            None
        } else {
            Some(CompletionRequest { model: model.to_owned(), text: text.to_owned() })
        }
    }

    /// The model the request is addressed to; never empty.
    pub fn model(&self) -> (model: &str)
        ensures
            model@ == self@.model,
            model@.len() > 0,
    {
        proof {
            use_type_invariant(self);
        }
        self.model.as_str()
    }

    /// The text of the user turn.
    pub fn text(&self) -> (text: &str)
        ensures
            text@ == self@.text,
    {
        self.text.as_str()
    }
}

/// Why a completion came to nothing.
#[derive(Debug, PartialEq, Eq)]
pub enum FailureReason {
    /// The request could not be put together; the builder's own words.
    Unbuilt(String),
    /// The call to the service failed; the client's account of the error.
    Service(String),
    /// The first candidate carries no text.
    EmptyResponse,
    /// The service handed back no candidate at all.
    NoChoices,
}

/// A reason as contracts see it.
pub enum ReasonView {
    Unbuilt(Seq<char>),
    Service(Seq<char>),
    EmptyResponse,
    NoChoices,
}

impl ReasonView {
    /// The reason in words, as an operator reads it.
    pub open spec fn description(self) -> Seq<char> {
        match self {
            ReasonView::Unbuilt(words) => "Failed to build request: "@ + words,
            ReasonView::Service(words) => "OpenAI API error: "@ + words,
            ReasonView::EmptyResponse => "Received an empty response"@,
            ReasonView::NoChoices => "No response choices available"@,
        }
    }
}

impl View for FailureReason {
    type V = ReasonView;

    open spec fn view(&self) -> ReasonView {
        match *self {
            FailureReason::Unbuilt(words) => ReasonView::Unbuilt(words@),
            FailureReason::Service(words) => ReasonView::Service(words@),
            FailureReason::EmptyResponse => ReasonView::EmptyResponse,
            FailureReason::NoChoices => ReasonView::NoChoices,
        }
    }
}

impl Clone for FailureReason {
    fn clone(&self) -> (copy: FailureReason)
        ensures
            copy@ == self@,
    {
        match self {
            FailureReason::Unbuilt(words) => FailureReason::Unbuilt(words.clone()),
            FailureReason::Service(words) => FailureReason::Service(words.clone()),
            FailureReason::EmptyResponse => FailureReason::EmptyResponse,
            FailureReason::NoChoices => FailureReason::NoChoices,
        }
    }
}

impl FailureReason {
    /// The reason in words, as an operator reads it.
    pub fn describe(&self) -> (words: String)
        ensures
            words@ == self@.description(),
    {
        match self {
            FailureReason::Unbuilt(words) => {
                String::from_str("Failed to build request: ").concat(words.as_str())
            },
            FailureReason::Service(words) => {
                String::from_str("OpenAI API error: ").concat(words.as_str())
            },
            FailureReason::EmptyResponse => String::from_str("Received an empty response"),
            FailureReason::NoChoices => String::from_str("No response choices available"),
        }
    }
}

/// What a completion came to: the text the service wrote, or the reason
/// there is none.
#[derive(Debug, PartialEq, Eq)]
pub enum CompletionResult {
    Text(String),
    Failure(FailureReason),
}

/// A result as contracts see it.
pub enum ResultView {
    Text(Seq<char>),
    Failure(ReasonView),
}

impl View for CompletionResult {
    type V = ResultView;

    open spec fn view(&self) -> ResultView {
        match *self {
            CompletionResult::Text(text) => ResultView::Text(text@),
            CompletionResult::Failure(reason) => ResultView::Failure(reason@),
        }
    }
}

impl Clone for CompletionResult {
    fn clone(&self) -> (copy: CompletionResult)
        ensures
            copy@ == self@,
    {
        match self {
            CompletionResult::Text(text) => CompletionResult::Text(text.clone()),
            CompletionResult::Failure(reason) => CompletionResult::Failure(reason.clone()),
        }
    }
}

/// What came back from one call to the completion service.
#[derive(Debug, PartialEq, Eq)]
pub enum ServiceReply {
    /// The service answered: the text of each candidate, in the order given,
    /// `None` for a candidate that carries none.
    Answered(Vec<Option<String>>),
    /// The call failed; the client's account of the error.
    Failed(String),
}

/// A reply as contracts see it.
pub enum ReplyView {
    Answered(Seq<Option<Seq<char>>>),
    Failed(Seq<char>),
}

impl View for ServiceReply {
    type V = ReplyView;

    open spec fn view(&self) -> ReplyView {
        match *self {
            ServiceReply::Answered(candidates) => ReplyView::Answered(candidates.deep_view()),
            ServiceReply::Failed(words) => ReplyView::Failed(words@),
        }
    }
}

/// What a reply amounts to. The first candidate decides: its text is the
/// result; without text, or without any candidate, the reply is a failure,
/// as is a failed call.
pub open spec fn outcome_of(reply: ReplyView) -> ResultView {
    match reply {
        ReplyView::Failed(words) => ResultView::Failure(ReasonView::Service(words)),
        ReplyView::Answered(candidates) => {
            if candidates.len() == 0 {
                ResultView::Failure(ReasonView::NoChoices)
            } else {
                match candidates[0] {
                    Some(text) => ResultView::Text(text),
                    None => ResultView::Failure(ReasonView::EmptyResponse),
                }
            }
        },
    }
}

/// Reads a reply of the service into the result of the completion.
pub fn conclude(reply: ServiceReply) -> (result: CompletionResult)
    ensures
        result@ == outcome_of(reply@),
{
    match reply {
        ServiceReply::Failed(words) => CompletionResult::Failure(FailureReason::Service(words)),
        ServiceReply::Answered(candidates) => {
            if candidates.len() == 0 {
                CompletionResult::Failure(FailureReason::NoChoices)
            } else {
                match &candidates[0] {
                    Some(text) => CompletionResult::Text(text.clone()),
                    None => CompletionResult::Failure(FailureReason::EmptyResponse),
                }
            }
        },
    }
}

/// What the client's request builder says against a request for `model`
/// with `text` as its single user turn, where it declines to build one.
pub uninterp spec fn build_refusal(model: Seq<char>, text: Seq<char>) -> Option<Seq<char>>;

/// The builder's words where it declined, as contracts see them.
pub open spec fn refusal_in(built: Result<CreateChatCompletionRequest, String>) -> Option<
    Seq<char>,
> {
    match built {
        Ok(_) => None,
        Err(words) => Some(words@),
    }
}

/// Calls `CreateChatCompletionRequestArgs::build` of async-openai on a
/// builder given `model` and one user message whose content is `text`.
/// The builder works on its arguments alone, so whether it declines, and in
/// which words, is fixed by `model` and `text`; nothing is said of the
/// request it builds.
#[verifier::external_body]
fn build_chat_request(model: &str, text: &str) -> (built: Result<
    CreateChatCompletionRequest,
    String,
>)
    ensures
        refusal_in(built) == build_refusal(model@, text@),
{
    let turn = ChatCompletionRequestUserMessage {
        content: ChatCompletionRequestUserMessageContent::Text(text.to_string()),
        name: None,
    };
    match CreateChatCompletionRequestArgs::default()
        .model(model)
        .messages([ChatCompletionRequestMessage::User(turn)])
        .build() {
        Ok(request) => Ok(request),
        Err(error) => Err(format!("{}", error)),
    }
}

/// A request in the form the service's client takes, together with what it asks.
#[derive(Debug, PartialEq)]
pub struct Submission {
    request: CompletionRequest,
    encoded: CreateChatCompletionRequest,
}

impl View for Submission {
    type V = RequestView;

    closed spec fn view(&self) -> RequestView {
        self.request@
    }
}

impl Submission {
    /// The request as the client takes it: the one the builder made for
    /// this submission.
    pub closed spec fn encoded(&self) -> CreateChatCompletionRequest {
        self.encoded
    }

    /// What the submission asks.
    pub fn request(&self) -> (request: &CompletionRequest)
        ensures
            request@ == self@,
    {
        &self.request
    }

    /// Hands out the request as the client takes it, the one the submission
    /// was made with.
    pub fn into_encoded(self) -> (encoded: CreateChatCompletionRequest)
        ensures
            encoded == self.encoded(),
    {
        self.encoded
    }
}

/// A request made ready for the service, or the reason it could not be.
pub open spec fn prepared(request: RequestView, refusal: Option<Seq<char>>) -> Result<
    RequestView,
    ReasonView,
> {
    match refusal {
        None => Ok(request),
        Some(words) => Err(ReasonView::Unbuilt(words)),
    }
}

/// A prepared request as contracts see it.
pub open spec fn prepared_view(ready: Result<Submission, FailureReason>) -> Result<
    RequestView,
    ReasonView,
> {
    match ready {
        Ok(submission) => Ok(submission@),
        Err(reason) => Err(reason@),
    }
}

/// Pairs `request` with what the builder made of it: the built request
/// becomes a submission, the builder's refusal the reason there is none.
pub fn submission_from(
    request: CompletionRequest,
    built: Result<CreateChatCompletionRequest, String>,
) -> (ready: Result<Submission, FailureReason>)
    ensures
        prepared_view(ready) == prepared(request@, refusal_in(built)),
        ready matches Ok(submission) ==> built matches Ok(encoded) && submission.encoded()
            == encoded,
{
    match built {
        Ok(encoded) => Ok(Submission { request, encoded }),
        Err(words) => Err(FailureReason::Unbuilt(words)),
    }
}

/// Puts `request` into the form the service's client takes. Whether the
/// client's builder goes along rests with the builder.
pub fn prepare(request: CompletionRequest) -> (ready: Result<Submission, FailureReason>)
    ensures
        prepared_view(ready) == prepared(request@, build_refusal(request@.model, request@.text)),
{
    let built = build_chat_request(request.model(), request.text());
    submission_from(request, built)
}

} // verus!
