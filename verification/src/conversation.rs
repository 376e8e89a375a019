//! The conversation engine: the history of one exchange with the chat backend,
//! the request of each turn, and what a response to it means.
//!
//! A turn has two halves. `generate_message` takes the prompt and gives the
//! request to send; `accept_response` takes what came back and gives the
//! outcome. Sending the request is the caller's part.

use vstd::prelude::*;
use vstd::string::StringExecFns;
use crate::improvements::{findings_of_payload, most_severe_first, most_severe_first_is_ranked,
    ImprovementView, Improvements};
use crate::text::same_text;

verus! {

/// The model that every request names.
pub const MODEL: &'static str = "gpt-4";

/// The name of the one capability that a request advertises.
pub const CAPABILITY_NAME: &'static str = "suggest_code_improvements";

/// What the backend is told about the capability.
pub const CAPABILITY_DESCRIPTION: &'static str = "Get a list of improvements for the code changes";

/// The JSON schema of the capability's arguments.
pub const CAPABILITY_PARAMETERS: &'static str =
    "{\"type\":\"object\",\"properties\":{\"improvements\":{\"type\":\"array\",\"items\":{\"type\":\"object\",\"properties\":{\"severity\":{\"type\":\"string\",\"enum\":[\"high\",\"low\",\"medium\"]},\"code\":{\"type\":\"string\",\"description\":\"the piece of code to be fixed\"},\"reason\":{\"type\":\"string\",\"description\":\"reason for such suggestion\"}}},\"description\":\"A list of code improvements\"}},\"required\":[\"improvements\"]}";

/// How the backend may use the capability: it decides itself whether to call it.
pub const CAPABILITY_MODE: &'static str = "auto";

/// Who speaks in a message.
#[derive(Debug, Clone, Copy, PartialEq, Eq, Structural)]
pub enum Role {
    System,
    User,
    Assistant,
}

/// One message of a conversation.
#[derive(Debug, Clone, PartialEq, Eq)]
pub struct Message {
    pub role: Role,
    pub content: String,
}

/// A message as plain values.
pub struct MessageView {
    pub role: Role,
    pub content: Seq<char>,
}

impl View for Message {
    type V = MessageView;

    open spec fn view(&self) -> MessageView {
        MessageView { role: self.role, content: self.content@ }
    }
}

/// The views of a list of messages.
pub open spec fn messages_view(messages: Seq<Message>) -> Seq<MessageView> {
    messages.map_values(|m: Message| m@)
}

/// A capability that the backend may call in place of a reply in free text.
#[derive(Debug, Clone, PartialEq, Eq)]
pub struct Capability {
    pub name: String,
    pub description: String,
    pub parameters: String,
}

/// A capability as plain values.
pub struct CapabilityView {
    pub name: Seq<char>,
    pub description: Seq<char>,
    pub parameters: Seq<char>,
}

impl View for Capability {
    type V = CapabilityView;

    open spec fn view(&self) -> CapabilityView {
        CapabilityView {
            name: self.name@,
            description: self.description@,
            parameters: self.parameters@,
        }
    }
}

/// The capability that every request advertises.
pub open spec fn suggestion_capability() -> CapabilityView {
    CapabilityView {
        name: CAPABILITY_NAME@,
        description: CAPABILITY_DESCRIPTION@,
        parameters: CAPABILITY_PARAMETERS@,
    }
}

/// What is sent to the backend in one turn.
#[derive(Debug, Clone, PartialEq, Eq)]
pub struct ChatRequest {
    pub model: String,
    pub messages: Vec<Message>,
    pub functions: Vec<Capability>,
    pub function_call: String,
}

/// A request as plain values.
pub struct ChatRequestView {
    pub model: Seq<char>,
    pub messages: Seq<MessageView>,
    pub functions: Seq<CapabilityView>,
    pub function_call: Seq<char>,
}

impl View for ChatRequest {
    type V = ChatRequestView;

    open spec fn view(&self) -> ChatRequestView {
        ChatRequestView {
            model: self.model@,
            messages: messages_view(self.messages@),
            functions: self.functions@.map_values(|c: Capability| c@),
            function_call: self.function_call@,
        }
    }
}

/// The request that carries the history `messages`.
pub open spec fn request_for(messages: Seq<MessageView>) -> ChatRequestView {
    ChatRequestView {
        model: MODEL@,
        messages,
        functions: seq![suggestion_capability()],
        function_call: CAPABILITY_MODE@,
    }
}

/// A call of a capability, as the backend states it.
#[derive(Debug, Clone, PartialEq, Eq)]
pub struct FunctionCall {
    pub name: String,
    pub arguments: String,
}

/// One choice of a response: a text, a call, both or neither.
#[derive(Debug, Clone, PartialEq, Eq)]
pub struct Choice {
    pub content: Option<String>,
    pub function_call: Option<FunctionCall>,
}

/// What the backend answered to one request.
#[derive(Debug, Clone, PartialEq, Eq)]
pub struct ChatResponse {
    pub choices: Vec<Choice>,
}

/// A choice as plain values; a call is its name and its arguments.
pub struct ChoiceView {
    pub content: Option<Seq<char>>,
    pub function_call: Option<(Seq<char>, Seq<char>)>,
}

impl View for Choice {
    type V = ChoiceView;

    open spec fn view(&self) -> ChoiceView {
        ChoiceView {
            content: match self.content {
                Some(text) => Some(text@),
                None => None,
            },
            function_call: match self.function_call {
                Some(call) => Some((call.name@, call.arguments@)),
                None => None,
            },
        }
    }
}

impl View for ChatResponse {
    type V = Seq<ChoiceView>;

    open spec fn view(&self) -> Seq<ChoiceView> {
        self.choices@.map_values(|c: Choice| c@)
    }
}

/// What one turn gave: a reply in free text, or findings, most severe first.
#[derive(Debug, Clone, PartialEq, Eq)]
pub enum Outcome {
    Reply(String),
    Suggestions(Improvements),
}

/// An outcome as plain values.
pub enum OutcomeView {
    Reply(Seq<char>),
    Suggestions(Seq<ImprovementView>),
}

impl View for Outcome {
    type V = OutcomeView;

    open spec fn view(&self) -> OutcomeView {
        match self {
            Outcome::Reply(text) => OutcomeView::Reply(text@),
            Outcome::Suggestions(set) => OutcomeView::Suggestions(set@),
        }
    }
}

/// Why a turn gave no outcome.
#[derive(Debug, Clone, Copy, PartialEq, Eq, Structural)]
pub enum ConversationError {
    /// The request failed: the backend gave no response.
    BackendUnavailable,
    /// The response holds neither a text nor a call of the capability.
    EmptyResponse,
    /// The response calls the capability with arguments that hold no findings.
    MalformedStructuredResponse,
}

/// What a response means. The first choice counts. Its text, where it has one,
/// is the reply. Without a text, a call of the capability gives the findings in
/// its arguments, most severe first.
pub open spec fn outcome_of(delivery: Option<Seq<ChoiceView>>) -> Result<
    OutcomeView,
    ConversationError,
> {
    match delivery {
        None => Err(ConversationError::BackendUnavailable),
        Some(choices) => if choices.len() == 0 {
            Err(ConversationError::EmptyResponse)
        } else {
            match (choices[0].content, choices[0].function_call) {
                (Some(text), _) => Ok(OutcomeView::Reply(text)),
                (None, Some(call)) => if call.0 == CAPABILITY_NAME@ {
                    match findings_of_payload(call.1) {
                        Some(found) => Ok(OutcomeView::Suggestions(most_severe_first(found))),
                        None => Err(ConversationError::MalformedStructuredResponse),
                    }
                } else {
                    Err(ConversationError::EmptyResponse)
                },
                (None, None) => Err(ConversationError::EmptyResponse),
            }
        },
    }
}

/// The history after a prompt: the prompt is added as a message of the user.
pub open spec fn history_after_prompt(history: Seq<MessageView>, prompt: Seq<char>) -> Seq<
    MessageView,
> {
    history.push(MessageView { role: Role::User, content: prompt })
}

/// The history after a response: a reply in free text is added as a message of
/// the assistant; anything else leaves the history as it is.
pub open spec fn history_after_response(
    history: Seq<MessageView>,
    delivery: Option<Seq<ChoiceView>>,
) -> Seq<MessageView> {
    match outcome_of(delivery) {
        Ok(OutcomeView::Reply(text)) => history.push(
            MessageView { role: Role::Assistant, content: text },
        ),
        _ => history,
    }
}

/// The view of a delivery.
pub open spec fn delivery_view(delivery: Option<ChatResponse>) -> Option<Seq<ChoiceView>> {
    match delivery {
        Some(response) => Some(response@),
        None => None,
    }
}

/// The findings of a structured call come most severe first: none of them
/// stands before a more severe one.
pub proof fn suggestions_come_most_severe_first(delivery: Option<Seq<ChoiceView>>, i: int, j: int)
    requires
        outcome_of(delivery) matches Ok(OutcomeView::Suggestions(found)) && 0 <= i <= j
            < found.len(),
    ensures
        outcome_of(delivery) matches Ok(OutcomeView::Suggestions(found))
            && found[i].severity.spec_rank() >= found[j].severity.spec_rank(),
{
    let call = delivery.unwrap()[0].function_call.unwrap();
    most_severe_first_is_ranked(findings_of_payload(call.1).unwrap());
}

/// Each turn only adds to the history: the request of a second turn holds the
/// messages of the first request in their order, then the reply to the first
/// turn where it was free text, then the new prompt, and nothing else.
pub proof fn second_request_extends_first(
    history: Seq<MessageView>,
    first_prompt: Seq<char>,
    delivery: Option<Seq<ChoiceView>>,
    second_prompt: Seq<char>,
)
    ensures
        ({
            let first = request_for(history_after_prompt(history, first_prompt)).messages;
            let between = history_after_response(first, delivery);
            let second = request_for(history_after_prompt(between, second_prompt)).messages;
            let asked = MessageView { role: Role::User, content: second_prompt };
            &&& first.len() < second.len()
            &&& second.take(first.len() as int) == first
            &&& second == match outcome_of(delivery) {
                Ok(OutcomeView::Reply(text)) => first.push(
                    MessageView { role: Role::Assistant, content: text },
                ).push(asked),
                _ => first.push(asked),
            }
        }),
{
    let first = request_for(history_after_prompt(history, first_prompt)).messages;
    let between = history_after_response(first, delivery);
    let second = request_for(history_after_prompt(between, second_prompt)).messages;
    assert(second.take(first.len() as int) =~= first);
}

/// A turn never touches what the history held before it: the old history is
/// the start of the new one, so a message of the system stays first.
pub proof fn turn_keeps_earlier_messages(
    history: Seq<MessageView>,
    prompt: Seq<char>,
    delivery: Option<Seq<ChoiceView>>,
)
    ensures
        ({
            let asked = history_after_prompt(history, prompt);
            let closed = history_after_response(asked, delivery);
            &&& asked.take(history.len() as int) == history
            &&& closed.take(asked.len() as int) == asked
            &&& asked.len() == history.len() + 1
            &&& asked.len() <= closed.len() <= asked.len() + 1
            &&& history.len() > 0 ==> asked[0] == history[0] && closed[0] == history[0]
        }),
{
    let asked = history_after_prompt(history, prompt);
    let closed = history_after_response(asked, delivery);
    assert(asked.take(history.len() as int) =~= history);
    assert(closed.take(asked.len() as int) =~= asked);
}

impl Message {
    /// A message with the given role and content.
    pub fn new(role: Role, content: &str) -> (message: Message)
        ensures
            message@ == (MessageView { role, content: content@ }),
    {
        Message { role, content: String::from_str(content) }
    }

    /// A copy of the message.
    pub fn duplicate(&self) -> (copy: Message)
        ensures
            copy@ == self@,
    {
        Message { role: self.role, content: self.content.clone() }
    }
}

impl Capability {
    /// The capability that every request advertises: a call that hands over a
    /// list of findings.
    pub fn suggestions() -> (capability: Capability)
        ensures
            capability@ == suggestion_capability(),
    {
        Capability {
            name: String::from_str(CAPABILITY_NAME),
            description: String::from_str(CAPABILITY_DESCRIPTION),
            parameters: String::from_str(CAPABILITY_PARAMETERS),
        }
    }
}

/// One conversation with the backend: the messages sent and received so far.
#[derive(Debug)]
pub struct ChatConversation {
    messages: Vec<Message>,
}

/// The message that opens every conversation: an empty message of the system.
pub open spec fn opening_message() -> MessageView {
    MessageView { role: Role::System, content: Seq::empty() }
}

impl ChatConversation {
    /// The messages sent and received so far, oldest first.
    pub closed spec fn history(&self) -> Seq<MessageView> {
        messages_view(self.messages@)
    }


    /// A conversation that holds one message: an empty message of the system.
    pub fn new() -> (conversation: ChatConversation)
        ensures
            conversation.history() == seq![opening_message()],
    {
        let mut messages: Vec<Message> = Vec::new();
        let opening = Message { role: Role::System, content: String::new() };
        messages.push(opening);
        let conversation = ChatConversation { messages };
        assert(conversation.history() =~= seq![opening_message()]);
        conversation
    }

    /// The messages sent and received so far, oldest first.
    pub fn messages(&self) -> (messages: &Vec<Message>)
        ensures
            messages_view(messages@) == self.history(),
    {
        &self.messages
    }

    /// A copy of the history.
    fn snapshot(&self) -> (copy: Vec<Message>)
        ensures
            messages_view(copy@) == self.history(),
    {
        let mut copy: Vec<Message> = Vec::new();
        let mut i: usize = 0;
        while i < self.messages.len()
            invariant
                0 <= i <= self.messages.len(),
                copy@.len() == i,
                forall|j: int| 0 <= j < i ==> (#[trigger] copy@[j])@ == self.messages@[j]@,
            decreases self.messages.len() - i,
        {
            copy.push(self.messages[i].duplicate());
            i += 1;
        }
        assert(messages_view(copy@) =~= self.history());
        copy
    }

    /// Opens a turn: adds the prompt to the history as a message of the user and
    /// gives the request to send. The request carries the whole history, names
    /// the model, and advertises the one capability, which the backend may call
    /// in place of a reply in free text.
    pub fn generate_message(&mut self, content: &str) -> (request: ChatRequest)
        ensures
            final(self).history() == history_after_prompt(old(self).history(), content@),
            request@ == request_for(final(self).history()),
    {
        let ghost before = self.history();
        self.messages.push(Message::new(Role::User, content));
        assert(self.history() =~= history_after_prompt(before, content@));
        let mut functions: Vec<Capability> = Vec::new();
        functions.push(Capability::suggestions());
        let request = ChatRequest {
            model: String::from_str(MODEL),
            messages: self.snapshot(),
            functions,
            function_call: String::from_str(CAPABILITY_MODE),
        };
        assert(request@.functions =~= seq![suggestion_capability()]);
        request
    }

    /// Closes a turn: says what the backend's answer means, and adds a reply in
    /// free text to the history as a message of the assistant. A call of the
    /// capability, a failed request and a response that holds neither leave the
    /// history as it is.
    pub fn accept_response(&mut self, delivery: Option<ChatResponse>) -> (r: Result<
        Outcome,
        ConversationError,
    >)
        ensures
            r is Ok <==> outcome_of(delivery_view(delivery)) is Ok,
            r matches Ok(outcome) ==> outcome@ == outcome_of(delivery_view(delivery)).unwrap(),
            r matches Err(error) ==> Err::<OutcomeView, ConversationError>(error) == outcome_of(
                delivery_view(delivery),
            ),
            final(self).history() == history_after_response(
                old(self).history(),
                delivery_view(delivery),
            ),
    {
        let ghost before = self.history();
        let response = match delivery {
            Some(response) => response,
            None => {
                return Err(ConversationError::BackendUnavailable);
            },
        };
        if response.choices.len() == 0 {
            return Err(ConversationError::EmptyResponse);
        }
        let first = &response.choices[0];
        assert(response@[0] == first@);
        match &first.content {
            Some(text) => {
                self.messages.push(Message::new(Role::Assistant, text.as_str()));
                assert(self.history() =~= before.push(
                    MessageView { role: Role::Assistant, content: text@ },
                ));
                Ok(Outcome::Reply(text.clone()))
            },
            None => match &first.function_call {
                Some(call) => {
                    if same_text(call.name.as_str(), CAPABILITY_NAME) {
                        match Improvements::parse(call.arguments.as_str()) {
                            Ok(mut found) => {
                                found.sort_descending();
                                Ok(Outcome::Suggestions(found))
                            },
                            Err(_) => Err(ConversationError::MalformedStructuredResponse),
                        }
                    } else {
                        Err(ConversationError::EmptyResponse)
                    }
                },
                None => Err(ConversationError::EmptyResponse),
            },
        }
    }
}

} // verus!
