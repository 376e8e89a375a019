use git_ai::conversation::{
    Capability, ChatConversation, ChatRequest, ChatResponse, Choice, ConversationError,
    FunctionCall, Message, Outcome, Role, CAPABILITY_DESCRIPTION, CAPABILITY_MODE,
    CAPABILITY_NAME, CAPABILITY_PARAMETERS, MODEL,
};
use git_ai::improvements::{Improvement, Improvements};
use git_ai::severity::Severity;

fn message(role: Role, content: &str) -> Message {
    Message { role, content: String::from(content) }
}

fn reply(text: &str) -> Option<ChatResponse> {
    Some(ChatResponse {
        choices: vec![Choice { content: Some(String::from(text)), function_call: None }],
    })
}

fn call(name: &str, arguments: &str) -> Option<ChatResponse> {
    Some(ChatResponse {
        choices: vec![Choice {
            content: None,
            function_call: Some(FunctionCall {
                name: String::from(name),
                arguments: String::from(arguments),
            }),
        }],
    })
}

fn finding(code: &str, reason: &str, severity: Severity) -> Improvement {
    Improvement::new(String::from(code), String::from(reason), severity)
}

const THREE: &str = r#"{"improvements":[{"severity":"medium","code":"m()","reason":"so-so"},{"severity":"high","code":"h()","reason":"bad"},{"severity":"low","code":"l()","reason":"nit"}]}"#;

#[test]
fn a_new_conversation_holds_an_empty_system_message() {
    let conversation = ChatConversation::new();
    assert_eq!(conversation.messages(), &vec![message(Role::System, "")]);
}

#[test]
fn generate_message_adds_the_prompt_and_gives_the_request() {
    let mut conversation = ChatConversation::new();
    let request = conversation.generate_message("describe this diff");
    let history = vec![message(Role::System, ""), message(Role::User, "describe this diff")];
    assert_eq!(conversation.messages(), &history);
    assert_eq!(
        request,
        ChatRequest {
            model: String::from("gpt-4"),
            messages: history,
            functions: vec![Capability {
                name: String::from("suggest_code_improvements"),
                description: String::from("Get a list of improvements for the code changes"),
                parameters: String::from(CAPABILITY_PARAMETERS),
            }],
            function_call: String::from("auto"),
        }
    );
}

#[test]
fn the_constants_of_a_request() {
    assert_eq!(MODEL, "gpt-4");
    assert_eq!(CAPABILITY_NAME, "suggest_code_improvements");
    assert_eq!(CAPABILITY_DESCRIPTION, "Get a list of improvements for the code changes");
    assert_eq!(CAPABILITY_MODE, "auto");
    assert_eq!(Capability::suggestions().name, CAPABILITY_NAME);
    assert_eq!(Capability::suggestions().description, CAPABILITY_DESCRIPTION);
    assert_eq!(Capability::suggestions().parameters, CAPABILITY_PARAMETERS);
}

#[test]
fn the_capability_parameters_are_a_json_schema() {
    let schema: serde_json::Value = serde_json::from_str(CAPABILITY_PARAMETERS).unwrap();
    assert_eq!(schema["type"], "object");
    assert_eq!(schema["required"][0], "improvements");
    let list = &schema["properties"]["improvements"];
    assert_eq!(list["type"], "array");
    assert_eq!(list["description"], "A list of code improvements");
    let item = &list["items"];
    assert_eq!(item["type"], "object");
    assert_eq!(item["properties"]["severity"]["type"], "string");
    assert_eq!(item["properties"]["severity"]["enum"][0], "high");
    assert_eq!(item["properties"]["severity"]["enum"][1], "low");
    assert_eq!(item["properties"]["severity"]["enum"][2], "medium");
    assert_eq!(item["properties"]["code"]["type"], "string");
    assert_eq!(item["properties"]["code"]["description"], "the piece of code to be fixed");
    assert_eq!(item["properties"]["reason"]["type"], "string");
    assert_eq!(item["properties"]["reason"]["description"], "reason for such suggestion");
}

#[test]
fn a_reply_in_free_text_is_returned_and_remembered() {
    let mut conversation = ChatConversation::new();
    conversation.generate_message("hello");
    let outcome = conversation.accept_response(reply("feat: say hello"));
    assert_eq!(outcome, Ok(Outcome::Reply(String::from("feat: say hello"))));
    assert_eq!(
        conversation.messages(),
        &vec![
            message(Role::System, ""),
            message(Role::User, "hello"),
            message(Role::Assistant, "feat: say hello"),
        ]
    );
}

#[test]
fn an_empty_text_is_still_a_reply() {
    let mut conversation = ChatConversation::new();
    conversation.generate_message("hello");
    assert_eq!(conversation.accept_response(reply("")), Ok(Outcome::Reply(String::new())));
    assert_eq!(conversation.messages().len(), 3);
}

#[test]
fn a_structured_call_gives_the_findings_most_severe_first() {
    let mut conversation = ChatConversation::new();
    conversation.generate_message("look over this diff");
    let outcome = conversation.accept_response(call("suggest_code_improvements", THREE));
    assert_eq!(
        outcome,
        Ok(Outcome::Suggestions(Improvements {
            improvements: vec![
                finding("h()", "bad", Severity::High),
                finding("m()", "so-so", Severity::Medium),
                finding("l()", "nit", Severity::Low),
            ],
        }))
    );
}

#[test]
fn the_rendered_findings_list_the_high_item_first() {
    let mut conversation = ChatConversation::new();
    let request = conversation.generate_message("look over this diff");
    assert_eq!(request.functions.len(), 1);
    assert_eq!(request.functions[0].name, "suggest_code_improvements");
    let outcome = conversation.accept_response(call("suggest_code_improvements", THREE));
    let shown = match outcome {
        Ok(Outcome::Suggestions(findings)) => findings.display(),
        other => panic!("no findings: {:?}", other),
    };
    let high = shown.find("bad").unwrap();
    let medium = shown.find("so-so").unwrap();
    let low = shown.find("nit").unwrap();
    assert!(high < medium);
    assert!(medium < low);
    assert!(shown.starts_with("Severity: "));
    assert!(shown[..high].contains("High"));
    assert!(shown[..high].contains("h()"));
    assert!(!shown[..high].contains("Medium"));
    assert!(!shown[..high].contains("Low"));
}

#[test]
fn a_structured_call_is_not_remembered() {
    let mut conversation = ChatConversation::new();
    conversation.generate_message("look over this diff");
    let before = conversation.messages().clone();
    assert!(conversation.accept_response(call("suggest_code_improvements", THREE)).is_ok());
    assert_eq!(conversation.messages(), &before);
}

#[test]
fn a_call_with_arguments_of_another_shape_is_malformed() {
    let payloads = [
        "",
        "not json",
        "[]",
        r#"{"improvements":[{"severity":"high","code":"c"}]}"#,
        r#"{"improvements":[{"severity":"fatal","code":"c","reason":"r"}]}"#,
    ];
    for payload in payloads {
        let mut conversation = ChatConversation::new();
        conversation.generate_message("look");
        assert_eq!(
            conversation.accept_response(call("suggest_code_improvements", payload)),
            Err(ConversationError::MalformedStructuredResponse)
        );
        assert_eq!(
            conversation.messages(),
            &vec![message(Role::System, ""), message(Role::User, "look")]
        );
    }
}

#[test]
fn a_response_with_neither_text_nor_call_is_empty() {
    let mut conversation = ChatConversation::new();
    conversation.generate_message("hello");
    let neither = Some(ChatResponse { choices: vec![Choice { content: None, function_call: None }] });
    assert_eq!(conversation.accept_response(neither), Err(ConversationError::EmptyResponse));
    assert_eq!(
        conversation.accept_response(Some(ChatResponse { choices: vec![] })),
        Err(ConversationError::EmptyResponse)
    );
    assert_eq!(conversation.messages().len(), 2);
}

#[test]
fn a_call_of_another_capability_is_empty() {
    let mut conversation = ChatConversation::new();
    conversation.generate_message("hello");
    assert_eq!(
        conversation.accept_response(call("delete_everything", THREE)),
        Err(ConversationError::EmptyResponse)
    );
    assert_eq!(
        conversation.accept_response(call("Suggest_Code_Improvements", THREE)),
        Err(ConversationError::EmptyResponse)
    );
    assert_eq!(conversation.messages().len(), 2);
}

#[test]
fn a_failed_request_leaves_the_prompt_in_the_history() {
    let mut conversation = ChatConversation::new();
    conversation.generate_message("hello");
    assert_eq!(conversation.accept_response(None), Err(ConversationError::BackendUnavailable));
    assert_eq!(
        conversation.messages(),
        &vec![message(Role::System, ""), message(Role::User, "hello")]
    );
}

#[test]
fn the_text_counts_where_a_choice_has_both() {
    let mut conversation = ChatConversation::new();
    conversation.generate_message("hello");
    let both = Some(ChatResponse {
        choices: vec![Choice {
            content: Some(String::from("text")),
            function_call: Some(FunctionCall {
                name: String::from("suggest_code_improvements"),
                arguments: String::from(THREE),
            }),
        }],
    });
    assert_eq!(conversation.accept_response(both), Ok(Outcome::Reply(String::from("text"))));
}

#[test]
fn only_the_first_choice_counts() {
    let mut conversation = ChatConversation::new();
    conversation.generate_message("hello");
    let two = Some(ChatResponse {
        choices: vec![
            Choice { content: Some(String::from("one")), function_call: None },
            Choice { content: Some(String::from("two")), function_call: None },
        ],
    });
    assert_eq!(conversation.accept_response(two), Ok(Outcome::Reply(String::from("one"))));
    assert_eq!(conversation.messages().last(), Some(&message(Role::Assistant, "one")));
}

#[test]
fn the_second_request_extends_the_first() {
    let mut conversation = ChatConversation::new();
    let first = conversation.generate_message("first prompt");
    conversation.accept_response(reply("first reply")).unwrap();
    let second = conversation.generate_message("second prompt");
    assert!(second.messages.len() > first.messages.len());
    assert_eq!(&second.messages[..first.messages.len()], &first.messages[..]);
    assert_eq!(
        &second.messages[first.messages.len()..],
        &[message(Role::Assistant, "first reply"), message(Role::User, "second prompt")]
    );
    assert_eq!(second.messages[0], message(Role::System, ""));
}

#[test]
fn the_second_request_after_a_structured_call_lacks_that_turn() {
    let mut conversation = ChatConversation::new();
    let first = conversation.generate_message("first prompt");
    conversation.accept_response(call("suggest_code_improvements", THREE)).unwrap();
    let second = conversation.generate_message("second prompt");
    assert_eq!(&second.messages[..first.messages.len()], &first.messages[..]);
    assert_eq!(&second.messages[first.messages.len()..], &[message(Role::User, "second prompt")]);
}

#[test]
fn the_second_request_after_a_failure_keeps_the_orphaned_prompt() {
    let mut conversation = ChatConversation::new();
    conversation.generate_message("first prompt");
    assert!(conversation.accept_response(None).is_err());
    let second = conversation.generate_message("second prompt");
    assert_eq!(
        second.messages,
        vec![
            message(Role::System, ""),
            message(Role::User, "first prompt"),
            message(Role::User, "second prompt"),
        ]
    );
}

#[test]
fn a_message_is_copied_as_it_is() {
    let first = Message::new(Role::Assistant, "text");
    assert_eq!(first, message(Role::Assistant, "text"));
    assert_eq!(first.duplicate(), first);
}
