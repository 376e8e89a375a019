use git_ai::cli::{context, Cli, Commands, CommitArgs, PRArgs, DEFAULT_BRANCH};
use git_ai::commands::{
    Action, Event, GitAICommandExecutor, Stage, COMMIT_MESSAGE_TEMPLATE, EDIT_PROMPT,
    NOTHING_TO_COMMIT, PR_TEMPLATE,
};
use git_ai::conversation::{
    ChatRequest, ChatResponse, Choice, ConversationError, FunctionCall, Message, Role,
};
use git_ai::severity::Severity;

fn commit(message: Option<&str>, name_only: bool) -> Commands {
    Commands::Commit(CommitArgs { message: message.map(String::from), name_only })
}

fn pr(message: Option<&str>, branch: &str) -> Commands {
    Commands::PR(PRArgs { message: message.map(String::from), branch: String::from(branch) })
}

fn output(text: &str) -> Event {
    Event::Output(String::from(text))
}

fn line(text: &str) -> Event {
    Event::Line(String::from(text))
}

fn reply(text: &str) -> Event {
    Event::Response(Some(ChatResponse {
        choices: vec![Choice { content: Some(String::from(text)), function_call: None }],
    }))
}

fn call(arguments: &str) -> Event {
    Event::Response(Some(ChatResponse {
        choices: vec![Choice {
            content: None,
            function_call: Some(FunctionCall {
                name: String::from("suggest_code_improvements"),
                arguments: String::from(arguments),
            }),
        }],
    }))
}

fn git(action: Action) -> Vec<String> {
    match action {
        Action::RunGit(arguments) => arguments,
        other => panic!("not a run of git: {:?}", other),
    }
}

fn sent(action: Action) -> ChatRequest {
    match action {
        Action::Send(request) => request,
        other => panic!("not a request: {:?}", other),
    }
}

fn shown(action: Action) -> (String, bool) {
    match action {
        Action::Show { text, ask } => (text, ask),
        other => panic!("not a text: {:?}", other),
    }
}

#[test]
fn the_templates_are_the_known_texts() {
    assert_eq!(COMMIT_MESSAGE_TEMPLATE.len(), 813);
    assert!(COMMIT_MESSAGE_TEMPLATE.starts_with("\nCommit Message Format\nFormat:\n<type>: <subject>\n\n<body>\n\n<footer>\n"));
    assert!(COMMIT_MESSAGE_TEMPLATE.contains("with their username and \npassword."));
    assert!(COMMIT_MESSAGE_TEMPLATE.ends_with("\nRelated issues: #123, #456 or N/A\n"));
    assert_eq!(PR_TEMPLATE.len(), 633);
    assert!(PR_TEMPLATE.starts_with("\nPR Template:\nTitle: [Feature/Bugfix/Refactor]: Brief Description of Change\n\nDescription:\n"));
    assert!(PR_TEMPLATE.contains("Hide this section if no \ndependencies exist.\n"));
    assert!(PR_TEMPLATE.ends_with("dependencies exist.\n"));
    assert_eq!(NOTHING_TO_COMMIT, "Nothing to be committed");
    assert_eq!(EDIT_PROMPT, "Anything you want to edit? ");
    assert_eq!(DEFAULT_BRANCH, "main");
}

#[test]
fn the_diff_command_of_each_kind() {
    assert_eq!(GitAICommandExecutor::diff_command(false, false), vec!["diff"]);
    assert_eq!(GitAICommandExecutor::diff_command(true, false), vec!["diff", "--name-only"]);
    assert_eq!(GitAICommandExecutor::diff_command(false, true), vec!["diff", "--staged"]);
    assert_eq!(GitAICommandExecutor::diff_command(true, true), vec!["diff", "--name-only", "--staged"]);
}

#[test]
fn the_commit_prompt_holds_context_diff_and_style_guide() {
    assert_eq!(
        GitAICommandExecutor::commit_message_prompt("fix login", "diff --git a b\n"),
        format!(
            "Create me a commit message for these changes:\nThe context is: fix login\ndiff --git a b\n{}",
            COMMIT_MESSAGE_TEMPLATE
        )
    );
    assert_eq!(
        GitAICommandExecutor::commit_message_prompt("", "D"),
        format!("Create me a commit message for these changes:\nThe context is: \nD{}", COMMIT_MESSAGE_TEMPLATE)
    );
}

#[test]
fn the_pr_prompt_holds_context_log_diff_and_template() {
    assert_eq!(
        GitAICommandExecutor::pr_description_prompt("ctx", "commit 1\n", "+line\n"),
        format!(
            "Create me a PR for these changes:\nThe context is: ctx\nAll the commit messages are:\ncommit 1\nChanges are:\n+line\n{}",
            PR_TEMPLATE
        )
    );
}

#[test]
fn a_missing_context_is_empty() {
    assert_eq!(context(&None), "");
    assert_eq!(context(&Some(String::from("why"))), "why");
}

#[test]
fn commit_with_nothing_changed_sends_no_request() {
    let (mut session, first) = GitAICommandExecutor::execute_command(&commit(None, false));
    assert_eq!(session.stage(), Stage::Diff);
    assert_eq!(git(first), vec!["diff"]);
    let second = session.step(output(""));
    assert_eq!(session.stage(), Stage::StagedDiff);
    assert_eq!(git(second), vec!["diff", "--staged"]);
    let last = session.step(output(""));
    match last {
        Action::Report(text) => assert_eq!(text, "Nothing to be committed"),
        other => panic!("not a report: {:?}", other),
    }
    assert!(session.is_finished());
    assert_eq!(
        session.conversation().messages(),
        &vec![Message { role: Role::System, content: String::new() }]
    );
}

#[test]
fn commit_takes_white_space_for_no_change() {
    let (mut session, first) = GitAICommandExecutor::execute_command(&commit(Some("ctx"), true));
    assert_eq!(git(first), vec!["diff", "--name-only"]);
    assert_eq!(git(session.step(output("\n  \n"))), vec!["diff", "--name-only", "--staged"]);
    assert!(matches!(session.step(output(" \t\n")), Action::Report(_)));
    assert!(session.is_finished());
}

#[test]
fn commit_sends_the_diff_of_the_working_tree() {
    let (mut session, _) = GitAICommandExecutor::execute_command(&commit(Some("fix login"), false));
    let request = sent(session.step(output("diff --git a b\n")));
    assert_eq!(session.stage(), Stage::Response);
    assert_eq!(request.model, "gpt-4");
    assert_eq!(request.function_call, "auto");
    assert_eq!(request.functions.len(), 1);
    assert_eq!(
        request.messages,
        vec![
            Message { role: Role::System, content: String::new() },
            Message {
                role: Role::User,
                content: GitAICommandExecutor::commit_message_prompt("fix login", "diff --git a b\n"),
            },
        ]
    );
}

#[test]
fn commit_falls_back_on_the_staged_changes() {
    let (mut session, _) = GitAICommandExecutor::execute_command(&commit(None, false));
    assert_eq!(git(session.step(output("\n"))), vec!["diff", "--staged"]);
    let request = sent(session.step(output("staged change\n")));
    assert_eq!(
        request.messages[1].content,
        GitAICommandExecutor::commit_message_prompt("", "staged change\n")
    );
}

#[test]
fn commit_shows_the_reply_wrapped_and_asks_for_an_edit() {
    let (mut session, _) = GitAICommandExecutor::execute_command(&commit(None, false));
    session.step(output("change\n"));
    let text = format!("{} {}", "x".repeat(40), "y".repeat(40));
    let (rendered, ask) = shown(session.step(reply(&text)));
    assert_eq!(rendered, format!("{}\n{}", "x".repeat(40), "y".repeat(40)));
    assert!(ask);
    assert_eq!(session.stage(), Stage::Edit);
    assert_eq!(
        session.conversation().messages().last(),
        Some(&Message { role: Role::Assistant, content: text })
    );
}

#[test]
fn commit_sends_each_edit_as_it_stands() {
    let (mut session, _) = GitAICommandExecutor::execute_command(&commit(None, false));
    let first = sent(session.step(output("change\n")));
    session.step(reply("feat: change"));
    let second = sent(session.step(line("make it shorter\n")));
    assert_eq!(&second.messages[..2], &first.messages[..]);
    assert_eq!(
        &second.messages[2..],
        &[
            Message { role: Role::Assistant, content: String::from("feat: change") },
            Message { role: Role::User, content: String::from("make it shorter\n") },
        ]
    );
    let (_, ask) = shown(session.step(reply("feat: c")));
    assert!(ask);
    let third = sent(session.step(line("")));
    assert_eq!(third.messages.len(), 6);
    assert_eq!(third.messages[5], Message { role: Role::User, content: String::new() });
    assert_eq!(session.stage(), Stage::Response);
}

#[test]
fn commit_ends_on_a_blank_line_where_asked_to() {
    let (mut session, _) = GitAICommandExecutor::execute_command(&commit(None, false));
    session.stop_on_blank_line();
    assert_eq!(session.stage(), Stage::Diff);
    session.step(output("change\n"));
    session.step(reply("feat: change"));
    assert!(matches!(session.step(line("shorter\n")), Action::Send(_)));
    session.step(reply("feat: c"));
    assert!(matches!(session.step(line("\n")), Action::Stop));
    assert!(session.is_finished());
}

#[test]
fn commit_shows_findings_most_severe_first_and_asks_on() {
    let (mut session, _) = GitAICommandExecutor::execute_command(&commit(None, false));
    session.step(output("change\n"));
    let payload = r#"{"improvements":[{"severity":"medium","code":"m","reason":"rm"},{"severity":"high","code":"h","reason":"rh"},{"severity":"low","code":"l","reason":"rl"}]}"#;
    match session.step(call(payload)) {
        Action::ShowFindings { findings, ask } => {
            assert!(ask);
            let order: Vec<Severity> = findings.improvements.iter().map(|i| i.severity).collect();
            assert_eq!(order, vec![Severity::High, Severity::Medium, Severity::Low]);
            assert_eq!(findings.improvements[0].code(), "h");
        }
        other => panic!("not findings: {:?}", other),
    }
    assert_eq!(session.stage(), Stage::Edit);
    assert_eq!(session.conversation().messages().len(), 2);
}

#[test]
fn commit_fails_with_the_turn() {
    let (mut session, _) = GitAICommandExecutor::execute_command(&commit(None, false));
    session.step(output("change\n"));
    assert!(matches!(
        session.step(Event::Response(None)),
        Action::Fail(ConversationError::BackendUnavailable)
    ));
    assert!(session.is_finished());
    assert_eq!(session.conversation().messages().len(), 2);

    let (mut second, _) = GitAICommandExecutor::execute_command(&commit(None, false));
    second.step(output("change\n"));
    assert!(matches!(
        second.step(call("{}")),
        Action::Fail(ConversationError::MalformedStructuredResponse)
    ));
    assert!(second.is_finished());

    let (mut third, _) = GitAICommandExecutor::execute_command(&commit(None, false));
    third.step(output("change\n"));
    assert!(matches!(
        third.step(Event::Response(Some(ChatResponse { choices: vec![] }))),
        Action::Fail(ConversationError::EmptyResponse)
    ));
    assert!(third.is_finished());
}

#[test]
fn pr_is_one_exchange() {
    let (mut session, first) = GitAICommandExecutor::execute_command(&pr(Some("ctx"), "main"));
    assert_eq!(session.stage(), Stage::Log);
    assert_eq!(git(first), vec!["log", "main..HEAD"]);
    assert_eq!(git(session.step(output("commit 1\n"))), vec!["diff", "main"]);
    assert_eq!(session.stage(), Stage::BranchDiff);
    let request = sent(session.step(output("+line\n")));
    assert_eq!(
        request.messages,
        vec![
            Message { role: Role::System, content: String::new() },
            Message {
                role: Role::User,
                content: GitAICommandExecutor::pr_description_prompt("ctx", "commit 1\n", "+line\n"),
            },
        ]
    );
    let (text, ask) = shown(session.step(reply("Title: Feature: line")));
    assert_eq!(text, "Title: Feature: line");
    assert!(!ask);
    assert!(session.is_finished());
}

#[test]
fn pr_sends_even_empty_log_and_diff() {
    let (mut session, first) = GitAICommandExecutor::execute_command(&pr(None, "release/1.0"));
    assert_eq!(git(first), vec!["log", "release/1.0..HEAD"]);
    assert_eq!(git(session.step(output(""))), vec!["diff", "release/1.0"]);
    let request = sent(session.step(output("")));
    assert_eq!(
        request.messages[1].content,
        GitAICommandExecutor::pr_description_prompt("", "", "")
    );
}

#[test]
fn init_stores_the_key_that_was_entered() {
    let (mut session, first) = GitAICommandExecutor::execute_command(&Commands::Init);
    assert!(matches!(first, Action::AskKey));
    assert_eq!(session.stage(), Stage::Key);
    match session.step(line(" sk-abc \n")) {
        Action::Store(conf) => {
            assert_eq!(conf.get_from(None::<String>, "OPENAI_API_KEY"), Some("sk-abc"))
        }
        other => panic!("not a configuration: {:?}", other),
    }
    assert!(session.is_finished());
}

#[test]
fn execute_init_gives_the_configuration_to_write() {
    let conf = GitAICommandExecutor::execute_init("key-1\n");
    assert_eq!(conf.get_from(None::<String>, "OPENAI_API_KEY"), Some("key-1"));
}

#[test]
fn an_event_that_is_not_waited_for_ends_the_session() {
    let (mut session, _) = GitAICommandExecutor::execute_command(&commit(None, false));
    assert!(matches!(session.step(line("hello")), Action::Stop));
    assert!(session.is_finished());
    assert!(matches!(session.step(output("change")), Action::Stop));
    assert!(matches!(session.step(reply("text")), Action::Stop));
    assert!(session.is_finished());
    assert_eq!(session.conversation().messages().len(), 1);
}

#[test]
fn a_command_line_holds_one_command_or_none() {
    let none = Cli { command: None };
    assert_eq!(none.command, None);
    let some = Cli { command: Some(pr(None, DEFAULT_BRANCH)) };
    assert_eq!(
        some.command,
        Some(Commands::PR(PRArgs { message: None, branch: String::from("main") }))
    );
}
