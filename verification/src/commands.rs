//! The command flows: what each command does, step by step.
//!
//! A command alternates work on the outside (running git, asking the backend,
//! asking the user) with decisions. The decisions are made here: a session
//! says which action comes next, the caller performs it and reports what
//! happened as an event.

use vstd::prelude::*;
use vstd::string::StringExecFns;
use ini::Ini;
use crate::cli::{context, context_of, Commands};
use crate::config::{general_values, nothing_stored, ConfigManager, KEY_NAME};
use crate::conversation::{delivery_view, history_after_prompt, history_after_response,
    opening_message, outcome_of, request_for, ChatConversation, ChatRequest, ChatRequestView, ChatResponse,
    ChoiceView, ConversationError, MessageView, Outcome, OutcomeView, Role};
use crate::improvements::{ImprovementView, Improvements};
use crate::text::{blank, fill, filled, is_blank, trimmed};

verus! {

/// The style guide that ends the first prompt of `commit`.
pub const COMMIT_MESSAGE_TEMPLATE: &'static str =
    "\n\
    Commit Message Format\n\
    Format:\n\
    <type>: <subject>\n\
    \n\
    <body>\n\
    \n\
    <footer>\n\
    Type: This refers to the kind of change that you've made. Options include:\n\
    - feat: A new feature\n\
    - fix: A bug fix\n\
    - docs: Documentation only changes\n\
    - style: Changes that do not affect the meaning of the code (white-space, formatting, missing semi-colons, etc.)\n\
    - refactor: A code change that neither fixes a bug nor adds a feature\n\
    - perf: A code change that improves performance\n\
    - test: Adding missing or correcting existing tests\n\
    - chore: Changes to the build process or auxiliary tools and libraries such as documentation generation\n\
    Example:\n\
    feat: add login functionality\n\
    \n\
    The new login functionality allows users to log in with their username and \n\
    password. It includes input validation and error handling.\n\
    \n\
    Related issues: #123, #456 or N/A\n";

/// The template that ends the prompt of `pr`.
pub const PR_TEMPLATE: &'static str =
    "\n\
    PR Template:\n\
    Title: [Feature/Bugfix/Refactor]: Brief Description of Change\n\
    \n\
    Description:\n\
    Please provide a detailed summary of the changes introduced in this PR. Include the context and motivation for the change.\n\
    \n\
    Related Issue(s):\n\
    Please link to any related issues or tasks in your tracking system (e.g., JIRA ticket or GitHub issue).\n\
    \n\
    Changes:\n\
    - Change 1\n\
    - Change 2\n\
    - Change 3\n\
    \n\
    How to Test:\n\
    Provide instructions for how to test the changes, including any necessary setup and the expected outcome.\n\
    \n\
    Dependencies: List any dependencies that must be resolved before/after merging this PR. Hide this section if no \n\
    dependencies exist.\n";

/// What `commit` reports when there is no change to describe.
pub const NOTHING_TO_COMMIT: &'static str = "Nothing to be committed";

/// What the user is asked after each outcome of `commit`.
pub const EDIT_PROMPT: &'static str = "Anything you want to edit? ";

/// What a session waits for.
#[derive(Debug, Clone, Copy, PartialEq, Eq, Structural)]
pub enum Stage {
    /// The diff of the working tree.
    Diff,
    /// The diff of the staged changes.
    StagedDiff,
    /// The log of the commits that the target branch lacks.
    Log,
    /// The diff against the target branch.
    BranchDiff,
    /// The backend's answer.
    Response,
    /// The user's edit.
    Edit,
    /// The API key that the user enters.
    Key,
    /// Nothing: the command is over.
    Finished,
}

/// What happened on the outside.
#[derive(Debug, Clone, PartialEq, Eq)]
pub enum Event {
    /// Git ran and printed this.
    Output(String),
    /// The backend answered, or the request failed (`None`).
    Response(Option<ChatResponse>),
    /// The user entered this line.
    Line(String),
}

/// An event as plain values.
pub enum EventView {
    Output(Seq<char>),
    Response(Option<Seq<ChoiceView>>),
    Line(Seq<char>),
}

impl View for Event {
    type V = EventView;

    open spec fn view(&self) -> EventView {
        match self {
            Event::Output(text) => EventView::Output(text@),
            Event::Response(delivery) => EventView::Response(delivery_view(*delivery)),
            Event::Line(text) => EventView::Line(text@),
        }
    }
}

/// What the caller does next.
#[derive(Debug)]
pub enum Action {
    /// Run git with these arguments and report what it prints.
    RunGit(Vec<String>),
    /// Send the request to the backend and report the answer.
    Send(ChatRequest),
    /// Print the text. With `ask`, then ask the user for an edit and report the line.
    Show { text: String, ask: bool },
    /// Print the findings. With `ask`, then ask the user for an edit and report the line.
    ShowFindings { findings: Improvements, ask: bool },
    /// Print the text; the command is over.
    Report(String),
    /// Ask the user for the API key and report the line.
    AskKey,
    /// Write the configuration to the configuration file; the command is over.
    Store(Ini),
    /// The command failed.
    Fail(ConversationError),
    /// The command is over.
    Stop,
}

/// An action as plain values; a configuration is what its general section holds.
pub enum ActionView {
    RunGit(Seq<Seq<char>>),
    Send(ChatRequestView),
    Show { text: Seq<char>, ask: bool },
    ShowFindings { findings: Seq<ImprovementView>, ask: bool },
    Report(Seq<char>),
    AskKey,
    Store(Map<Seq<char>, Seq<char>>),
    Fail(ConversationError),
    Stop,
}

/// The views of a list of texts.
pub open spec fn arguments_view(arguments: Seq<String>) -> Seq<Seq<char>> {
    arguments.map_values(|a: String| a@)
}

impl View for Action {
    type V = ActionView;

    open spec fn view(&self) -> ActionView {
        match self {
            Action::RunGit(arguments) => ActionView::RunGit(arguments_view(arguments@)),
            Action::Send(request) => ActionView::Send(request@),
            Action::Show { text, ask } => ActionView::Show { text: text@, ask: *ask },
            Action::ShowFindings { findings, ask } => ActionView::ShowFindings {
                findings: findings@,
                ask: *ask,
            },
            Action::Report(text) => ActionView::Report(text@),
            Action::AskKey => ActionView::AskKey,
            Action::Store(conf) => ActionView::Store(general_values(*conf)),
            Action::Fail(error) => ActionView::Fail(*error),
            Action::Stop => ActionView::Stop,
        }
    }
}

/// One run of a command: where it stands, what it was given, and its conversation.
#[derive(Debug)]
pub struct Session {
    stage: Stage,
    repeats: bool,
    name_only: bool,
    stops_on_blank: bool,
    context: String,
    branch: String,
    log: String,
    conversation: ChatConversation,
}

/// A session as plain values.
pub struct SessionView {
    /// What the session waits for.
    pub stage: Stage,
    /// Whether the user is asked for an edit after each outcome.
    pub repeats: bool,
    /// Whether the diffs list the changed files only.
    pub name_only: bool,
    /// Whether a blank line of the user ends the command.
    pub stops_on_blank: bool,
    /// The context that the command was given.
    pub context: Seq<char>,
    /// The target branch of a pull request.
    pub branch: Seq<char>,
    /// The commit log, once git has printed it.
    pub log: Seq<char>,
    /// The messages of the conversation so far.
    pub history: Seq<MessageView>,
}

impl View for Session {
    type V = SessionView;

    closed spec fn view(&self) -> SessionView {
        SessionView {
            stage: self.stage,
            repeats: self.repeats,
            name_only: self.name_only,
            stops_on_blank: self.stops_on_blank,
            context: self.context@,
            branch: self.branch@,
            log: self.log@,
            history: self.conversation.history(),
        }
    }
}

/// The arguments with which git prints a diff for `commit`.
pub open spec fn diff_arguments(name_only: bool, staged: bool) -> Seq<Seq<char>> {
    let plain = seq!["diff"@];
    let named = if name_only {
        plain.push("--name-only"@)
    } else {
        plain
    };
    if staged {
        named.push("--staged"@)
    } else {
        named
    }
}

/// The arguments with which git prints the commits that `branch` lacks.
pub open spec fn log_arguments(branch: Seq<char>) -> Seq<Seq<char>> {
    seq!["log"@, branch + "..HEAD"@]
}

/// The arguments with which git prints the diff against `branch`.
pub open spec fn branch_diff_arguments(branch: Seq<char>) -> Seq<Seq<char>> {
    seq!["diff"@, branch]
}

/// The first prompt of `commit`: the context, the diff and the style guide.
pub open spec fn commit_prompt(context: Seq<char>, diff: Seq<char>) -> Seq<char> {
    "Create me a commit message for these changes:\nThe context is: "@ + context + "\n"@ + diff
        + COMMIT_MESSAGE_TEMPLATE@
}

/// The prompt of `pr`: the context, the commit log, the diff and the template.
pub open spec fn pr_prompt(context: Seq<char>, log: Seq<char>, diff: Seq<char>) -> Seq<char> {
    "Create me a PR for these changes:\nThe context is: "@ + context
        + "\nAll the commit messages are:\n"@ + log + "Changes are:\n"@ + diff + PR_TEMPLATE@
}

/// A session before its first step.
pub open spec fn fresh_session(stage: Stage, repeats: bool) -> SessionView {
    SessionView {
        stage,
        repeats,
        name_only: false,
        stops_on_blank: false,
        context: Seq::empty(),
        branch: Seq::empty(),
        log: Seq::empty(),
        history: seq![opening_message()],
    }
}

/// How a command starts: the session, and its first action. `commit` asks for
/// the diff of the working tree, `pr` for the commit log, `init` for the key.
pub open spec fn start_of(command: Commands) -> (SessionView, ActionView) {
    match command {
        Commands::Commit(args) => (
            SessionView {
                name_only: args.name_only,
                context: context_of(args.message),
                ..fresh_session(Stage::Diff, true)
            },
            ActionView::RunGit(diff_arguments(args.name_only, false)),
        ),
        Commands::PR(args) => (
            SessionView {
                context: context_of(args.message),
                branch: args.branch@,
                ..fresh_session(Stage::Log, false)
            },
            ActionView::RunGit(log_arguments(args.branch@)),
        ),
        Commands::Init => (fresh_session(Stage::Key, false), ActionView::AskKey),
    }
}

/// Sending a prompt: it joins the history, and the request carries the history.
pub open spec fn sending(session: SessionView, prompt: Seq<char>) -> (SessionView, ActionView) {
    let history = history_after_prompt(session.history, prompt);
    (
        SessionView { stage: Stage::Response, history, ..session },
        ActionView::Send(request_for(history)),
    )
}

/// Taking the backend's answer: an outcome is shown, a reply wrapped to the
/// display width and findings as they are; a failure ends the command. After an
/// outcome a session that repeats asks for an edit, any other is over.
pub open spec fn answering(session: SessionView, delivery: Option<Seq<ChoiceView>>) -> (
    SessionView,
    ActionView,
) {
    let history = history_after_response(session.history, delivery);
    let next = if session.repeats {
        Stage::Edit
    } else {
        Stage::Finished
    };
    match outcome_of(delivery) {
        Ok(OutcomeView::Reply(text)) => (
            SessionView { stage: next, history, ..session },
            ActionView::Show { text: filled(text), ask: session.repeats },
        ),
        Ok(OutcomeView::Suggestions(findings)) => (
            SessionView { stage: next, history, ..session },
            ActionView::ShowFindings { findings, ask: session.repeats },
        ),
        Err(error) => (
            SessionView { stage: Stage::Finished, history, ..session },
            ActionView::Fail(error),
        ),
    }
}

/// A session that is over.
pub open spec fn finished(session: SessionView) -> SessionView {
    SessionView { stage: Stage::Finished, ..session }
}

/// One step of a session: the session after the event, and the next action.
///
/// `commit` falls back on the staged changes where the working tree shows no
/// change, and reports that there is nothing to commit where both are blank;
/// otherwise it sends its first prompt, and from then on each line of the user
/// as it stands. `pr` gathers the log and the diff and sends one prompt. `init`
/// stores the key that was entered. An event that the session does not wait for
/// ends it.
pub open spec fn step_of(session: SessionView, event: EventView) -> (SessionView, ActionView) {
    match (session.stage, event) {
        (Stage::Diff, EventView::Output(diff)) => if is_blank(diff) {
            (
                SessionView { stage: Stage::StagedDiff, ..session },
                ActionView::RunGit(diff_arguments(session.name_only, true)),
            )
        } else {
            sending(session, commit_prompt(session.context, diff))
        },
        (Stage::StagedDiff, EventView::Output(diff)) => if is_blank(diff) {
            (finished(session), ActionView::Report(NOTHING_TO_COMMIT@))
        } else {
            sending(session, commit_prompt(session.context, diff))
        },
        (Stage::Log, EventView::Output(log)) => (
            SessionView { stage: Stage::BranchDiff, log, ..session },
            ActionView::RunGit(branch_diff_arguments(session.branch)),
        ),
        (Stage::BranchDiff, EventView::Output(diff)) => sending(
            session,
            pr_prompt(session.context, session.log, diff),
        ),
        (Stage::Response, EventView::Response(delivery)) => answering(session, delivery),
        (Stage::Edit, EventView::Line(line)) => if session.stops_on_blank && is_blank(line) {
            (finished(session), ActionView::Stop)
        } else {
            sending(session, line)
        },
        (Stage::Key, EventView::Line(line)) => (
            finished(session),
            ActionView::Store(nothing_stored().insert(KEY_NAME@, trimmed(line))),
        ),
        _ => (finished(session), ActionView::Stop),
    }
}

/// With no change in the working tree and none staged, `commit` asks git twice,
/// reports that there is nothing to commit, and is over: it sends no request
/// and its conversation stays as it began.
pub proof fn blank_diffs_send_nothing(command: Commands, diff: Seq<char>, staged: Seq<char>)
    requires
        command is Commit,
        is_blank(diff),
        is_blank(staged),
    ensures
        ({
            let (started, first) = start_of(command);
            let (waiting, second) = step_of(started, EventView::Output(diff));
            let (ended, last) = step_of(waiting, EventView::Output(staged));
            &&& first == ActionView::RunGit(diff_arguments(started.name_only, false))
            &&& second == ActionView::RunGit(diff_arguments(started.name_only, true))
            &&& last == ActionView::Report(NOTHING_TO_COMMIT@)
            &&& ended.stage == Stage::Finished
            &&& ended.history == started.history
        }),
{
}

/// Where git prints nothing for the working tree and nothing for the staged
/// changes, `commit` reports that there is nothing to commit and sends no request.
pub proof fn empty_diffs_send_nothing(command: Commands)
    requires
        command is Commit,
    ensures
        ({
            let (started, first) = start_of(command);
            let (waiting, second) = step_of(started, EventView::Output(Seq::empty()));
            let (ended, last) = step_of(waiting, EventView::Output(Seq::empty()));
            &&& first is RunGit
            &&& second is RunGit
            &&& last == ActionView::Report(NOTHING_TO_COMMIT@)
            &&& ended.stage == Stage::Finished
            &&& ended.history == started.history
        }),
{
    crate::text::blank_is_all_white_space(Seq::empty());
    blank_diffs_send_nothing(command, Seq::empty(), Seq::empty());
}

/// A change in the working tree, or else a staged one, makes `commit` send its
/// first prompt, which holds the context, that diff and the style guide.
pub proof fn a_change_is_sent(command: Commands, diff: Seq<char>, staged: Seq<char>)
    requires
        command is Commit,
        !is_blank(diff) || !is_blank(staged),
    ensures
        ({
            let (started, first) = start_of(command);
            let (waiting, second) = step_of(started, EventView::Output(diff));
            let used = if is_blank(diff) {
                staged
            } else {
                diff
            };
            let sent = request_for(
                history_after_prompt(started.history, commit_prompt(started.context, used)),
            );
            if is_blank(diff) {
                step_of(waiting, EventView::Output(staged)).1 == ActionView::Send(sent)
            } else {
                second == ActionView::Send(sent)
            }
        }),
{
}

/// After an outcome `commit` asks for an edit, and sends the line that the user
/// enters as it stands. Unless a blank line was made to end it, it never ends
/// of itself.
pub proof fn commit_sends_each_edit(
    session: SessionView,
    delivery: Option<Seq<ChoiceView>>,
    line: Seq<char>,
)
    requires
        session.stage == Stage::Response,
        session.repeats,
        outcome_of(delivery) is Ok,
    ensures
        ({
            let (shown, first) = step_of(session, EventView::Response(delivery));
            let (asked, second) = step_of(shown, EventView::Line(line));
            &&& shown.stage == Stage::Edit
            &&& first matches ActionView::Show { ask, .. } ==> ask
            &&& first matches ActionView::ShowFindings { ask, .. } ==> ask
            &&& first is Show || first is ShowFindings
            &&& if session.stops_on_blank && is_blank(line) {
                asked.stage == Stage::Finished && second == ActionView::Stop
            } else {
                &&& asked.stage == Stage::Response
                &&& asked.history == history_after_prompt(shown.history, line)
                &&& second == ActionView::Send(request_for(asked.history))
            }
        }),
{
}

/// `pr` is one exchange: the log, the diff, one request, and with the answer
/// the command is over.
pub proof fn pr_is_one_exchange(
    command: Commands,
    log: Seq<char>,
    diff: Seq<char>,
    delivery: Option<Seq<ChoiceView>>,
)
    requires
        command is PR,
    ensures
        ({
            let (started, first) = start_of(command);
            let (logged, second) = step_of(started, EventView::Output(log));
            let (sent, third) = step_of(logged, EventView::Output(diff));
            let (ended, last) = step_of(sent, EventView::Response(delivery));
            &&& first == ActionView::RunGit(log_arguments(started.branch))
            &&& second == ActionView::RunGit(branch_diff_arguments(started.branch))
            &&& third == ActionView::Send(
                request_for(
                    history_after_prompt(
                        started.history,
                        pr_prompt(started.context, log, diff),
                    ),
                ),
            )
            &&& ended.stage == Stage::Finished
            &&& last matches ActionView::Show { ask, .. } ==> !ask
            &&& last matches ActionView::ShowFindings { ask, .. } ==> !ask
        }),
{
}

/// A session that is over stays over, whatever is reported to it.
pub proof fn finished_stays_finished(session: SessionView, event: EventView)
    requires
        session.stage == Stage::Finished,
    ensures
        step_of(session, event) == (session, ActionView::Stop),
{
}

/// A step sends a request only with the conversation grown by one prompt, and
/// no step takes a message out of the conversation.
pub proof fn steps_only_add_messages(session: SessionView, event: EventView)
    ensures
        ({
            let (next, action) = step_of(session, event);
            &&& session.history.len() <= next.history.len() <= session.history.len() + 1
            &&& next.history.take(session.history.len() as int) == session.history
            &&& action matches ActionView::Send(request) ==> {
                &&& request.messages == next.history
                &&& next.history.len() == session.history.len() + 1
                &&& next.history.last().role == Role::User
            }
        }),
{
    let (next, action) = step_of(session, event);
    assert(next.history.take(session.history.len() as int) =~= session.history);
}

/// The text of `a` followed by the text of `b`.
fn concat(a: &str, b: &str) -> (text: String)
    ensures
        text@ == a@ + b@,
{
    let mut text = String::from_str(a);
    text.append(b);
    text
}

/// Runs the commands of the tool.
#[derive(Debug)]
pub struct GitAICommandExecutor;

impl GitAICommandExecutor {
    /// The arguments with which git prints a diff for `commit`: of the staged
    /// changes or of the working tree, in full or by file names only.
    pub fn diff_command(name_only: bool, staged: bool) -> (arguments: Vec<String>)
        ensures
            arguments_view(arguments@) == diff_arguments(name_only, staged),
    {
        let mut arguments: Vec<String> = Vec::new();
        arguments.push(String::from_str("diff"));
        if name_only {
            arguments.push(String::from_str("--name-only"));
        }
        if staged {
            arguments.push(String::from_str("--staged"));
        }
        assert(arguments_view(arguments@) =~= diff_arguments(name_only, staged));
        arguments
    }

    /// The first prompt of `commit`.
    pub fn commit_message_prompt(context: &str, diff: &str) -> (prompt: String)
        ensures
            prompt@ == commit_prompt(context@, diff@),
    {
        let mut prompt = String::from_str(
            "Create me a commit message for these changes:\nThe context is: ",
        );
        prompt.append(context);
        prompt.append("\n");
        prompt.append(diff);
        prompt.append(COMMIT_MESSAGE_TEMPLATE);
        prompt
    }

    /// The prompt of `pr`.
    pub fn pr_description_prompt(context: &str, log: &str, diff: &str) -> (prompt: String)
        ensures
            prompt@ == pr_prompt(context@, log@, diff@),
    {
        let mut prompt = String::from_str("Create me a PR for these changes:\nThe context is: ");
        prompt.append(context);
        prompt.append("\nAll the commit messages are:\n");
        prompt.append(log);
        prompt.append("Changes are:\n");
        prompt.append(diff);
        prompt.append(PR_TEMPLATE);
        prompt
    }

    /// Starts `init`: the configuration that stores what the user entered as the API key.
    pub fn execute_init(entered: &str) -> (conf: Ini)
        ensures
            general_values(conf) == nothing_stored().insert(KEY_NAME@, trimmed(entered@)),
    {
        ConfigManager::init(entered)
    }

    /// Starts a command: gives its session and the first action.
    pub fn execute_command(command: &Commands) -> (started: (Session, Action))
        ensures
            started.0@ == start_of(*command).0,
            started.1@ == start_of(*command).1,
    {
        match command {
            Commands::Commit(args) => {
                let session = Session {
                    stage: Stage::Diff,
                    repeats: true,
                    name_only: args.name_only,
                    stops_on_blank: false,
                    context: context(&args.message),
                    branch: String::new(),
                    log: String::new(),
                    conversation: ChatConversation::new(),
                };
                (session, Action::RunGit(GitAICommandExecutor::diff_command(args.name_only, false)))
            },
            Commands::PR(args) => {
                let session = Session {
                    stage: Stage::Log,
                    repeats: false,
                    name_only: false,
                    stops_on_blank: false,
                    context: context(&args.message),
                    branch: args.branch.clone(),
                    log: String::new(),
                    conversation: ChatConversation::new(),
                };
                let mut arguments: Vec<String> = Vec::new();
                arguments.push(String::from_str("log"));
                arguments.push(concat(args.branch.as_str(), "..HEAD"));
                assert(arguments_view(arguments@) =~= log_arguments(args.branch@));
                (session, Action::RunGit(arguments))
            },
            Commands::Init => {
                let session = Session {
                    stage: Stage::Key,
                    repeats: false,
                    name_only: false,
                    stops_on_blank: false,
                    context: String::new(),
                    branch: String::new(),
                    log: String::new(),
                    conversation: ChatConversation::new(),
                };
                (session, Action::AskKey)
            },
        }
    }
}

impl Session {
    /// What the session waits for.
    pub fn stage(&self) -> (stage: Stage)
        ensures
            stage == self@.stage,
    {
        self.stage
    }

    /// Whether the command is over.
    pub fn is_finished(&self) -> (over: bool)
        ensures
            over == (self@.stage == Stage::Finished),
    {
        match self.stage {
            Stage::Finished => true,
            _ => false,
        }
    }

    /// The conversation of the session.
    pub fn conversation(&self) -> (conversation: &ChatConversation)
        ensures
            conversation.history() == self@.history,
    {
        &self.conversation
    }

    /// Makes a blank line of the user end the command. Without this the user is
    /// asked for edits until the program is stopped from outside.
    pub fn stop_on_blank_line(&mut self)
        ensures
            final(self)@ == (SessionView { stops_on_blank: true, ..old(self)@ }),
    {
        self.stops_on_blank = true;
    }

    /// Sends a prompt: adds it to the conversation and gives the request.
    fn send(&mut self, prompt: &str) -> (action: Action)
        ensures
            final(self)@ == sending(old(self)@, prompt@).0,
            action@ == sending(old(self)@, prompt@).1,
    {
        let request = self.conversation.generate_message(prompt);
        self.stage = Stage::Response;
        Action::Send(request)
    }

    /// Ends the session.
    fn finish(&mut self)
        ensures
            final(self)@ == finished(old(self)@),
    {
        self.stage = Stage::Finished;
    }

    /// Takes the backend's answer and gives what is shown of it.
    fn answer(&mut self, delivery: Option<ChatResponse>) -> (action: Action)
        ensures
            final(self)@ == answering(old(self)@, delivery_view(delivery)).0,
            action@ == answering(old(self)@, delivery_view(delivery)).1,
    {
        let outcome = self.conversation.accept_response(delivery);
        let ask = self.repeats;
        match outcome {
            Ok(Outcome::Reply(text)) => {
                self.stage = if ask {
                    Stage::Edit
                } else {
                    Stage::Finished
                };
                Action::Show { text: fill(text.as_str()), ask }
            },
            Ok(Outcome::Suggestions(findings)) => {
                self.stage = if ask {
                    Stage::Edit
                } else {
                    Stage::Finished
                };
                Action::ShowFindings { findings, ask }
            },
            Err(error) => {
                self.stage = Stage::Finished;
                Action::Fail(error)
            },
        }
    }

    /// Takes an event and gives the next action.
    pub fn step(&mut self, event: Event) -> (action: Action)
        ensures
            final(self)@ == step_of(old(self)@, event@).0,
            action@ == step_of(old(self)@, event@).1,
    {
        match (self.stage, event) {
            (Stage::Diff, Event::Output(diff)) => {
                if blank(diff.as_str()) {
                    self.stage = Stage::StagedDiff;
                    Action::RunGit(GitAICommandExecutor::diff_command(self.name_only, true))
                } else {
                    let prompt = GitAICommandExecutor::commit_message_prompt(
                        self.context.as_str(),
                        diff.as_str(),
                    );
                    self.send(prompt.as_str())
                }
            },
            (Stage::StagedDiff, Event::Output(diff)) => {
                if blank(diff.as_str()) {
                    self.finish();
                    Action::Report(String::from_str(NOTHING_TO_COMMIT))
                } else {
                    let prompt = GitAICommandExecutor::commit_message_prompt(
                        self.context.as_str(),
                        diff.as_str(),
                    );
                    self.send(prompt.as_str())
                }
            },
            (Stage::Log, Event::Output(log)) => {
                self.stage = Stage::BranchDiff;
                self.log = log;
                let mut arguments: Vec<String> = Vec::new();
                arguments.push(String::from_str("diff"));
                arguments.push(self.branch.clone());
                assert(arguments_view(arguments@) =~= branch_diff_arguments(self.branch@));
                Action::RunGit(arguments)
            },
            (Stage::BranchDiff, Event::Output(diff)) => {
                let prompt = GitAICommandExecutor::pr_description_prompt(
                    self.context.as_str(),
                    self.log.as_str(),
                    diff.as_str(),
                );
                self.send(prompt.as_str())
            },
            (Stage::Response, Event::Response(delivery)) => self.answer(delivery),
            (Stage::Edit, Event::Line(line)) => {
                if self.stops_on_blank && blank(line.as_str()) {
                    self.finish();
                    Action::Stop
                } else {
                    self.send(line.as_str())
                }
            },
            (Stage::Key, Event::Line(line)) => {
                self.finish();
                Action::Store(GitAICommandExecutor::execute_init(line.as_str()))
            },
            _ => {
                self.finish();
                Action::Stop
            },
        }
    }
}

} // verus!
