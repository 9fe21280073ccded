//! One invocation of the client as a conversation with its surroundings.
//!
//! The surroundings read credentials, talk to the remote service and store
//! tokens; what to ask of them next, and what the invocation finally
//! reports, is decided here. A [`Session`] hands out an [`Action`], is told
//! the [`Event`] that answers it, and hands out the next action, until the
//! action is [`Action::Finish`].

use vstd::prelude::*;
use crate::api::{
    ApiError, ApiErrorView, Credentials, CredentialsView, Request, RequestView, V9ApiClient,
};
use crate::engine::{
    continue_most_recent_at, continued, described, start_described_at, started, stop_at, stopped,
    CLIENT_NAME,
};
use crate::error::EngineError;
use crate::models::{TimeEntry, TimeEntryView, User, UserView};
use crate::time::{utc_now, Instant, Timestamp};

verus! {

/// The mathematical value of a [`Command`].
pub enum CommandView {
    Current,
    Running,
    Stop,
    Start { description: Option<Seq<char>>, project: Option<Seq<char>> },
    Continue,
    Auth { api_token: Seq<char> },
    List { number: Option<usize> },
}

/// What the user asks for.
#[derive(Debug, PartialEq, Eq)]
pub enum Command {
    /// Show the running entry.
    Current,
    /// Show the running entry.
    Running,
    /// Stop the running entry.
    Stop,
    /// Start a new entry with this description. The project is a name, not
    /// a reference, and is not looked up.
    Start { description: Option<String>, project: Option<String> },
    /// Start an entry like the most recent one.
    Continue,
    /// Check an access token and store it.
    Auth { api_token: String },
    /// Show the recent entries, at most `number` of them.
    List { number: Option<usize> },
}

impl View for Command {
    type V = CommandView;

    open spec fn view(&self) -> CommandView {
        match self {
            Command::Current => CommandView::Current,
            Command::Running => CommandView::Running,
            Command::Stop => CommandView::Stop,
            Command::Start { description, project } => CommandView::Start {
                description: description.deep_view(),
                project: project.deep_view(),
            },
            Command::Continue => CommandView::Continue,
            Command::Auth { api_token } => CommandView::Auth { api_token: api_token@ },
            Command::List { number } => CommandView::List { number: *number },
        }
    }
}

impl DeepView for Command {
    type V = CommandView;

    open spec fn deep_view(&self) -> CommandView {
        self@
    }
}

/// What an invocation that needs the stored credentials is after.
#[derive(Clone, Copy, Debug, PartialEq, Eq, Structural)]
pub enum Goal {
    /// Showing the running entry.
    Show,
    /// Stopping the running entry.
    Stop,
    /// Continuing the most recent entry.
    Continue,
    /// Listing the recent entries, at most so many.
    List(Option<usize>),
}

/// What an entry sent to the remote service is sent for.
#[derive(Clone, Copy, Debug, PartialEq, Eq, Structural)]
pub enum Change {
    /// A new entry is started.
    Start,
    /// The most recent entry is continued.
    Continue,
    /// The running entry is stopped.
    Stop,
}

/// The mathematical value of a [`Report`].
pub enum ReportView {
    Started(TimeEntryView),
    Running(TimeEntryView),
    NoRunningEntry,
    Stopped(TimeEntryView),
    Continued(TimeEntryView),
    NoEntries,
    Entries(Seq<TimeEntryView>),
    FetchFailed(ApiErrorView),
    Authenticated { email: Seq<char> },
}

/// What an invocation that ran to its end has to tell the user.
#[derive(Debug, PartialEq, Eq)]
pub enum Report {
    /// A new entry was started as this entry.
    Started(TimeEntry),
    /// This entry is running.
    Running(TimeEntry),
    /// No entry is running.
    NoRunningEntry,
    /// The running entry was stopped and now is this entry.
    Stopped(TimeEntry),
    /// The most recent entry was continued as this entry.
    Continued(TimeEntry),
    /// There is no recent entry to continue.
    NoEntries,
    /// These are the recent entries asked for.
    Entries(Vec<TimeEntry>),
    /// The recent entries could not be fetched.
    FetchFailed(ApiError),
    /// The token belongs to the account with this email and was stored.
    Authenticated { email: String },
}

impl View for Report {
    type V = ReportView;

    open spec fn view(&self) -> ReportView {
        match self {
            Report::Started(entry) => ReportView::Started(entry@),
            Report::Running(entry) => ReportView::Running(entry@),
            Report::NoRunningEntry => ReportView::NoRunningEntry,
            Report::Stopped(entry) => ReportView::Stopped(entry@),
            Report::Continued(entry) => ReportView::Continued(entry@),
            Report::NoEntries => ReportView::NoEntries,
            Report::Entries(entries) => ReportView::Entries(entries.deep_view()),
            Report::FetchFailed(error) => ReportView::FetchFailed(error@),
            Report::Authenticated { email } => ReportView::Authenticated { email: email@ },
        }
    }
}

/// The mathematical value of a [`Fault`].
pub enum FaultView {
    MissingCredentials,
    Configuration,
    Api(ApiErrorView),
    Engine(EngineError),
    Storage,
}

/// Why an invocation failed.
#[derive(Debug, PartialEq, Eq)]
pub enum Fault {
    /// No credentials are stored.
    MissingCredentials,
    /// The credentials at hand cannot be used.
    Configuration,
    /// A request to the remote service failed.
    Api(ApiError),
    /// A transition was not allowed, or an event came out of turn.
    Engine(EngineError),
    /// The token could not be stored.
    Storage,
}

impl View for Fault {
    type V = FaultView;

    open spec fn view(&self) -> FaultView {
        match self {
            Fault::MissingCredentials => FaultView::MissingCredentials,
            Fault::Configuration => FaultView::Configuration,
            Fault::Api(error) => FaultView::Api(error@),
            Fault::Engine(error) => FaultView::Engine(*error),
            Fault::Storage => FaultView::Storage,
        }
    }
}

/// The mathematical value of an [`Action`].
pub enum ActionView {
    ReadCredentials,
    Call { client: CredentialsView, request: RequestView },
    PersistToken { api_token: Seq<char> },
    Finish(Result<ReportView, FaultView>),
}

/// What the surroundings are asked to do next.
#[derive(Debug, PartialEq, Eq)]
pub enum Action {
    /// Read the stored credentials.
    ReadCredentials,
    /// Send this request to the remote service as this client.
    Call { client: V9ApiClient, request: Request },
    /// Store this access token.
    PersistToken { api_token: String },
    /// Tell the user, and end.
    Finish(Result<Report, Fault>),
}

impl View for Action {
    type V = ActionView;

    open spec fn view(&self) -> ActionView {
        match self {
            Action::ReadCredentials => ActionView::ReadCredentials,
            Action::Call { client, request } => ActionView::Call {
                client: client@,
                request: request@,
            },
            Action::PersistToken { api_token } => ActionView::PersistToken {
                api_token: api_token@,
            },
            Action::Finish(Ok(report)) => ActionView::Finish(Ok(report@)),
            Action::Finish(Err(fault)) => ActionView::Finish(Err(fault@)),
        }
    }
}

/// The mathematical value of an [`Event`].
pub enum EventView {
    Credentials(Option<CredentialsView>),
    Account(Result<UserView, ApiErrorView>),
    Stored(bool),
    RunningEntry(Result<Option<TimeEntryView>, ApiErrorView>),
    Entries(Result<Seq<TimeEntryView>, ApiErrorView>),
    Saved(Result<TimeEntryView, ApiErrorView>),
}

/// What the surroundings have to tell after an action.
#[derive(Debug, PartialEq, Eq)]
pub enum Event {
    /// The stored credentials, if there are any.
    Credentials(Option<Credentials>),
    /// The answer to [`Request::GetUser`].
    Account(Result<User, ApiError>),
    /// Whether the token was stored.
    Stored(bool),
    /// The answer to [`Request::GetRunningTimeEntry`].
    RunningEntry(Result<Option<TimeEntry>, ApiError>),
    /// The answer to [`Request::GetTimeEntries`].
    Entries(Result<Vec<TimeEntry>, ApiError>),
    /// The answer to [`Request::CreateTimeEntry`] or
    /// [`Request::UpdateTimeEntry`]: the entry as the service now holds it.
    Saved(Result<TimeEntry, ApiError>),
}

impl View for Event {
    type V = EventView;

    open spec fn view(&self) -> EventView {
        match self {
            Event::Credentials(found) => EventView::Credentials(found.deep_view()),
            Event::Account(Ok(user)) => EventView::Account(Ok(user@)),
            Event::Account(Err(error)) => EventView::Account(Err(error@)),
            Event::Stored(done) => EventView::Stored(*done),
            Event::RunningEntry(Ok(found)) => EventView::RunningEntry(Ok(found.deep_view())),
            Event::RunningEntry(Err(error)) => EventView::RunningEntry(Err(error@)),
            Event::Entries(Ok(entries)) => EventView::Entries(Ok(entries.deep_view())),
            Event::Entries(Err(error)) => EventView::Entries(Err(error@)),
            Event::Saved(Ok(entry)) => EventView::Saved(Ok(entry@)),
            Event::Saved(Err(error)) => EventView::Saved(Err(error@)),
        }
    }
}

/// The mathematical value of a [`Session`]: what it is waiting for.
pub enum StageView {
    /// The stored credentials, on the way to `goal`.
    Credentials { goal: Goal },
    /// The stored credentials, to start a new entry with this description.
    CredentialsToStart { description: Seq<char> },
    /// The first answer of the service on the way to `goal`.
    Fetching { goal: Goal, client: CredentialsView },
    /// The entry that the service made of the one sent to it.
    Saving { change: Change },
    /// The account that a new token belongs to.
    Account,
    /// The storing of the token of the account with this email.
    Storing { email: Seq<char> },
    /// Nothing: the invocation is over.
    Done,
}

#[derive(Debug, PartialEq, Eq)]
enum Stage {
    Credentials { goal: Goal },
    CredentialsToStart { description: String },
    Fetching { goal: Goal, client: V9ApiClient },
    Saving { change: Change },
    Account,
    Storing { email: String },
    Done,
}

/// The state of one invocation between two actions.
#[derive(Debug, PartialEq, Eq)]
pub struct Session {
    stage: Stage,
}

impl View for Session {
    type V = StageView;

    closed spec fn view(&self) -> StageView {
        match self.stage {
            Stage::Credentials { goal } => StageView::Credentials { goal },
            Stage::CredentialsToStart { description } => StageView::CredentialsToStart {
                description: description@,
            },
            Stage::Fetching { goal, client } => StageView::Fetching { goal, client: client@ },
            Stage::Saving { change } => StageView::Saving { change },
            Stage::Account => StageView::Account,
            Stage::Storing { email } => StageView::Storing { email: email@ },
            Stage::Done => StageView::Done,
        }
    }
}

/// The end of an invocation with something to tell.
pub open spec fn finished(report: ReportView) -> (StageView, ActionView) {
    (StageView::Done, ActionView::Finish(Ok(report)))
}

/// The end of an invocation in failure.
pub open spec fn failed(fault: FaultView) -> (StageView, ActionView) {
    (StageView::Done, ActionView::Finish(Err(fault)))
}

/// The first request on the way to `goal`.
pub open spec fn first_request(goal: Goal) -> RequestView {
    match goal {
        Goal::Show | Goal::Stop => RequestView::GetRunningTimeEntry,
        Goal::Continue | Goal::List(_) => RequestView::GetTimeEntries,
    }
}

/// The goal of a command that first asks the remote service for what it
/// holds.
pub open spec fn goal_of(command: Option<CommandView>) -> Option<Goal> {
    match command {
        None | Some(CommandView::Current) | Some(CommandView::Running) => Some(Goal::Show),
        Some(CommandView::Stop) => Some(Goal::Stop),
        Some(CommandView::Continue) => Some(Goal::Continue),
        Some(CommandView::List { number }) => Some(Goal::List(number)),
        Some(CommandView::Start { .. }) | Some(CommandView::Auth { .. }) => None,
    }
}

/// The description of the entry that a command starts: the one given, or
/// the empty text where none is given.
pub open spec fn description_of(given: Option<Seq<char>>) -> Seq<char> {
    match given {
        Some(description) => description,
        None => Seq::empty(),
    }
}

/// Whether a command works with the credentials that are stored: every
/// command does but the one that brings a new token.
pub open spec fn works_with_stored_credentials(command: Option<CommandView>) -> bool {
    !(command matches Some(CommandView::Auth { .. }))
}

/// How an invocation opens: a command that works with the stored
/// credentials asks for them, and a new token is checked with the service
/// if it is usable at all.
pub open spec fn opening(command: Option<CommandView>) -> (StageView, ActionView) {
    match command {
        Some(CommandView::Auth { api_token }) => {
            let credentials = CredentialsView { api_token };
            if credentials.usable() {
                (
                    StageView::Account,
                    ActionView::Call { client: credentials, request: RequestView::GetUser },
                )
            } else {
                failed(FaultView::Configuration)
            }
        },
        Some(CommandView::Start { description, .. }) => (
            StageView::CredentialsToStart { description: description_of(description) },
            ActionView::ReadCredentials,
        ),
        _ => (StageView::Credentials { goal: goal_of(command)->0 }, ActionView::ReadCredentials),
    }
}

/// What follows when the stored credentials were asked for to start a new
/// entry with `description`: with usable credentials the entry is created
/// at once, started at `now`; without them the invocation ends before any
/// request is made.
pub open spec fn after_credentials_to_start(
    description: Seq<char>,
    found: Option<CredentialsView>,
    now: Instant,
) -> (StageView, ActionView) {
    match found {
        None => failed(FaultView::MissingCredentials),
        Some(credentials) => if credentials.usable() {
            (
                StageView::Saving { change: Change::Start },
                ActionView::Call {
                    client: credentials,
                    request: RequestView::CreateTimeEntry(
                        started(described(description, now), now),
                    ),
                },
            )
        } else {
            failed(FaultView::Configuration)
        },
    }
}

/// What follows when the service answered an entry sent to it: the entry as
/// the service now holds it is reported, under the name of the change.
pub open spec fn after_saving(change: Change, saved: Result<TimeEntryView, ApiErrorView>) -> (
    StageView,
    ActionView,
) {
    match saved {
        Err(error) => failed(FaultView::Api(error)),
        Ok(entry) => match change {
            Change::Start => finished(ReportView::Started(entry)),
            Change::Continue => finished(ReportView::Continued(entry)),
            Change::Stop => finished(ReportView::Stopped(entry)),
        },
    }
}

/// The first `number` of `entries`, or all of them where no number is given
/// or there are fewer.
pub open spec fn listed(entries: Seq<TimeEntryView>, number: Option<usize>) -> Seq<TimeEntryView> {
    match number {
        Some(n) => if n < entries.len() {
            entries.take(n as int)
        } else {
            entries
        },
        None => entries,
    }
}

/// What follows when the stored credentials were asked for on the way to
/// `goal`: without credentials, or with credentials that cannot be used, the
/// invocation ends before any request is made.
pub open spec fn after_credentials(goal: Goal, found: Option<CredentialsView>) -> (
    StageView,
    ActionView,
) {
    match found {
        None => failed(FaultView::MissingCredentials),
        Some(credentials) => if credentials.usable() {
            (
                StageView::Fetching { goal, client: credentials },
                ActionView::Call { client: credentials, request: first_request(goal) },
            )
        } else {
            failed(FaultView::Configuration)
        },
    }
}

/// What follows when the running entry was asked for on the way to `goal`.
pub open spec fn after_running_entry(
    goal: Goal,
    client: CredentialsView,
    found: Result<Option<TimeEntryView>, ApiErrorView>,
    now: Instant,
) -> (StageView, ActionView) {
    match found {
        Err(error) => failed(FaultView::Api(error)),
        Ok(None) => finished(ReportView::NoRunningEntry),
        Ok(Some(entry)) => match goal {
            Goal::Show => finished(ReportView::Running(entry)),
            _ => match stopped(entry, now) {
                Err(error) => failed(FaultView::Engine(error)),
                Ok(after) => match after.id {
                    None => failed(FaultView::Engine(EngineError::InvalidState)),
                    Some(id) => (
                        StageView::Saving { change: Change::Stop },
                        ActionView::Call {
                            client,
                            request: RequestView::UpdateTimeEntry { id, entry: after },
                        },
                    ),
                },
            },
        },
    }
}

/// What follows when the recent entries were asked for on the way to `goal`.
pub open spec fn after_entries(
    goal: Goal,
    client: CredentialsView,
    found: Result<Seq<TimeEntryView>, ApiErrorView>,
    now: Instant,
) -> (StageView, ActionView) {
    match goal {
        Goal::List(number) => match found {
            Err(error) => finished(ReportView::FetchFailed(error)),
            Ok(entries) => finished(ReportView::Entries(listed(entries, number))),
        },
        _ => match found {
            Err(error) => failed(FaultView::Api(error)),
            Ok(entries) => match continued(entries, now) {
                Err(_) => finished(ReportView::NoEntries),
                Ok(candidate) => (
                    StageView::Saving { change: Change::Continue },
                    ActionView::Call { client, request: RequestView::CreateTimeEntry(candidate) },
                ),
            },
        },
    }
}

/// Whether `event` is the answer that `stage` waits for.
pub open spec fn answers(stage: StageView, event: EventView) -> bool {
    match stage {
        StageView::Credentials { .. } | StageView::CredentialsToStart { .. } => event
            is Credentials,
        StageView::Fetching { goal, .. } => match goal {
            Goal::Show | Goal::Stop => event is RunningEntry,
            Goal::Continue | Goal::List(_) => event is Entries,
        },
        StageView::Saving { .. } => event is Saved,
        StageView::Account => event is Account,
        StageView::Storing { .. } => event is Stored,
        StageView::Done => false,
    }
}

/// What follows when `event` arrives at `stage` at the instant `now`: the
/// next stage and the next action. An event that is not the answer awaited
/// ends the invocation in failure.
pub open spec fn reaction(stage: StageView, event: EventView, now: Instant) -> (
    StageView,
    ActionView,
) {
    if !answers(stage, event) {
        failed(FaultView::Engine(EngineError::InvalidState))
    } else {
        match stage {
            StageView::Credentials { goal } => after_credentials(goal, event->Credentials_0),
            StageView::CredentialsToStart { description } => after_credentials_to_start(
                description,
                event->Credentials_0,
                now,
            ),
            StageView::Fetching { goal, client } => match goal {
                Goal::Show | Goal::Stop => after_running_entry(
                    goal,
                    client,
                    event->RunningEntry_0,
                    now,
                ),
                Goal::Continue | Goal::List(_) => after_entries(
                    goal,
                    client,
                    event->Entries_0,
                    now,
                ),
            },
            StageView::Saving { change } => after_saving(change, event->Saved_0),
            StageView::Account => match event->Account_0 {
                Err(error) => failed(FaultView::Api(error)),
                Ok(user) => (
                    StageView::Storing { email: user.email },
                    ActionView::PersistToken { api_token: user.api_token },
                ),
            },
            StageView::Storing { email } => if event->Stored_0 {
                finished(ReportView::Authenticated { email })
            } else {
                failed(FaultView::Storage)
            },
            StageView::Done => failed(FaultView::Engine(EngineError::InvalidState)),
        }
    }
}

/// The mathematical value of a session together with its next action.
pub open spec fn step_view(step: (Session, Action)) -> (StageView, ActionView) {
    (step.0@, step.1@)
}

fn finish(outcome: Result<Report, Fault>) -> (step: (Session, Action))
    ensures
        step_view(step) == (StageView::Done, Action::Finish(outcome)@),
{
    (Session { stage: Stage::Done }, Action::Finish(outcome))
}

fn out_of_turn() -> (step: (Session, Action))
    ensures
        step_view(step) == failed(FaultView::Engine(EngineError::InvalidState)),
{
    finish(Err(Fault::Engine(EngineError::InvalidState)))
}

fn connect(goal: Goal, found: Option<Credentials>) -> (step: (Session, Action))
    ensures
        step_view(step) == after_credentials(goal, found.deep_view()),
{
    match found {
        None => finish(Err(Fault::MissingCredentials)),
        Some(credentials) => match V9ApiClient::from_credentials(credentials) {
            Err(_) => finish(Err(Fault::Configuration)),
            Ok(client) => {
                let request = match goal {
                    Goal::Show | Goal::Stop => Request::GetRunningTimeEntry,
                    Goal::Continue | Goal::List(_) => Request::GetTimeEntries,
                };
                let caller = client.clone();
                (Session { stage: Stage::Fetching { goal, client } }, Action::Call {
                    client: caller,
                    request,
                })
            },
        },
    }
}

fn connect_to_start(description: String, found: Option<Credentials>, now: Timestamp) -> (step: (
    Session,
    Action,
))
    ensures
        step_view(step) == after_credentials_to_start(description@, found.deep_view(), now@),
{
    match found {
        None => finish(Err(Fault::MissingCredentials)),
        Some(credentials) => match V9ApiClient::from_credentials(credentials) {
            Err(_) => finish(Err(Fault::Configuration)),
            Ok(client) => (Session { stage: Stage::Saving { change: Change::Start } }, Action::Call {
                client,
                request: Request::CreateTimeEntry(start_described_at(description, now)),
            }),
        },
    }
}

fn react_to_saving(change: Change, saved: Result<TimeEntry, ApiError>) -> (step: (Session, Action))
    ensures
        step_view(step) == after_saving(change, (Event::Saved(saved))@->Saved_0),
{
    match saved {
        Err(error) => finish(Err(Fault::Api(error))),
        Ok(entry) => match change {
            Change::Start => finish(Ok(Report::Started(entry))),
            Change::Continue => finish(Ok(Report::Continued(entry))),
            Change::Stop => finish(Ok(Report::Stopped(entry))),
        },
    }
}

fn react_to_running_entry(
    goal: Goal,
    client: V9ApiClient,
    found: Result<Option<TimeEntry>, ApiError>,
    now: Timestamp,
) -> (step: (Session, Action))
    requires
        goal == Goal::Show || goal == Goal::Stop,
    ensures
        step_view(step) == after_running_entry(
            goal,
            client@,
            (Event::RunningEntry(found))@->RunningEntry_0,
            now@,
        ),
{
    match found {
        Err(error) => finish(Err(Fault::Api(error))),
        Ok(None) => finish(Ok(Report::NoRunningEntry)),
        Ok(Some(entry)) => match goal {
            Goal::Show => finish(Ok(Report::Running(entry))),
            _ => match stop_at(entry, now) {
                Err(error) => finish(Err(Fault::Engine(error))),
                Ok(after) => match after.id {
                    None => finish(Err(Fault::Engine(EngineError::InvalidState))),
                    Some(id) => (
                        Session { stage: Stage::Saving { change: Change::Stop } },
                        Action::Call {
                            client,
                            request: Request::UpdateTimeEntry { id, entry: after },
                        },
                    ),
                },
            },
        },
    }
}

fn react_to_entries(
    goal: Goal,
    client: V9ApiClient,
    found: Result<Vec<TimeEntry>, ApiError>,
    now: Timestamp,
) -> (step: (Session, Action))
    requires
        goal == Goal::Continue || goal is List,
    ensures
        step_view(step) == after_entries(goal, client@, (Event::Entries(found))@->Entries_0, now@),
{
    match goal {
        Goal::List(number) => match found {
            Err(error) => finish(Ok(Report::FetchFailed(error))),
            Ok(entries) => {
                let mut entries = entries;
                let ghost all = entries.deep_view();
                if let Some(n) = number {
                    entries.truncate(n);
                }
                assert(entries.deep_view() =~= listed(all, number));
                finish(Ok(Report::Entries(entries)))
            },
        },
        _ => match found {
            Err(error) => finish(Err(Fault::Api(error))),
            Ok(entries) => match continue_most_recent_at(&entries, now) {
                Err(_) => finish(Ok(Report::NoEntries)),
                Ok(candidate) => (
                    Session { stage: Stage::Saving { change: Change::Continue } },
                    Action::Call { client, request: Request::CreateTimeEntry(candidate) },
                ),
            },
        },
    }
}

impl Session {
    /// Opens the invocation for `command`; no command asks for the running
    /// entry.
    pub fn begin(command: Option<Command>) -> (step: (Session, Action))
        ensures
            step_view(step) == opening(command.deep_view()),
    {
        let goal = match command {
            None | Some(Command::Current) | Some(Command::Running) => Goal::Show,
            Some(Command::Stop) => Goal::Stop,
            Some(Command::Continue) => Goal::Continue,
            Some(Command::List { number }) => Goal::List(number),
            Some(Command::Start { description, .. }) => {
                let description = match description {
                    Some(description) => description,
                    None => String::new(),
                };
                return (
                    Session { stage: Stage::CredentialsToStart { description } },
                    Action::ReadCredentials,
                );
            },
            Some(Command::Auth { api_token }) => {
                return match V9ApiClient::from_credentials(Credentials { api_token }) {
                    Err(_) => finish(Err(Fault::Configuration)),
                    Ok(client) => (Session { stage: Stage::Account }, Action::Call {
                        client,
                        request: Request::GetUser,
                    }),
                };
            },
        };
        (Session { stage: Stage::Credentials { goal } }, Action::ReadCredentials)
    }

    /// Whether the invocation is over.
    pub fn is_done(&self) -> (done: bool)
        ensures
            done == (self@ is Done),
    {
        match self.stage {
            Stage::Done => true,
            _ => false,
        }
    }

    /// Takes `event`, which arrived at the instant `now`, and says what to
    /// do next.
    pub fn advance_at(self, event: Event, now: Timestamp) -> (step: (Session, Action))
        ensures
            step_view(step) == reaction(self@, event@, now@),
    {
        match self.stage {
            Stage::Credentials { goal } => match event {
                Event::Credentials(found) => connect(goal, found),
                _ => out_of_turn(),
            },
            Stage::CredentialsToStart { description } => match event {
                Event::Credentials(found) => connect_to_start(description, found, now),
                _ => out_of_turn(),
            },
            Stage::Fetching { goal, client } => match goal {
                Goal::Show | Goal::Stop => match event {
                    Event::RunningEntry(found) => react_to_running_entry(goal, client, found, now),
                    _ => out_of_turn(),
                },
                Goal::Continue | Goal::List(_) => match event {
                    Event::Entries(found) => react_to_entries(goal, client, found, now),
                    _ => out_of_turn(),
                },
            },
            Stage::Saving { change } => match event {
                Event::Saved(saved) => react_to_saving(change, saved),
                _ => out_of_turn(),
            },
            Stage::Account => match event {
                Event::Account(Err(error)) => finish(Err(Fault::Api(error))),
                Event::Account(Ok(user)) => (
                    Session { stage: Stage::Storing { email: user.email } },
                    Action::PersistToken { api_token: user.api_token },
                ),
                _ => out_of_turn(),
            },
            Stage::Storing { email } => match event {
                Event::Stored(true) => finish(Ok(Report::Authenticated { email })),
                Event::Stored(false) => finish(Err(Fault::Storage)),
                _ => out_of_turn(),
            },
            Stage::Done => out_of_turn(),
        }
    }

    /// Takes `event` at the current instant and says what to do next.
    pub fn advance(self, event: Event) -> (step: (Session, Action))
        ensures
            exists|now: Instant|
                now.valid() && step_view(step) == #[trigger] reaction(self@, event@, now),
    {
        let now = utc_now();
        let ghost before = self@;
        let ghost told = event@;
        let step = self.advance_at(event, now);
        assert(step_view(step) == reaction(before, told, now@));
        step
    }
}

/// Without stored credentials nothing is asked of the remote service: a
/// command that works with them opens by asking for them, and when there are
/// none the invocation ends at once, reporting that they are missing.
pub proof fn law_missing_credentials_end_the_invocation(
    command: Option<CommandView>,
    now: Instant,
)
    requires
        works_with_stored_credentials(command),
        now.valid(),
    ensures
        opening(command).1 == ActionView::ReadCredentials,
        reaction(opening(command).0, EventView::Credentials(None), now) == failed(
            FaultView::MissingCredentials,
        ),
{
}

/// Starting creates one new running entry with the description given,
/// empty where none is given, as soon as usable credentials are at hand,
/// and reports the entry that the service made of it; a failed creation
/// is reported as the failure it is.
pub proof fn law_start_creates_a_running_entry(
    description: Option<Seq<char>>,
    project: Option<Seq<char>>,
    credentials: CredentialsView,
    now: Instant,
    saved: Result<TimeEntryView, ApiErrorView>,
    later: Instant,
)
    requires
        credentials.usable(),
        now.valid(),
        later.valid(),
    ensures
        opening(Some(CommandView::Start { description, project })) == (
            StageView::CredentialsToStart { description: description_of(description) },
            ActionView::ReadCredentials,
        ),
        reaction(
            StageView::CredentialsToStart { description: description_of(description) },
            EventView::Credentials(Some(credentials)),
            now,
        ) == (
            StageView::Saving { change: Change::Start },
            ActionView::Call {
                client: credentials,
                request: RequestView::CreateTimeEntry(
                    started(described(description_of(description), now), now),
                ),
            },
        ),
        started(described(description_of(description), now), now) == (TimeEntryView {
            id: None,
            project_id: None,
            task_id: None,
            billable: false,
            start: now,
            stop: None,
            duration: -now.secs,
            description: description_of(description),
            created_with: Some(CLIENT_NAME@),
        }),
        reaction(StageView::Saving { change: Change::Start }, EventView::Saved(saved), later)
            == match saved {
            Ok(entry) => finished(ReportView::Started(entry)),
            Err(error) => failed(FaultView::Api(error)),
        },
{
}

/// A request is only ever made as a client whose credentials are usable.
pub proof fn law_calls_carry_usable_credentials(
    command: Option<CommandView>,
    stage: StageView,
    event: EventView,
    now: Instant,
)
    requires
        stage matches StageView::Fetching { client, .. } ==> client.usable(),
    ensures
        opening(command).1 matches ActionView::Call { client, .. } ==> client.usable(),
        reaction(stage, event, now).1 matches ActionView::Call { client, .. } ==> client.usable(),
        reaction(stage, event, now).0 matches StageView::Fetching { client, .. }
            ==> client.usable(),
{
}

/// When no entry is running, stopping reports just that and asks nothing
/// more of the remote service.
pub proof fn law_stop_without_running_entry(client: CredentialsView, now: Instant)
    requires
        now.valid(),
    ensures
        reaction(
            StageView::Fetching { goal: Goal::Stop, client },
            EventView::RunningEntry(Ok(None)),
            now,
        ) == finished(ReportView::NoRunningEntry),
{
}

/// Continuing creates an entry like the most recent one, started at the
/// instant the recent entries arrived, and reports the entry that the
/// service made of it.
pub proof fn law_continue_creates_from_most_recent(
    client: CredentialsView,
    entries: Seq<TimeEntryView>,
    now: Instant,
    canonical: TimeEntryView,
    later: Instant,
)
    requires
        entries.len() > 0,
        now.valid(),
        later.valid(),
    ensures
        reaction(
            StageView::Fetching { goal: Goal::Continue, client },
            EventView::Entries(Ok(entries)),
            now,
        ) == (
            StageView::Saving { change: Change::Continue },
            ActionView::Call {
                client,
                request: RequestView::CreateTimeEntry(started(entries[0], now)),
            },
        ),
        started(entries[0], now).description == entries[0].description,
        started(entries[0], now).start == now,
        reaction(
            StageView::Saving { change: Change::Continue },
            EventView::Saved(Ok(canonical)),
            later,
        ) == finished(ReportView::Continued(canonical)),
{
}

/// An entry is sent to the remote service only at a start and at a stop:
/// created when starting or continuing, as a running entry without
/// identifier, and replaced when stopping, as a stopped entry under its own
/// identifier.
pub proof fn law_entries_change_at_start_and_stop(
    stage: StageView,
    event: EventView,
    now: Instant,
)
    requires
        now.valid(),
    ensures
        reaction(stage, event, now).1 matches ActionView::Call {
            request: RequestView::CreateTimeEntry(entry),
            ..
        } ==> {
            &&& (stage is CredentialsToStart || stage == (StageView::Fetching {
                goal: Goal::Continue,
                client: stage->Fetching_client,
            }))
            &&& reaction(stage, event, now).0 is Saving
            &&& entry.is_running()
            &&& entry.id is None
            &&& entry.start == now
        },
        reaction(stage, event, now).1 matches ActionView::Call {
            request: RequestView::UpdateTimeEntry { id, entry },
            ..
        } ==> {
            &&& stage matches StageView::Fetching { goal: Goal::Stop, .. }
            &&& reaction(stage, event, now).0 is Saving
            &&& !entry.is_running()
            &&& entry.id == Some(id)
            &&& entry.stop == Some(now)
            &&& entry.duration >= 0
        },
{
}

/// An invocation that is over stays over.
pub proof fn law_done_is_final(stage: StageView, event: EventView, now: Instant)
    ensures
        reaction(stage, event, now).1 is Finish <==> reaction(stage, event, now).0 is Done,
        stage is Done ==> reaction(stage, event, now) == failed(
            FaultView::Engine(EngineError::InvalidState),
        ),
{
}

} // verus!
