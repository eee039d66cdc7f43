//! The run of the program as a state machine. The driver performs each
//! [`Action`] (it reads the token file, talks to the service, prompts the
//! operator) and reports what came of it as an [`Event`]; the machine decides
//! what is done next.
//!
//! A run begins by reading the token file. If a refresh secret loads from it
//! the session is resumed: the client is rebuilt from the secret, then the
//! playlist and all its tracks are fetched. Otherwise a new session is
//! authorized: the operator opens the authorization URL, pastes the URL that
//! the browser was redirected to, the code in it is exchanged for a token,
//! and the refresh secret is written to the token file.

use crate::callback::{
    has_key, interpret, redirect_without_code_or_state_is_refused, url_query, InputErrorModel,
    Query, CODE_KEY, STATE_KEY,
};
use crate::prompt::Prompt;
use crate::session::{
    bootstrap, redirect_uri_fault, selected_path, ConfigError, CredentialsModel,
    SessionCredentials, SessionPath, SessionPathModel, Setting,
};
use crate::token::{file_content, json_string, token_file_content};
use vstd::prelude::*;

verus! {

/// Shown above the authorization URL.
pub const AUTHORIZATION_HEADING: &'static str =
    "Open the following URL with the account that should authorize the session:";

/// Shown when a new session has been authorized.
pub const RERUN_NOTICE: &'static str = "Run the program again to use the refresh token";

/// What a warning about a token file that was not written begins with.
pub const SAVE_WARNING: &'static str = "Failed to save Spotify token: ";

/// The reason for aborting on an event that does not answer the pending
/// action.
pub const OUT_OF_TURN: &'static str = "event does not answer the pending action";

/// Where a run stands: which action the driver has been handed and not yet
/// answered.
#[derive(Clone, Copy, Debug, PartialEq, Eq, Structural)]
pub enum Stage {
    /// The token file is being read.
    Bootstrap,
    /// Resuming: the client is being rebuilt from the refresh secret.
    Reconnecting,
    /// Resuming: the playlist identifier is being looked up.
    ReadingPlaylistId,
    /// Resuming: the playlist is being fetched.
    FetchingPlaylist,
    /// Resuming: the tracks of the playlist are being fetched.
    FetchingTracks,
    /// New session: the authorization URL is being built and shown.
    Authorizing,
    /// New session: a line from the operator is awaited.
    Prompting,
    /// New session: the code is being exchanged for a token.
    Exchanging,
    /// New session: the token file is being written.
    Saving,
    /// The run is over.
    Finished,
}

/// What the driver reports back after performing an action.
#[derive(Clone, Debug, PartialEq, Eq)]
pub enum Event {
    /// Answers [`Action::ReadTokenFile`]: the content of the file, or `None`
    /// if it is absent or unreadable.
    TokenFile { content: Option<Vec<u8>> },
    /// Answers [`Action::ReadSetting`]: the value, or `None` if there is none.
    Setting { value: Option<String> },
    /// Answers [`Action::ReadLine`]: the line as read, terminator included.
    Line { text: String },
    /// Answers [`Action::Exchange`]: the exchange succeeded, and the token
    /// state of the client holds this refresh secret, if any.
    Authenticated { refresh_secret: Option<String> },
    /// The action succeeded and has nothing to report.
    Completed,
    /// The action failed.
    Failed { reason: String },
}

/// Mathematical value of an [`Event`].
pub enum EventModel {
    TokenFile { content: Option<Seq<u8>> },
    Setting { value: Option<Seq<char>> },
    Line { text: Seq<char> },
    Authenticated { refresh_secret: Option<Seq<char>> },
    Completed,
    Failed { reason: Seq<char> },
}

impl View for Event {
    type V = EventModel;

    open spec fn view(&self) -> EventModel {
        match self {
            Event::TokenFile { content } => EventModel::TokenFile {
                content: match content {
                    Some(bytes) => Some(bytes@),
                    None => None,
                },
            },
            Event::Setting { value } => EventModel::Setting { value: value.deep_view() },
            Event::Line { text } => EventModel::Line { text: text@ },
            Event::Authenticated { refresh_secret } => EventModel::Authenticated {
                refresh_secret: refresh_secret.deep_view(),
            },
            Event::Completed => EventModel::Completed,
            Event::Failed { reason } => EventModel::Failed { reason: reason@ },
        }
    }
}

/// What the driver is to do next.
#[derive(Clone, Debug, PartialEq, Eq)]
pub enum Action {
    /// Read the token file and report its content.
    ReadTokenFile,
    /// Rebuild an authenticated client from the refresh secret, with no
    /// scopes named.
    Reconnect {
        client_id: String,
        client_secret: String,
        refresh_token: String,
        auto_refresh: bool,
    },
    /// Look a setting up and report its value.
    ReadSetting { setting: Setting },
    /// Fetch the playlist.
    FetchPlaylist { playlist_id: String },
    /// Fetch all the tracks of the playlist that was fetched.
    FetchTracks,
    /// Build the client and its authorization URL, and show the URL on
    /// standard output under [`AUTHORIZATION_HEADING`].
    Authorize {
        client_id: String,
        client_secret: String,
        redirect_uri: String,
        scopes: Vec<String>,
        auto_refresh: bool,
    },
    /// Show the diagnostic, if any, and the prompt on standard error, then
    /// read one line from standard input.
    ReadLine { diagnostic: Option<String> },
    /// Exchange the authorization code for a token; the service checks the
    /// state against the one in the authorization URL.
    Exchange { code: String, state: String },
    /// Create or truncate the token file and write the content to it.
    WriteTokenFile { content: Vec<u8> },
    /// End the run with success: log the warning, if any, and show the notice,
    /// if any, on standard output.
    Exit { warning: Option<String>, notice: Option<String> },
    /// End the run with failure, reporting the reason.
    Abort { reason: String },
}

/// Mathematical value of an [`Action`].
pub enum ActionModel {
    ReadTokenFile,
    Reconnect {
        client_id: Seq<char>,
        client_secret: Seq<char>,
        refresh_token: Seq<char>,
        auto_refresh: bool,
    },
    ReadSetting { setting: Setting },
    FetchPlaylist { playlist_id: Seq<char> },
    FetchTracks,
    Authorize {
        client_id: Seq<char>,
        client_secret: Seq<char>,
        redirect_uri: Seq<char>,
        scopes: Seq<Seq<char>>,
        auto_refresh: bool,
    },
    ReadLine { diagnostic: Option<Seq<char>> },
    Exchange { code: Seq<char>, state: Seq<char> },
    WriteTokenFile { content: Seq<u8> },
    Exit { warning: Option<Seq<char>>, notice: Option<Seq<char>> },
    Abort { reason: Seq<char> },
}

impl View for Action {
    type V = ActionModel;

    open spec fn view(&self) -> ActionModel {
        match self {
            Action::ReadTokenFile => ActionModel::ReadTokenFile,
            Action::Reconnect { client_id, client_secret, refresh_token, auto_refresh } => {
                ActionModel::Reconnect {
                    client_id: client_id@,
                    client_secret: client_secret@,
                    refresh_token: refresh_token@,
                    auto_refresh: *auto_refresh,
                }
            },
            Action::ReadSetting { setting } => ActionModel::ReadSetting { setting: *setting },
            Action::FetchPlaylist { playlist_id } => ActionModel::FetchPlaylist {
                playlist_id: playlist_id@,
            },
            Action::FetchTracks => ActionModel::FetchTracks,
            Action::Authorize { client_id, client_secret, redirect_uri, scopes, auto_refresh } => {
                ActionModel::Authorize {
                    client_id: client_id@,
                    client_secret: client_secret@,
                    redirect_uri: redirect_uri@,
                    scopes: scopes.deep_view(),
                    auto_refresh: *auto_refresh,
                }
            },
            Action::ReadLine { diagnostic } => ActionModel::ReadLine {
                diagnostic: diagnostic.deep_view(),
            },
            Action::Exchange { code, state } => ActionModel::Exchange {
                code: code@,
                state: state@,
            },
            Action::WriteTokenFile { content } => ActionModel::WriteTokenFile { content: content@ },
            Action::Exit { warning, notice } => ActionModel::Exit {
                warning: warning.deep_view(),
                notice: notice.deep_view(),
            },
            Action::Abort { reason } => ActionModel::Abort { reason: reason@ },
        }
    }
}

/// A run in progress.
#[derive(Clone, Debug, PartialEq, Eq)]
pub struct Workflow {
    credentials: SessionCredentials,
    stage: Stage,
    prompt: Prompt,
}

/// Mathematical value of a [`Workflow`]: the credentials it was started
/// with, its stage, and all the text the operator has entered at the prompt.
pub struct WorkflowModel {
    pub credentials: CredentialsModel,
    pub stage: Stage,
    pub entered: Seq<char>,
}

impl WorkflowModel {
    /// The same run at another stage.
    pub open spec fn at(self, stage: Stage) -> WorkflowModel {
        WorkflowModel { stage, ..self }
    }
}

impl View for Workflow {
    type V = WorkflowModel;

    closed spec fn view(&self) -> WorkflowModel {
        WorkflowModel {
            credentials: self.credentials@,
            stage: self.stage,
            entered: self.prompt@,
        }
    }
}

/// A run that has been started with `credentials` and not yet advanced.
pub open spec fn initial(credentials: CredentialsModel) -> WorkflowModel {
    WorkflowModel { credentials, stage: Stage::Bootstrap, entered: Seq::empty() }
}

/// The end of a run on an event that its stage has no use for: a failure is
/// fatal and its reason is reported, anything else is out of turn.
pub open spec fn halt(run: WorkflowModel, event: EventModel) -> (WorkflowModel, ActionModel) {
    match event {
        EventModel::Failed { reason } => (run.at(Stage::Finished), ActionModel::Abort { reason }),
        _ => (run.at(Stage::Finished), ActionModel::Abort { reason: OUT_OF_TURN@ }),
    }
}

/// The successful end of a new session; `trouble`, if any, is what kept the
/// token file from being written, which is worth a warning and no more.
pub open spec fn conclude(run: WorkflowModel, trouble: Option<Seq<char>>) -> (
    WorkflowModel,
    ActionModel,
) {
    (
        run.at(Stage::Finished),
        ActionModel::Exit {
            warning: match trouble {
                Some(reason) => Some(SAVE_WARNING@ + reason),
                None => None,
            },
            notice: Some(RERUN_NOTICE@),
        },
    )
}

/// The error of a resumed session that finds no playlist identifier.
pub open spec fn missing_playlist_id() -> ConfigError {
    ConfigError { missing: Setting::PlaylistId }
}

/// The start of a new session: the redirect URI has to be a valid URL, and
/// the run fails at once if it is not.
pub open spec fn begin_new_session(run: WorkflowModel) -> (WorkflowModel, ActionModel) {
    match redirect_uri_fault(run.credentials.redirect_uri) {
        Some(reason) => (run.at(Stage::Finished), ActionModel::Abort { reason }),
        None => (
            run.at(Stage::Authorizing),
            ActionModel::Authorize {
                client_id: run.credentials.client_id,
                client_secret: run.credentials.client_secret,
                redirect_uri: run.credentials.redirect_uri,
                scopes: run.credentials.scopes,
                auto_refresh: true,
            },
        ),
    }
}

/// The transition function: the run after `event`, and the action to perform
/// next.
pub open spec fn step(run: WorkflowModel, event: EventModel) -> (WorkflowModel, ActionModel) {
    match (run.stage, event) {
        (Stage::Bootstrap, EventModel::TokenFile { content }) => match selected_path(content) {
            SessionPathModel::Resume { refresh_secret } => (
                run.at(Stage::Reconnecting),
                ActionModel::Reconnect {
                    client_id: run.credentials.client_id,
                    client_secret: run.credentials.client_secret,
                    refresh_token: refresh_secret,
                    auto_refresh: true,
                },
            ),
            SessionPathModel::NewSession => begin_new_session(run),
        },
        (Stage::Reconnecting, EventModel::Completed) => (
            run.at(Stage::ReadingPlaylistId),
            ActionModel::ReadSetting { setting: Setting::PlaylistId },
        ),
        (Stage::ReadingPlaylistId, EventModel::Setting { value }) => match value {
            Some(playlist_id) => (
                run.at(Stage::FetchingPlaylist),
                ActionModel::FetchPlaylist { playlist_id },
            ),
            None => (
                run.at(Stage::Finished),
                ActionModel::Abort { reason: missing_playlist_id().text() },
            ),
        },
        (Stage::FetchingPlaylist, EventModel::Completed) => (
            run.at(Stage::FetchingTracks),
            ActionModel::FetchTracks,
        ),
        (Stage::FetchingTracks, EventModel::Completed) => (
            run.at(Stage::Finished),
            ActionModel::Exit { warning: None, notice: None },
        ),
        (Stage::Authorizing, EventModel::Completed) => (
            run.at(Stage::Prompting),
            ActionModel::ReadLine { diagnostic: None },
        ),
        (Stage::Prompting, EventModel::Line { text }) => {
            let entered = run.entered + text;
            match interpret(url_query(entered)) {
                Ok(callback) => (
                    WorkflowModel { stage: Stage::Exchanging, entered, ..run },
                    ActionModel::Exchange { code: callback.code, state: callback.state },
                ),
                Err(fault) => (
                    WorkflowModel { stage: Stage::Prompting, entered, ..run },
                    ActionModel::ReadLine { diagnostic: Some(fault.message()) },
                ),
            }
        },
        (Stage::Exchanging, EventModel::Authenticated { refresh_secret }) => match file_content(
            refresh_secret,
        ) {
            Ok(content) => (run.at(Stage::Saving), ActionModel::WriteTokenFile { content }),
            Err(fault) => conclude(run, Some(fault.message())),
        },
        (Stage::Saving, EventModel::Completed) => conclude(run, None),
        (Stage::Saving, EventModel::Failed { reason }) => conclude(run, Some(reason)),
        _ => halt(run, event),
    }
}

impl Workflow {
    /// Starts a run. The first thing to do is to read the token file.
    pub fn start(credentials: SessionCredentials) -> (begun: (Workflow, Action))
        ensures
            begun.0@ == initial(credentials@),
            begun.1@ == ActionModel::ReadTokenFile,
    {
        let run = Workflow { credentials, stage: Stage::Bootstrap, prompt: Prompt::new() };
        (run, Action::ReadTokenFile)
    }

    /// The stage of the run.
    pub fn stage(&self) -> (stage: Stage)
        ensures
            stage == self@.stage,
    {
        self.stage
    }

    /// Whether the run is over.
    pub fn is_finished(&self) -> (finished: bool)
        ensures
            finished == (self@.stage == Stage::Finished),
    {
        match self.stage {
            Stage::Finished => true,
            _ => false,
        }
    }

    /// The text that the operator has entered at the prompt so far.
    pub fn entered(&self) -> (text: &str)
        ensures
            text@ == self@.entered,
    {
        self.prompt.entered()
    }

    fn stopped_by(self, event: Event) -> (next: (Workflow, Action))
        ensures
            (next.0@, next.1@) == halt(self@, event@),
    {
        let reason = match event {
            Event::Failed { reason } => reason,
            _ => OUT_OF_TURN.to_owned(),
        };
        (
            Workflow { credentials: self.credentials, stage: Stage::Finished, prompt: self.prompt },
            Action::Abort { reason },
        )
    }

    fn concluded(self, trouble: Option<String>) -> (next: (Workflow, Action))
        ensures
            (next.0@, next.1@) == conclude(self@, trouble.deep_view()),
    {
        let warning = match trouble {
            Some(reason) => Some(SAVE_WARNING.to_owned().concat(reason.as_str())),
            None => None,
        };
        (
            Workflow { credentials: self.credentials, stage: Stage::Finished, prompt: self.prompt },
            Action::Exit { warning, notice: Some(RERUN_NOTICE.to_owned()) },
        )
    }

    fn moved_to(self, stage: Stage) -> (moved: Workflow)
        ensures
            moved@ == self@.at(stage),
    {
        Workflow { credentials: self.credentials, stage, prompt: self.prompt }
    }

    /// Takes the driver's report on the pending action and decides what is
    /// done next. An event that does not answer the pending action ends the
    /// run.
    pub fn advance(self, event: Event) -> (next: (Workflow, Action))
        ensures
            (next.0@, next.1@) == step(self@, event@),
    {
        match (self.stage, event) {
            (Stage::Bootstrap, Event::TokenFile { content }) => {
                let path = match &content {
                    Some(bytes) => bootstrap(Some(bytes.as_slice())),
                    None => bootstrap(None),
                };
                match path {
                    SessionPath::Resume { refresh_secret } => {
                        let action = Action::Reconnect {
                            client_id: self.credentials.client_id.clone(),
                            client_secret: self.credentials.client_secret.clone(),
                            refresh_token: refresh_secret,
                            auto_refresh: true,
                        };
                        (self.moved_to(Stage::Reconnecting), action)
                    },
                    SessionPath::NewSession => match self.credentials.check_redirect_uri() {
                        Some(reason) => (self.moved_to(Stage::Finished), Action::Abort { reason }),
                        None => {
                            let action = Action::Authorize {
                                client_id: self.credentials.client_id.clone(),
                                client_secret: self.credentials.client_secret.clone(),
                                redirect_uri: self.credentials.redirect_uri.clone(),
                                scopes: self.credentials.scopes.clone(),
                                auto_refresh: true,
                            };
                            (self.moved_to(Stage::Authorizing), action)
                        },
                    },
                }
            },
            (Stage::Reconnecting, Event::Completed) => (
                self.moved_to(Stage::ReadingPlaylistId),
                Action::ReadSetting { setting: Setting::PlaylistId },
            ),
            (Stage::ReadingPlaylistId, Event::Setting { value }) => match value {
                Some(playlist_id) => (
                    self.moved_to(Stage::FetchingPlaylist),
                    Action::FetchPlaylist { playlist_id },
                ),
                None => {
                    let reason = (ConfigError { missing: Setting::PlaylistId }).message();
                    (self.moved_to(Stage::Finished), Action::Abort { reason })
                },
            },
            (Stage::FetchingPlaylist, Event::Completed) => (
                self.moved_to(Stage::FetchingTracks),
                Action::FetchTracks,
            ),
            (Stage::FetchingTracks, Event::Completed) => (
                self.moved_to(Stage::Finished),
                Action::Exit { warning: None, notice: None },
            ),
            (Stage::Authorizing, Event::Completed) => (
                self.moved_to(Stage::Prompting),
                Action::ReadLine { diagnostic: None },
            ),
            (Stage::Prompting, Event::Line { text }) => {
                let mut prompt = self.prompt;
                match prompt.feed(text.as_str()) {
                    Ok(payload) => {
                        let stage = Stage::Exchanging;
                        (
                            Workflow { credentials: self.credentials, stage, prompt },
                            Action::Exchange { code: payload.code, state: payload.state },
                        )
                    },
                    Err(error) => {
                        let stage = Stage::Prompting;
                        (
                            Workflow { credentials: self.credentials, stage, prompt },
                            Action::ReadLine { diagnostic: Some(error.message()) },
                        )
                    },
                }
            },
            (Stage::Exchanging, Event::Authenticated { refresh_secret }) => {
                let content = match &refresh_secret {
                    Some(secret) => token_file_content(Some(secret.as_str())),
                    None => token_file_content(None),
                };
                match content {
                    Ok(content) => {
                        (self.moved_to(Stage::Saving), Action::WriteTokenFile { content })
                    },
                    Err(error) => self.concluded(Some(error.message())),
                }
            },
            (Stage::Saving, Event::Completed) => self.concluded(None),
            (Stage::Saving, Event::Failed { reason }) => self.concluded(Some(reason)),
            (_, event) => self.stopped_by(event),
        }
    }
}

/// Without a token file a run always takes the new-session path.
pub proof fn absent_token_file_selects_new_session(run: WorkflowModel)
    requires
        run.stage == Stage::Bootstrap,
    ensures
        selected_path(None) == SessionPathModel::NewSession,
        step(run, EventModel::TokenFile { content: None }) == begin_new_session(run),
{
}

/// A token file that does not hold one JSON string also selects the
/// new-session path: the run goes on as if there were no file.
pub proof fn malformed_token_file_selects_new_session(run: WorkflowModel, content: Seq<u8>)
    requires
        run.stage == Stage::Bootstrap,
        json_string(content) is None,
    ensures
        selected_path(Some(content)) == SessionPathModel::NewSession,
        step(run, EventModel::TokenFile { content: Some(content) }) == begin_new_session(run),
{
}

/// A token file that holds a refresh secret selects the resume path, and the
/// secret is what the client is rebuilt from, with automatic refresh switched
/// on.
pub proof fn stored_secret_selects_resume(run: WorkflowModel, content: Seq<u8>, secret: Seq<char>)
    requires
        run.stage == Stage::Bootstrap,
        json_string(content) == Some(secret),
    ensures
        step(run, EventModel::TokenFile { content: Some(content) }) == (
            run.at(Stage::Reconnecting),
            ActionModel::Reconnect {
                client_id: run.credentials.client_id,
                client_secret: run.credentials.client_secret,
                refresh_token: secret,
                auto_refresh: true,
            },
        ),
{
}

/// The prompt never ends on a line that leaves the text entered so far
/// without a payload: the run stays at the prompt, keeps all the text, and a
/// diagnostic is shown before the operator is asked again.
pub proof fn prompt_repeats_without_payload(run: WorkflowModel, line: Seq<char>)
    requires
        run.stage == Stage::Prompting,
        interpret(url_query(run.entered + line)) is Err,
    ensures
        step(run, EventModel::Line { text: line }).0 == (WorkflowModel {
            entered: run.entered + line,
            ..run
        }),
        step(run, EventModel::Line { text: line }).1 == (ActionModel::ReadLine {
            diagnostic: Some(interpret(url_query(run.entered + line))->Err_0.message()),
        }),
{
}

/// In particular a URL that parses but lacks `code` or lacks `state` keeps
/// the run at the prompt, with the diagnostic for missing parameters.
pub proof fn prompt_repeats_on_missing_parameter(run: WorkflowModel, line: Seq<char>, pairs: Query)
    requires
        run.stage == Stage::Prompting,
        url_query(run.entered + line) == Ok::<Query, Seq<char>>(pairs),
        !has_key(pairs, CODE_KEY@) || !has_key(pairs, STATE_KEY@),
    ensures
        step(run, EventModel::Line { text: line }).0.stage == Stage::Prompting,
        step(run, EventModel::Line { text: line }).1 == (ActionModel::ReadLine {
            diagnostic: Some(InputErrorModel::MissingParameters.message()),
        }),
{
    redirect_without_code_or_state_is_refused(run.entered + line, pairs);
}

/// The text entered at the prompt is never cleared: whatever happens, the
/// run afterwards holds what it held before, followed by the line if one was
/// read at the prompt.
pub proof fn entered_text_only_grows(run: WorkflowModel, event: EventModel)
    ensures
        step(run, event).0.credentials == run.credentials,
        run.stage == Stage::Prompting && event is Line ==> step(run, event).0.entered
            == run.entered + event->text,
        !(run.stage == Stage::Prompting && event is Line) ==> step(run, event).0.entered
            == run.entered,
{
}

/// Whether a stage belongs to the resume path.
pub open spec fn resuming(stage: Stage) -> bool {
    stage == Stage::Reconnecting || stage == Stage::ReadingPlaylistId || stage
        == Stage::FetchingPlaylist || stage == Stage::FetchingTracks
}

/// Whether a stage belongs to the new-session path.
pub open spec fn authorizing(stage: Stage) -> bool {
    stage == Stage::Authorizing || stage == Stage::Prompting || stage == Stage::Exchanging
        || stage == Stage::Saving
}

/// Whether an action ends the run.
pub open spec fn final_action(action: ActionModel) -> bool {
    action is Exit || action is Abort
}

/// Whether an action is one of those that resuming a session consists of.
pub open spec fn resume_action(action: ActionModel) -> bool {
    action is ReadSetting || action is FetchPlaylist || action is FetchTracks
}

/// Whether an action is one of those that authorizing a session consists of.
pub open spec fn authorization_action(action: ActionModel) -> bool {
    action is ReadLine || action is Exchange || action is WriteTokenFile
}

/// The two paths never cross. Once a run resumes, all it does is look up the
/// playlist identifier and fetch; once it authorizes, all it does is prompt,
/// exchange and write the token file. Either way it goes on within its path
/// or ends; it ends exactly with a final action, and then it stays ended.
pub proof fn paths_never_cross(run: WorkflowModel, event: EventModel)
    ensures
        resuming(run.stage) ==> resuming(step(run, event).0.stage) && resume_action(
            step(run, event).1,
        ) || final_action(step(run, event).1),
        authorizing(run.stage) ==> authorizing(step(run, event).0.stage) && authorization_action(
            step(run, event).1,
        ) || final_action(step(run, event).1),
        run.stage == Stage::Finished ==> step(run, event).1 is Abort,
        final_action(step(run, event).1) <==> step(run, event).0.stage == Stage::Finished,
{
}

/// A failure reported while the token file is written does not fail the run:
/// the authorization has succeeded, so the run ends well, with a warning.
/// At every other stage a failure is fatal and its reason is reported.
pub proof fn only_saving_survives_failure(run: WorkflowModel, reason: Seq<char>)
    ensures
        step(run, EventModel::Failed { reason }).0.stage == Stage::Finished,
        run.stage == Stage::Saving ==> step(run, EventModel::Failed { reason }).1 == (
            ActionModel::Exit { warning: Some(SAVE_WARNING@ + reason), notice: Some(RERUN_NOTICE@) }
        ),
        run.stage != Stage::Saving ==> step(run, EventModel::Failed { reason }).1 == (
            ActionModel::Abort { reason }
        ),
{
}

} // verus!
