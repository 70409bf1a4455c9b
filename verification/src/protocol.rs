//! What an agent and its host say to each other.
//!
//! An agent asks for one thing at a time, with an [`AgentAction`]. The host
//! carries it out and reports what came of it, with an [`AgentEvent`].

use crate::factsheet::{FactSheet, FactSheetView, ProjectScope, RouteObject, RouteView};
use crate::text::opt_text;
use vstd::prelude::*;

verus! {

/// The seconds that a probe may take.
pub const PROBE_TIMEOUT_SECS: u64 = 5;

/// The seconds that the server is given to start listening before the first
/// probe.
pub const WARM_UP_SECS: u64 = 5;

/// Why a run was given up.
#[derive(Debug, Clone, Copy, PartialEq, Eq, Structural)]
pub enum FatalError {
    /// The gateway could not be reached, not even at the second attempt.
    GatewayUnavailable,
    /// The gateway answered, but not in the form that was asked for.
    UndecodableReply,
    /// The user did not allow the generated code to be run.
    UnsafeCodeDeclined,
    /// The code did not build, and neither did the two corrections of it.
    TooManyBugs,
    /// The server could not be reached on one of its routes.
    ServerUnreachable,
    /// The URLs were to be tested, but the document holds no list of them.
    MissingUrls,
    /// The host reported something that the agent was not waiting for.
    OutOfTurn,
}

/// What a probe of one URL gave.
#[derive(Debug, Clone, Copy, PartialEq, Eq, Structural)]
pub enum ProbeOutcome {
    /// The server answered with this status code.
    Status(u16),
    /// No answer came: the connection failed or timed out.
    TransportError,
}

/// The status code of a healthy answer.
pub const STATUS_OK: u16 = 200;

/// A probe is healthy when the server answered with status 200.
pub open spec fn is_healthy(outcome: ProbeOutcome) -> bool {
    outcome == ProbeOutcome::Status(STATUS_OK)
}

impl ProbeOutcome {
    /// Whether the server answered with status 200.
    pub fn is_healthy(&self) -> (healthy: bool)
        ensures
            healthy == is_healthy(*self),
    {
        match self {
            ProbeOutcome::Status(code) => *code == STATUS_OK,
            ProbeOutcome::TransportError => false,
        }
    }
}

/// A question for the gateway, with the parts of its context that the agent
/// supplies.
#[derive(Debug, Clone, PartialEq)]
pub enum GatewayTask {
    /// Decide the scope of the project that `description` describes.
    ProjectScope { description: String },
    /// Name the outside URLs that the project needs.
    SiteUrls { description: String },
    /// Write the server for `description`, starting from the code template.
    InitialCode { description: String },
    /// Improve the code of `document`, with the whole document as
    /// background.
    ImprovedCode { document: FactSheet },
    /// Correct `code`, which failed to build with `bug_report`.
    FixedCode { code: Option<String>, bug_report: Option<String> },
    /// List the endpoints of the code that was built.
    RestApiEndpoints,
}

/// The mathematical model of a [`GatewayTask`].
pub enum GatewayTaskView {
    ProjectScope { description: Seq<char> },
    SiteUrls { description: Seq<char> },
    InitialCode { description: Seq<char> },
    ImprovedCode { document: FactSheetView },
    FixedCode { code: Option<Seq<char>>, bug_report: Option<Seq<char>> },
    RestApiEndpoints,
}

impl View for GatewayTask {
    type V = GatewayTaskView;

    open spec fn view(&self) -> GatewayTaskView {
        match self {
            GatewayTask::ProjectScope { description } => GatewayTaskView::ProjectScope {
                description: description@,
            },
            GatewayTask::SiteUrls { description } => GatewayTaskView::SiteUrls {
                description: description@,
            },
            GatewayTask::InitialCode { description } => GatewayTaskView::InitialCode {
                description: description@,
            },
            GatewayTask::ImprovedCode { document } => GatewayTaskView::ImprovedCode {
                document: document@,
            },
            GatewayTask::FixedCode { code, bug_report } => GatewayTaskView::FixedCode {
                code: opt_text(*code),
                bug_report: opt_text(*bug_report),
            },
            GatewayTask::RestApiEndpoints => GatewayTaskView::RestApiEndpoints,
        }
    }
}

/// The name under which each task's prompt is known.
pub open spec fn task_name(task: GatewayTaskView) -> Seq<char> {
    match task {
        GatewayTaskView::ProjectScope { .. } => "print_project_scope"@,
        GatewayTaskView::SiteUrls { .. } => "print_site_urls"@,
        GatewayTaskView::InitialCode { .. } => "print_backend_webserver_code"@,
        GatewayTaskView::ImprovedCode { .. } => "print_improved_webserver_code"@,
        GatewayTaskView::FixedCode { .. } => "print_fixed_code"@,
        GatewayTaskView::RestApiEndpoints => "print_rest_api_endpoints"@,
    }
}

impl GatewayTask {
    /// The name under which the task's prompt is known.
    pub fn name(&self) -> (name: &'static str)
        ensures
            name@ == task_name(self@),
    {
        match self {
            GatewayTask::ProjectScope { .. } => "print_project_scope",
            GatewayTask::SiteUrls { .. } => "print_site_urls",
            GatewayTask::InitialCode { .. } => "print_backend_webserver_code",
            GatewayTask::ImprovedCode { .. } => "print_improved_webserver_code",
            GatewayTask::FixedCode { .. } => "print_fixed_code",
            GatewayTask::RestApiEndpoints => "print_rest_api_endpoints",
        }
    }
}

/// What the host reports to an agent.
#[derive(Debug, Clone, PartialEq)]
pub enum AgentEvent {
    /// The last request was carried out and there is nothing to report; also
    /// the event that starts an agent.
    Proceed,
    /// The gateway's answer, as text.
    GatewayText(String),
    /// The gateway's answer, decoded as a scope.
    ScopeDecoded(ProjectScope),
    /// The gateway's answer, decoded as a list of URLs.
    UrlsDecoded(Vec<String>),
    /// The gateway's answer `raw`, decoded as a list of routes.
    RoutesDecoded { raw: String, routes: Vec<RouteObject> },
    /// The gateway could not be reached, not even at the second attempt.
    GatewayFailed,
    /// The gateway's answer could not be decoded.
    DecodeFailed,
    /// The user's answer to whether the generated code may be run.
    Confirmation(bool),
    /// The build ended; `stderr` is what it wrote to its error stream.
    BuildFinished { success: bool, stderr: String },
    /// A probe ended.
    Probed(ProbeOutcome),
}

/// The mathematical model of an [`AgentEvent`].
pub enum AgentEventView {
    Proceed,
    GatewayText(Seq<char>),
    ScopeDecoded(ProjectScope),
    UrlsDecoded(Seq<Seq<char>>),
    RoutesDecoded { raw: Seq<char>, routes: Seq<RouteView> },
    GatewayFailed,
    DecodeFailed,
    Confirmation(bool),
    BuildFinished { success: bool, stderr: Seq<char> },
    Probed(ProbeOutcome),
}

impl View for AgentEvent {
    type V = AgentEventView;

    open spec fn view(&self) -> AgentEventView {
        match self {
            AgentEvent::Proceed => AgentEventView::Proceed,
            AgentEvent::GatewayText(text) => AgentEventView::GatewayText(text@),
            AgentEvent::ScopeDecoded(scope) => AgentEventView::ScopeDecoded(*scope),
            AgentEvent::UrlsDecoded(urls) => AgentEventView::UrlsDecoded(urls.deep_view()),
            AgentEvent::RoutesDecoded { raw, routes } => AgentEventView::RoutesDecoded {
                raw: raw@,
                routes: routes.deep_view(),
            },
            AgentEvent::GatewayFailed => AgentEventView::GatewayFailed,
            AgentEvent::DecodeFailed => AgentEventView::DecodeFailed,
            AgentEvent::Confirmation(yes) => AgentEventView::Confirmation(*yes),
            AgentEvent::BuildFinished { success, stderr } => AgentEventView::BuildFinished {
                success: *success,
                stderr: stderr@,
            },
            AgentEvent::Probed(outcome) => AgentEventView::Probed(*outcome),
        }
    }
}

/// What an agent asks its host to do next.
#[derive(Debug, Clone, PartialEq)]
pub enum AgentAction {
    /// Put the task to the gateway and report its answer.
    AskGateway(GatewayTask),
    /// Write `contents` to the file that holds the generated code.
    PersistCode { contents: String },
    /// Ask the user whether the generated code may be run.
    ConfirmSafeCode,
    /// Build the generated code.
    BuildProject,
    /// Start the server that was built.
    StartServer,
    /// Wait for `seconds`.
    WarmUp { seconds: u64 },
    /// Request `url` and report the outcome; give up after `timeout_secs`.
    Probe { url: String, timeout_secs: u64 },
    /// Write `contents` to the file that holds the endpoint schema.
    PersistEndpoints { contents: String },
    /// Stop the server.
    StopServer,
    /// Nothing: the agent has finished.
    Finish,
    /// Nothing: the run has failed.
    Abort(FatalError),
}

/// The mathematical model of an [`AgentAction`].
pub enum AgentActionView {
    AskGateway(GatewayTaskView),
    PersistCode { contents: Seq<char> },
    ConfirmSafeCode,
    BuildProject,
    StartServer,
    WarmUp { seconds: u64 },
    Probe { url: Seq<char>, timeout_secs: u64 },
    PersistEndpoints { contents: Seq<char> },
    StopServer,
    Finish,
    Abort(FatalError),
}

impl View for AgentAction {
    type V = AgentActionView;

    open spec fn view(&self) -> AgentActionView {
        match self {
            AgentAction::AskGateway(task) => AgentActionView::AskGateway(task@),
            AgentAction::PersistCode { contents } => AgentActionView::PersistCode {
                contents: contents@,
            },
            AgentAction::ConfirmSafeCode => AgentActionView::ConfirmSafeCode,
            AgentAction::BuildProject => AgentActionView::BuildProject,
            AgentAction::StartServer => AgentActionView::StartServer,
            AgentAction::WarmUp { seconds } => AgentActionView::WarmUp { seconds: *seconds },
            AgentAction::Probe { url, timeout_secs } => AgentActionView::Probe {
                url: url@,
                timeout_secs: *timeout_secs,
            },
            AgentAction::PersistEndpoints { contents } => AgentActionView::PersistEndpoints {
                contents: contents@,
            },
            AgentAction::StopServer => AgentActionView::StopServer,
            AgentAction::Finish => AgentActionView::Finish,
            AgentAction::Abort(error) => AgentActionView::Abort(*error),
        }
    }
}

/// An action that ends an agent's part in the run.
pub open spec fn is_terminal(action: AgentActionView) -> bool {
    action is Finish || action is Abort
}

} // verus!
