//! The backend developer: the agent that has the server code written,
//! has it corrected until it builds, and probes the routes of the running
//! server.

use crate::basic_agent::{AgentState, BasicAgent};
use crate::factsheet::{
    retain_static_get_routes, static_get_routes, FactSheet, FactSheetView, RouteObject, RouteView,
};
use crate::message::Message;
use crate::protocol::{
    AgentAction, AgentActionView, AgentEvent, AgentEventView, FatalError, GatewayTask,
    GatewayTaskView, ProbeOutcome, PROBE_TIMEOUT_SECS, STATUS_OK, WARM_UP_SECS,
};
use crate::text::{clone_opt_text, opt_text, replace_all, text_replaced};
use vstd::prelude::*;
use vstd::string::*;

verus! {

/// The number of failed builds that the agent answers with a correction. One
/// more failed build ends the run.
pub const MAX_BUG_COUNT: u8 = 2;

/// What the backend developer is waiting for.
#[derive(Debug, Clone, Copy, PartialEq, Eq, Structural)]
pub enum BackendStage {
    /// Nothing: the next phase has not been started.
    Idle,
    /// The gateway's answer to a request for code.
    AwaitingCode,
    /// The word that the code has been written to its file.
    AwaitingCodeSaved,
    /// The user's answer to whether the code may be run.
    AwaitingConfirmation,
    /// The end of the build.
    AwaitingBuild,
    /// The gateway's list of the endpoints.
    AwaitingRoutes,
    /// The word that the server has been started.
    AwaitingServer,
    /// The end of the warm-up delay.
    AwaitingWarmup,
    /// The outcome of a probe.
    AwaitingProbe,
    /// The word that the endpoint schema has been written to its file.
    AwaitingSchemaSaved,
    /// The word that the server has been stopped.
    AwaitingServerStop,
    /// Nothing: the agent has finished or failed.
    Closed,
}

/// The agent that writes, corrects and tests the server code.
#[derive(Debug)]
pub struct AgentBackendDeveloper {
    attributes: BasicAgent,
    bug_errors: Option<String>,
    bug_count: u8,
    stage: BackendStage,
    probe_routes: Vec<String>,
    probe_index: usize,
    schema_text: String,
    probe_warnings: Vec<String>,
    server_running: bool,
    failure: Option<FatalError>,
}

/// The mathematical model of an [`AgentBackendDeveloper`].
pub struct BackendView {
    pub objective: Seq<char>,
    pub position: Seq<char>,
    pub memory: Seq<Message>,
    /// The place in the lifecycle.
    pub state: AgentState,
    /// What the agent is waiting for.
    pub stage: BackendStage,
    /// The failed builds since the last build that succeeded.
    pub bug_count: nat,
    /// What the last failed build wrote to its error stream.
    pub bug_errors: Option<Seq<char>>,
    /// The paths of the routes that are probed, in the order of the probes.
    pub probe_routes: Seq<Seq<char>>,
    /// How many of them have been probed.
    pub probe_index: nat,
    /// The gateway's list of the endpoints, as it came.
    pub schema_text: Seq<char>,
    /// The paths of the routes that answered with another status than 200.
    pub probe_warnings: Seq<Seq<char>>,
    /// Whether the start of the server has been asked for, and its stop has
    /// not.
    pub server_running: bool,
    /// Why the run was given up, if it was.
    pub failure: Option<FatalError>,
}

/// The objective of the backend developer.
pub open spec fn backend_objective() -> Seq<char> {
    "Develops backend code for websever and json database"@
}

/// The position of the backend developer.
pub open spec fn backend_position() -> Seq<char> {
    "Backend developer"@
}

/// The backend developer before its first step.
pub open spec fn fresh_backend() -> BackendView {
    BackendView {
        objective: backend_objective(),
        position: backend_position(),
        memory: Seq::empty(),
        state: AgentState::Discovery,
        stage: BackendStage::Idle,
        bug_count: 0,
        bug_errors: None,
        probe_routes: Seq::empty(),
        probe_index: 0,
        schema_text: Seq::empty(),
        probe_warnings: Seq::empty(),
        server_running: false,
        failure: None,
    }
}

/// The stages in which the server is up.
pub open spec fn has_server(stage: BackendStage) -> bool {
    stage == BackendStage::AwaitingServer || stage == BackendStage::AwaitingWarmup || stage
        == BackendStage::AwaitingProbe || stage == BackendStage::AwaitingSchemaSaved
}

/// The stages that only a successful build leads to.
pub open spec fn is_past_build(stage: BackendStage) -> bool {
    stage == BackendStage::AwaitingRoutes || has_server(stage) || stage
        == BackendStage::AwaitingServerStop
}

/// The stages of the test phase.
pub open spec fn is_testing(stage: BackendStage) -> bool {
    stage == BackendStage::AwaitingConfirmation || stage == BackendStage::AwaitingBuild
        || is_past_build(stage)
}

/// What holds of a backend developer at all times.
pub open spec fn backend_wf(a: BackendView) -> bool {
    &&& a.bug_count <= MAX_BUG_COUNT + 1
    &&& a.bug_count > MAX_BUG_COUNT ==> a.stage == BackendStage::Closed && a.failure == Some(
        FatalError::TooManyBugs,
    )
    &&& is_past_build(a.stage) ==> a.bug_count == 0
    &&& a.state == AgentState::Finished ==> a.bug_count == 0
    &&& a.bug_count > 0 ==> a.bug_errors is Some
    &&& a.server_running <==> has_server(a.stage)
    &&& a.probe_index <= a.probe_routes.len()
    &&& a.stage == BackendStage::AwaitingProbe ==> a.probe_index < a.probe_routes.len()
    &&& a.failure is Some ==> a.stage == BackendStage::AwaitingServerStop || a.stage
        == BackendStage::Closed
    &&& a.stage == BackendStage::Closed && a.failure is None ==> a.state == AgentState::Finished
    &&& a.stage == BackendStage::AwaitingCode || a.stage == BackendStage::AwaitingCodeSaved
        ==> a.state == AgentState::Discovery || a.state == AgentState::Working
    &&& is_testing(a.stage) ==> a.state == AgentState::UnitTesting
}

/// The code without the fences that mark it as a code block.
pub open spec fn without_code_fences(code: Seq<char>) -> Seq<char> {
    text_replaced(text_replaced(code, "```rust"@, ""@), "```"@, ""@)
}

/// The address under which the server answers for the route `route`.
pub open spec fn endpoint_url_of(route: Seq<char>) -> Seq<char> {
    "http://localhost:8080"@ + route
}

/// The paths of `routes`, in their order.
pub open spec fn route_paths_of(routes: Seq<RouteView>) -> Seq<Seq<char>> {
    Seq::new(routes.len(), |i: int| routes[i].route)
}

/// The request for the next version of the code: while no build has failed,
/// an improvement, for which the whole document is the context; else a
/// correction, for which the code and the report of the last failed build
/// are.
pub open spec fn revision_task(a: BackendView, d: FactSheetView) -> GatewayTaskView {
    if a.bug_count == 0 {
        GatewayTaskView::ImprovedCode { document: d }
    } else {
        GatewayTaskView::FixedCode { code: d.backend_code, bug_report: a.bug_errors }
    }
}

/// Starts the phase that the lifecycle names.
pub open spec fn backend_begin(a: BackendView, d: FactSheetView) -> (BackendView, AgentActionView) {
    match a.state {
        AgentState::Discovery => (
            BackendView { stage: BackendStage::AwaitingCode, ..a },
            AgentActionView::AskGateway(
                GatewayTaskView::InitialCode { description: d.project_description },
            ),
        ),
        AgentState::Working => (
            BackendView { stage: BackendStage::AwaitingCode, ..a },
            AgentActionView::AskGateway(revision_task(a, d)),
        ),
        AgentState::UnitTesting => (
            BackendView { stage: BackendStage::AwaitingConfirmation, ..a },
            AgentActionView::ConfirmSafeCode,
        ),
        AgentState::Finished => (
            BackendView { stage: BackendStage::Closed, ..a },
            AgentActionView::Finish,
        ),
    }
}

/// Gives the run up. A server that is up is stopped first.
pub open spec fn backend_fail(a: BackendView, error: FatalError) -> (BackendView, AgentActionView) {
    if a.server_running {
        (
            BackendView {
                stage: BackendStage::AwaitingServerStop,
                server_running: false,
                failure: Some(error),
                ..a
            },
            AgentActionView::StopServer,
        )
    } else {
        (
            BackendView { stage: BackendStage::Closed, failure: Some(error), ..a },
            AgentActionView::Abort(error),
        )
    }
}

/// Probes the next route, or, when none is left, has the schema written.
pub open spec fn backend_next_probe(a: BackendView) -> (BackendView, AgentActionView) {
    if a.probe_index < a.probe_routes.len() {
        (
            BackendView { stage: BackendStage::AwaitingProbe, ..a },
            AgentActionView::Probe {
                url: endpoint_url_of(a.probe_routes[a.probe_index as int]),
                timeout_secs: PROBE_TIMEOUT_SECS,
            },
        )
    } else {
        (
            BackendView { stage: BackendStage::AwaitingSchemaSaved, ..a },
            AgentActionView::PersistEndpoints { contents: a.schema_text },
        )
    }
}

/// The lifecycle state that follows the one in which code was written.
pub open spec fn state_after_code(state: AgentState) -> AgentState {
    if state == AgentState::Discovery {
        AgentState::Working
    } else {
        AgentState::UnitTesting
    }
}

/// What the end of a build leads to.
pub open spec fn backend_after_build(
    a: BackendView,
    d: FactSheetView,
    success: bool,
    stderr: Seq<char>,
) -> (BackendView, AgentActionView) {
    if success {
        (
            BackendView { bug_count: 0, stage: BackendStage::AwaitingRoutes, ..a },
            AgentActionView::AskGateway(GatewayTaskView::RestApiEndpoints),
        )
    } else {
        let counted = BackendView {
            bug_count: a.bug_count + 1,
            bug_errors: Some(stderr),
            ..a
        };
        if counted.bug_count > MAX_BUG_COUNT {
            backend_fail(counted, FatalError::TooManyBugs)
        } else {
            backend_begin(BackendView { state: AgentState::Working, ..counted }, d)
        }
    }
}

/// What the outcome of a probe leads to.
pub open spec fn backend_after_probe(a: BackendView, outcome: ProbeOutcome) -> (
    BackendView,
    AgentActionView,
) {
    match outcome {
        ProbeOutcome::TransportError => backend_fail(a, FatalError::ServerUnreachable),
        ProbeOutcome::Status(code) => {
            let noted = if code == STATUS_OK {
                a
            } else {
                BackendView {
                    probe_warnings: a.probe_warnings.push(a.probe_routes[a.probe_index as int]),
                    ..a
                }
            };
            backend_next_probe(BackendView { probe_index: a.probe_index + 1, ..noted })
        },
    }
}

/// What the end of the server leads to: the failure that was waiting for it,
/// or the end of the agent's work.
pub open spec fn backend_after_stop(a: BackendView, stopped: bool) -> (
    BackendView,
    AgentActionView,
) {
    match a.failure {
        Some(error) => (
            BackendView { stage: BackendStage::Closed, ..a },
            AgentActionView::Abort(error),
        ),
        None => if stopped {
            (
                BackendView { stage: BackendStage::Closed, state: AgentState::Finished, ..a },
                AgentActionView::Finish,
            )
        } else {
            (
                BackendView {
                    stage: BackendStage::Closed,
                    failure: Some(FatalError::OutOfTurn),
                    ..a
                },
                AgentActionView::Abort(FatalError::OutOfTurn),
            )
        },
    }
}

/// The answer of a closed agent: how it ended.
pub open spec fn backend_closed(a: BackendView) -> AgentActionView {
    match a.failure {
        Some(error) => AgentActionView::Abort(error),
        None => AgentActionView::Finish,
    }
}

/// One step of the backend developer: the agent `a` and the document `d`
/// after the host has reported `e`, and what the agent asks for next.
pub open spec fn backend_step(a: BackendView, d: FactSheetView, e: AgentEventView) -> (
    BackendView,
    FactSheetView,
    AgentActionView,
) {
    let out_of_turn = backend_fail(a, FatalError::OutOfTurn);
    match a.stage {
        BackendStage::Idle => match e {
            AgentEventView::Proceed => (backend_begin(a, d).0, d, backend_begin(a, d).1),
            _ => (out_of_turn.0, d, out_of_turn.1),
        },
        BackendStage::AwaitingCode => match e {
            AgentEventView::GatewayText(code) => (
                BackendView { stage: BackendStage::AwaitingCodeSaved, ..a },
                FactSheetView { backend_code: Some(code), ..d },
                AgentActionView::PersistCode { contents: without_code_fences(code) },
            ),
            AgentEventView::GatewayFailed => {
                let failed = backend_fail(a, FatalError::GatewayUnavailable);
                (failed.0, d, failed.1)
            },
            _ => (out_of_turn.0, d, out_of_turn.1),
        },
        BackendStage::AwaitingCodeSaved => match e {
            AgentEventView::Proceed => {
                let begun = backend_begin(
                    BackendView { state: state_after_code(a.state), ..a },
                    d,
                );
                (begun.0, d, begun.1)
            },
            _ => (out_of_turn.0, d, out_of_turn.1),
        },
        BackendStage::AwaitingConfirmation => match e {
            AgentEventView::Confirmation(allowed) => if allowed {
                (
                    BackendView { stage: BackendStage::AwaitingBuild, ..a },
                    d,
                    AgentActionView::BuildProject,
                )
            } else {
                let failed = backend_fail(a, FatalError::UnsafeCodeDeclined);
                (failed.0, d, failed.1)
            },
            _ => (out_of_turn.0, d, out_of_turn.1),
        },
        BackendStage::AwaitingBuild => match e {
            AgentEventView::BuildFinished { success, stderr } => {
                let built = backend_after_build(a, d, success, stderr);
                (built.0, d, built.1)
            },
            _ => (out_of_turn.0, d, out_of_turn.1),
        },
        BackendStage::AwaitingRoutes => match e {
            AgentEventView::RoutesDecoded { raw, routes } => (
                BackendView {
                    stage: BackendStage::AwaitingServer,
                    schema_text: raw,
                    probe_routes: route_paths_of(static_get_routes(routes)),
                    probe_index: 0,
                    server_running: true,
                    ..a
                },
                FactSheetView { api_endpoint_schema: Some(static_get_routes(routes)), ..d },
                AgentActionView::StartServer,
            ),
            AgentEventView::GatewayFailed => {
                let failed = backend_fail(a, FatalError::GatewayUnavailable);
                (failed.0, d, failed.1)
            },
            AgentEventView::DecodeFailed => {
                let failed = backend_fail(a, FatalError::UndecodableReply);
                (failed.0, d, failed.1)
            },
            _ => (out_of_turn.0, d, out_of_turn.1),
        },
        BackendStage::AwaitingServer => match e {
            AgentEventView::Proceed => (
                BackendView { stage: BackendStage::AwaitingWarmup, ..a },
                d,
                AgentActionView::WarmUp { seconds: WARM_UP_SECS },
            ),
            _ => (out_of_turn.0, d, out_of_turn.1),
        },
        BackendStage::AwaitingWarmup => match e {
            AgentEventView::Proceed => (backend_next_probe(a).0, d, backend_next_probe(a).1),
            _ => (out_of_turn.0, d, out_of_turn.1),
        },
        BackendStage::AwaitingProbe => match e {
            AgentEventView::Probed(outcome) => {
                let probed = backend_after_probe(a, outcome);
                (probed.0, d, probed.1)
            },
            _ => (out_of_turn.0, d, out_of_turn.1),
        },
        BackendStage::AwaitingSchemaSaved => match e {
            AgentEventView::Proceed => (
                BackendView {
                    stage: BackendStage::AwaitingServerStop,
                    server_running: false,
                    ..a
                },
                d,
                AgentActionView::StopServer,
            ),
            _ => (out_of_turn.0, d, out_of_turn.1),
        },
        BackendStage::AwaitingServerStop => {
            let stopped = backend_after_stop(a, e is Proceed);
            (stopped.0, d, stopped.1)
        },
        BackendStage::Closed => (a, d, backend_closed(a)),
    }
}

/// Removes the fences that mark the code as a code block, as it is done
/// before the code is written to its file.
pub fn strip_code_fences(code: &str) -> (bare: String)
    ensures
        bare@ == without_code_fences(code@),
{
    let opened = replace_all(code, "```rust", "");
    replace_all(opened.as_str(), "```", "")
}

/// The address under which the server answers for the route `route`.
pub fn endpoint_url(route: &str) -> (url: String)
    ensures
        url@ == endpoint_url_of(route@),
{
    let mut url = String::from_str("http://localhost:8080");
    url.append(route);
    url
}

/// The paths of `routes`, in their order.
pub fn route_paths(routes: &Vec<RouteObject>) -> (paths: Vec<String>)
    ensures
        paths.deep_view() == route_paths_of(routes.deep_view()),
{
    let mut paths: Vec<String> = Vec::new();
    let mut i: usize = 0;
    while i < routes.len()
        invariant
            i <= routes.len(),
            paths.len() == i,
            forall|k: int| 0 <= k < i ==> paths[k]@ == routes[k].route@,
        decreases routes.len() - i,
    {
        paths.push(routes[i].route.clone());
        i = i + 1;
    }
    assert(paths.deep_view() =~= route_paths_of(routes.deep_view()));
    paths
}

impl View for AgentBackendDeveloper {
    type V = BackendView;

    closed spec fn view(&self) -> BackendView {
        BackendView {
            objective: self.attributes.objective@,
            position: self.attributes.position@,
            memory: self.attributes.memory@,
            state: self.attributes.state,
            stage: self.stage,
            bug_count: self.bug_count as nat,
            bug_errors: opt_text(self.bug_errors),
            probe_routes: self.probe_routes.deep_view(),
            probe_index: self.probe_index as nat,
            schema_text: self.schema_text@,
            probe_warnings: self.probe_warnings.deep_view(),
            server_running: self.server_running,
            failure: self.failure,
        }
    }
}

impl AgentBackendDeveloper {
    /// What holds of the agent at all times.
    pub open spec fn wf(&self) -> bool {
        backend_wf(self@)
    }

    /// A backend developer at the start of its lifecycle.
    pub fn new() -> (agent: Self)
        ensures
            agent.wf(),
            agent@ == fresh_backend(),
    {
        Self::starting_at(AgentState::Discovery)
    }

    /// A backend developer that takes its work up in the lifecycle state
    /// `state`, with no build failed so far.
    pub fn starting_at(state: AgentState) -> (agent: Self)
        ensures
            agent.wf(),
            agent@ == (BackendView { state, ..fresh_backend() }),
    {
        let attributes = BasicAgent {
            objective: String::from_str("Develops backend code for websever and json database"),
            position: String::from_str("Backend developer"),
            state,
            memory: Vec::new(),
        };
        let agent = AgentBackendDeveloper {
            attributes,
            bug_errors: None,
            bug_count: 0,
            stage: BackendStage::Idle,
            probe_routes: Vec::new(),
            probe_index: 0,
            schema_text: String::new(),
            probe_warnings: Vec::new(),
            server_running: false,
            failure: None,
        };
        assert(agent@.probe_routes =~= Seq::empty());
        assert(agent@.probe_warnings =~= Seq::empty());
        agent
    }

    /// The agent's attributes.
    pub fn get_attributes_from_agent(&self) -> (attributes: &BasicAgent)
        ensures
            attributes.objective@ == self@.objective,
            attributes.position@ == self@.position,
            attributes.memory@ == self@.memory,
            attributes.state == self@.state,
    {
        &self.attributes
    }

    /// The failed builds since the last build that succeeded.
    pub fn bug_count(&self) -> (count: u8)
        ensures
            count == self@.bug_count,
    {
        self.bug_count
    }

    /// What the last failed build wrote to its error stream.
    pub fn bug_errors(&self) -> (report: &Option<String>)
        ensures
            opt_text(*report) == self@.bug_errors,
    {
        &self.bug_errors
    }

    /// The paths of the routes that answered a probe with another status
    /// than 200.
    pub fn probe_warnings(&self) -> (warnings: &Vec<String>)
        ensures
            warnings.deep_view() == self@.probe_warnings,
    {
        &self.probe_warnings
    }

    /// Why the run was given up, if it was.
    pub fn failure(&self) -> (failure: Option<FatalError>)
        ensures
            failure == self@.failure,
    {
        self.failure
    }

    fn begin(&mut self, factsheet: &FactSheet) -> (action: AgentAction)
        requires
            backend_wf(BackendView { stage: BackendStage::Idle, ..old(self)@ }),
        ensures
            final(self).wf(),
            (final(self)@, action@) == backend_begin(old(self)@, factsheet@),
    {
        match self.attributes.state {
            AgentState::Discovery => {
                self.stage = BackendStage::AwaitingCode;
                AgentAction::AskGateway(
                    GatewayTask::InitialCode { description: factsheet.project_description.clone() },
                )
            },
            AgentState::Working => {
                self.stage = BackendStage::AwaitingCode;
                if self.bug_count == 0 {
                    AgentAction::AskGateway(
                        GatewayTask::ImprovedCode { document: factsheet.duplicate() },
                    )
                } else {
                    let code = clone_opt_text(&factsheet.backend_code);
                    let bug_report = clone_opt_text(&self.bug_errors);
                    AgentAction::AskGateway(GatewayTask::FixedCode { code, bug_report })
                }
            },
            AgentState::UnitTesting => {
                self.stage = BackendStage::AwaitingConfirmation;
                AgentAction::ConfirmSafeCode
            },
            AgentState::Finished => {
                self.stage = BackendStage::Closed;
                AgentAction::Finish
            },
        }
    }

    fn fail(&mut self, error: FatalError) -> (action: AgentAction)
        requires
            backend_wf(backend_fail(old(self)@, error).0),
        ensures
            final(self).wf(),
            (final(self)@, action@) == backend_fail(old(self)@, error),
    {
        self.failure = Some(error);
        if self.server_running {
            self.server_running = false;
            self.stage = BackendStage::AwaitingServerStop;
            AgentAction::StopServer
        } else {
            self.stage = BackendStage::Closed;
            AgentAction::Abort(error)
        }
    }

    fn next_probe(&mut self) -> (action: AgentAction)
        requires
            backend_wf(BackendView { stage: BackendStage::AwaitingWarmup, ..old(self)@ }),
        ensures
            final(self).wf(),
            (final(self)@, action@) == backend_next_probe(old(self)@),
    {
        assert(self.probe_routes.deep_view().len() == self.probe_routes.len());
        if self.probe_index < self.probe_routes.len() {
            self.stage = BackendStage::AwaitingProbe;
            assert(self.probe_routes.deep_view()[self.probe_index as int]
                == self.probe_routes[self.probe_index as int]@);
            AgentAction::Probe {
                url: endpoint_url(self.probe_routes[self.probe_index].as_str()),
                timeout_secs: PROBE_TIMEOUT_SECS,
            }
        } else {
            self.stage = BackendStage::AwaitingSchemaSaved;
            AgentAction::PersistEndpoints { contents: self.schema_text.clone() }
        }
    }

    fn after_build(&mut self, factsheet: &FactSheet, success: bool, stderr: String) -> (action:
        AgentAction)
        requires
            old(self).wf(),
            old(self)@.stage == BackendStage::AwaitingBuild,
        ensures
            final(self).wf(),
            (final(self)@, action@) == backend_after_build(
                old(self)@,
                factsheet@,
                success,
                stderr@,
            ),
    {
        if success {
            self.bug_count = 0;
            self.stage = BackendStage::AwaitingRoutes;
            AgentAction::AskGateway(GatewayTask::RestApiEndpoints)
        } else {
            self.bug_count = self.bug_count + 1;
            self.bug_errors = Some(stderr);
            if self.bug_count > MAX_BUG_COUNT {
                self.fail(FatalError::TooManyBugs)
            } else {
                self.attributes.state = AgentState::Working;
                self.begin(factsheet)
            }
        }
    }

    fn after_probe(&mut self, outcome: ProbeOutcome) -> (action: AgentAction)
        requires
            old(self).wf(),
            old(self)@.stage == BackendStage::AwaitingProbe,
        ensures
            final(self).wf(),
            (final(self)@, action@) == backend_after_probe(old(self)@, outcome),
    {
        match outcome {
            ProbeOutcome::TransportError => self.fail(FatalError::ServerUnreachable),
            ProbeOutcome::Status(code) => {
                if code != STATUS_OK {
                    let ghost noted = self.probe_warnings.deep_view();
                    let route = self.probe_routes[self.probe_index].clone();
                    self.probe_warnings.push(route);
                    assert(self.probe_warnings.deep_view() =~= noted.push(
                        self.probe_routes.deep_view()[self.probe_index as int],
                    ));
                }
                assert(self.probe_routes.deep_view().len() == self.probe_routes.len());
                self.probe_index = self.probe_index + 1;
                self.next_probe()
            },
        }
    }

    fn after_stop(&mut self, stopped: bool) -> (action: AgentAction)
        requires
            old(self).wf(),
            old(self)@.stage == BackendStage::AwaitingServerStop,
        ensures
            final(self).wf(),
            (final(self)@, action@) == backend_after_stop(old(self)@, stopped),
    {
        self.stage = BackendStage::Closed;
        match self.failure {
            Some(error) => AgentAction::Abort(error),
            None => {
                if stopped {
                    self.attributes.state = AgentState::Finished;
                    AgentAction::Finish
                } else {
                    self.failure = Some(FatalError::OutOfTurn);
                    AgentAction::Abort(FatalError::OutOfTurn)
                }
            },
        }
    }

    /// Runs the agent until it needs its host again. `event` is what the host
    /// reports of the last request; the result is the next request.
    ///
    /// The agent asks for the first version of the code, then for an
    /// improvement of it. It has each version built, after the user has
    /// allowed that. A failed build is answered with a corrected version, up
    /// to [`MAX_BUG_COUNT`] times; one more failed build ends the run. After
    /// a successful build the agent stores the `get` routes with a fixed
    /// path in the document, has the server started, and probes each of
    /// these routes. An answer with another status than 200 is noted as a
    /// warning. A probe without an answer ends the run. The server is
    /// stopped before the agent finishes or gives up.
    pub fn execute(&mut self, factsheet: &mut FactSheet, event: AgentEvent) -> (action:
        AgentAction)
        requires
            old(self).wf(),
        ensures
            final(self).wf(),
            (final(self)@, final(factsheet)@, action@) == backend_step(
                old(self)@,
                old(factsheet)@,
                event@,
            ),
    {
        match self.stage {
            BackendStage::Idle => match event {
                AgentEvent::Proceed => self.begin(factsheet),
                _ => self.fail(FatalError::OutOfTurn),
            },
            BackendStage::AwaitingCode => match event {
                AgentEvent::GatewayText(code) => {
                    let contents = strip_code_fences(code.as_str());
                    factsheet.backend_code = Some(code);
                    self.stage = BackendStage::AwaitingCodeSaved;
                    AgentAction::PersistCode { contents }
                },
                AgentEvent::GatewayFailed => self.fail(FatalError::GatewayUnavailable),
                _ => self.fail(FatalError::OutOfTurn),
            },
            BackendStage::AwaitingCodeSaved => match event {
                AgentEvent::Proceed => {
                    if self.attributes.state == AgentState::Discovery {
                        self.attributes.state = AgentState::Working;
                    } else {
                        self.attributes.state = AgentState::UnitTesting;
                    }
                    self.begin(factsheet)
                },
                _ => self.fail(FatalError::OutOfTurn),
            },
            BackendStage::AwaitingConfirmation => match event {
                AgentEvent::Confirmation(allowed) => {
                    if allowed {
                        self.stage = BackendStage::AwaitingBuild;
                        AgentAction::BuildProject
                    } else {
                        self.fail(FatalError::UnsafeCodeDeclined)
                    }
                },
                _ => self.fail(FatalError::OutOfTurn),
            },
            BackendStage::AwaitingBuild => match event {
                AgentEvent::BuildFinished { success, stderr } => self.after_build(
                    factsheet,
                    success,
                    stderr,
                ),
                _ => self.fail(FatalError::OutOfTurn),
            },
            BackendStage::AwaitingRoutes => match event {
                AgentEvent::RoutesDecoded { raw, routes } => {
                    let kept = retain_static_get_routes(&routes);
                    self.probe_routes = route_paths(&kept);
                    self.probe_index = 0;
                    self.schema_text = raw;
                    self.server_running = true;
                    self.stage = BackendStage::AwaitingServer;
                    factsheet.api_endpoint_schema = Some(kept);
                    AgentAction::StartServer
                },
                AgentEvent::GatewayFailed => self.fail(FatalError::GatewayUnavailable),
                AgentEvent::DecodeFailed => self.fail(FatalError::UndecodableReply),
                _ => self.fail(FatalError::OutOfTurn),
            },
            BackendStage::AwaitingServer => match event {
                AgentEvent::Proceed => {
                    self.stage = BackendStage::AwaitingWarmup;
                    AgentAction::WarmUp { seconds: WARM_UP_SECS }
                },
                _ => self.fail(FatalError::OutOfTurn),
            },
            BackendStage::AwaitingWarmup => match event {
                AgentEvent::Proceed => self.next_probe(),
                _ => self.fail(FatalError::OutOfTurn),
            },
            BackendStage::AwaitingProbe => match event {
                AgentEvent::Probed(outcome) => self.after_probe(outcome),
                _ => self.fail(FatalError::OutOfTurn),
            },
            BackendStage::AwaitingSchemaSaved => match event {
                AgentEvent::Proceed => {
                    self.server_running = false;
                    self.stage = BackendStage::AwaitingServerStop;
                    AgentAction::StopServer
                },
                _ => self.fail(FatalError::OutOfTurn),
            },
            BackendStage::AwaitingServerStop => match event {
                AgentEvent::Proceed => self.after_stop(true),
                _ => self.after_stop(false),
            },
            BackendStage::Closed => match self.failure {
                Some(error) => AgentAction::Abort(error),
                None => AgentAction::Finish,
            },
        }
    }
}

} // verus!
