//! What holds of every run of the backend developer.

use crate::backend::{
    backend_step, backend_wf, fresh_backend, has_server, is_past_build, without_code_fences,
    BackendStage, BackendView, MAX_BUG_COUNT,
};
use crate::basic_agent::AgentState;
use crate::factsheet::{
    document_extends, is_static_get, law_static_get_routes_are_selected, static_get_routes,
    FactSheetView, RouteView,
};
use crate::protocol::{
    is_terminal, AgentActionView, AgentEventView, FatalError, GatewayTaskView,
};
use vstd::prelude::*;

verus! {

/// The agent, the document and the requests after the host has reported
/// `events`, one after the other, to the agent `a` on the document `d`.
pub open spec fn backend_run(a: BackendView, d: FactSheetView, events: Seq<AgentEventView>) -> (
    BackendView,
    FactSheetView,
    Seq<AgentActionView>,
)
    decreases events.len(),
{
    if events.len() == 0 {
        (a, d, Seq::empty())
    } else {
        let before = backend_run(a, d, events.drop_last());
        let next = backend_step(before.0, before.1, events.last());
        (next.0, next.1, before.2.push(next.2))
    }
}

/// How often `wanted` is among `actions`.
pub open spec fn occurrences(actions: Seq<AgentActionView>, wanted: AgentActionView) -> nat
    decreases actions.len(),
{
    if actions.len() == 0 {
        0
    } else {
        occurrences(actions.drop_last(), wanted) + if actions.last() == wanted {
            1nat
        } else {
            0nat
        }
    }
}

/// A step leads from a well-formed agent to a well-formed agent.
pub proof fn law_backend_step_keeps_wf(a: BackendView, d: FactSheetView, e: AgentEventView)
    requires
        backend_wf(a),
    ensures
        backend_wf(backend_step(a, d, e).0),
{
}

/// No step changes the agent's objective or position, or what it remembers.
pub proof fn law_backend_step_keeps_attributes(a: BackendView, d: FactSheetView, e: AgentEventView)
    ensures
        backend_step(a, d, e).0.objective == a.objective,
        backend_step(a, d, e).0.position == a.position,
        backend_step(a, d, e).0.memory == a.memory,
{
}

/// A run leads from a well-formed agent to a well-formed agent.
pub proof fn law_backend_run_keeps_wf(a: BackendView, d: FactSheetView, events: Seq<AgentEventView>)
    requires
        backend_wf(a),
    ensures
        backend_wf(backend_run(a, d, events).0),
    decreases events.len(),
{
    if events.len() > 0 {
        law_backend_run_keeps_wf(a, d, events.drop_last());
        let before = backend_run(a, d, events.drop_last());
        law_backend_step_keeps_wf(before.0, before.1, events.last());
    }
}

/// The count of failed builds never exceeds three, whatever the host
/// reports, and where it has reached three the run has been given up for
/// too many bugs.
pub proof fn law_bug_count_is_bounded(d: FactSheetView, events: Seq<AgentEventView>)
    ensures
        backend_run(fresh_backend(), d, events).0.bug_count <= MAX_BUG_COUNT + 1,
        backend_run(fresh_backend(), d, events).0.bug_count > MAX_BUG_COUNT ==> backend_run(
            fresh_backend(),
            d,
            events,
        ).0.stage == BackendStage::Closed && backend_run(fresh_backend(), d, events).0.failure
            == Some(FatalError::TooManyBugs),
{
    law_backend_run_keeps_wf(fresh_backend(), d, events);
}

/// The stages from which a build can still be asked for.
pub open spec fn is_before_build(stage: BackendStage) -> bool {
    stage == BackendStage::Idle || stage == BackendStage::AwaitingCode || stage
        == BackendStage::AwaitingCodeSaved || stage == BackendStage::AwaitingConfirmation
}

/// How the builds that were asked for relate to the count of failed builds.
pub open spec fn builds_are_counted(a: BackendView, builds: nat) -> bool {
    &&& builds <= MAX_BUG_COUNT + 1
    &&& is_before_build(a.stage) ==> builds == a.bug_count
    &&& a.stage == BackendStage::AwaitingBuild ==> builds == a.bug_count + 1
}

proof fn lemma_step_counts_builds(a: BackendView, d: FactSheetView, e: AgentEventView, builds: nat)
    requires
        backend_wf(a),
        builds_are_counted(a, builds),
    ensures
        builds_are_counted(
            backend_step(a, d, e).0,
            builds + if backend_step(a, d, e).2 == AgentActionView::BuildProject {
                1nat
            } else {
                0nat
            },
        ),
{
}

proof fn lemma_run_counts_builds(d: FactSheetView, events: Seq<AgentEventView>)
    ensures
        builds_are_counted(
            backend_run(fresh_backend(), d, events).0,
            occurrences(backend_run(fresh_backend(), d, events).2, AgentActionView::BuildProject),
        ),
    decreases events.len(),
{
    if events.len() > 0 {
        let front = events.drop_last();
        lemma_run_counts_builds(d, front);
        law_backend_run_keeps_wf(fresh_backend(), d, front);
        let before = backend_run(fresh_backend(), d, front);
        let builds = occurrences(before.2, AgentActionView::BuildProject);
        lemma_step_counts_builds(before.0, before.1, events.last(), builds);
        let after = backend_run(fresh_backend(), d, events);
        assert(after.2.drop_last() =~= before.2);
    }
}

/// In one run the code is built three times at most: once, and once more
/// after each of two corrections.
pub proof fn law_at_most_three_builds(d: FactSheetView, events: Seq<AgentEventView>)
    ensures
        occurrences(backend_run(fresh_backend(), d, events).2, AgentActionView::BuildProject)
            <= MAX_BUG_COUNT + 1,
{
    lemma_run_counts_builds(d, events);
}

/// The requests of the test phase come in their order. A build is asked
/// for only when the user has just allowed it; the endpoints only when a
/// build has just succeeded; the start of the server only when the
/// endpoints have just come; the warm-up only when the server has just been
/// started; and a probe only while the server is up, after the warm-up or
/// after another probe.
pub proof fn law_backend_requests_come_in_order(a: BackendView, d: FactSheetView, e: AgentEventView)
    requires
        backend_wf(a),
    ensures
        ({
            let next = backend_step(a, d, e);
            &&& next.2 == AgentActionView::BuildProject ==> a.stage
                == BackendStage::AwaitingConfirmation && e == AgentEventView::Confirmation(true)
            &&& next.2 == AgentActionView::AskGateway(GatewayTaskView::RestApiEndpoints)
                ==> a.stage == BackendStage::AwaitingBuild && e is BuildFinished
                && e->BuildFinished_success
            &&& next.2 == AgentActionView::StartServer ==> a.stage == BackendStage::AwaitingRoutes
                && e is RoutesDecoded
            &&& next.2 is WarmUp ==> a.stage == BackendStage::AwaitingServer && e is Proceed
            &&& next.2 is Probe ==> a.server_running && next.0.server_running && (a.stage
                == BackendStage::AwaitingWarmup || a.stage == BackendStage::AwaitingProbe)
            &&& next.2 is PersistEndpoints ==> a.server_running && next.0.probe_index
                == next.0.probe_routes.len()
        }),
{
}

/// The moves of the lifecycle: forward by one state, and back from the
/// tests to the work on the code.
pub open spec fn is_backend_move(before: AgentState, after: AgentState) -> bool {
    ||| before == after
    ||| before == AgentState::Discovery && after == AgentState::Working
    ||| before == AgentState::Working && after == AgentState::UnitTesting
    ||| before == AgentState::UnitTesting && after == AgentState::Working
    ||| before == AgentState::UnitTesting && after == AgentState::Finished
}

/// The lifecycle moves forward, one state at a time, and nothing follows
/// `Finished`. The one way back leads from the tests to the work on the
/// code, and it is taken only when a build has failed and a correction is
/// still allowed.
pub proof fn law_backend_lifecycle_moves_forward(
    a: BackendView,
    d: FactSheetView,
    e: AgentEventView,
)
    requires
        backend_wf(a),
    ensures
        ({
            let next = backend_step(a, d, e);
            &&& is_backend_move(a.state, next.0.state)
            &&& a.state == AgentState::UnitTesting && next.0.state == AgentState::Working ==> {
                &&& a.stage == BackendStage::AwaitingBuild
                &&& e is BuildFinished
                &&& !e->BuildFinished_success
                &&& next.0.bug_count == a.bug_count + 1
                &&& next.0.bug_count <= MAX_BUG_COUNT
            }
        }),
{
}

/// A successful build sets the count of failed builds to zero, and it stays
/// zero up to the end of the tests.
pub proof fn law_successful_build_resets_bug_count(
    a: BackendView,
    d: FactSheetView,
    stderr: Seq<char>,
)
    requires
        backend_wf(a),
        a.stage == BackendStage::AwaitingBuild,
    ensures
        backend_step(a, d, AgentEventView::BuildFinished { success: true, stderr }).0.bug_count
            == 0,
        backend_step(a, d, AgentEventView::BuildFinished { success: true, stderr }).0.stage
            == BackendStage::AwaitingRoutes,
{
}

/// Whenever a new version of the code is asked for, it is an improvement
/// where no build has failed since the last success, and else a correction
/// that names the report of the last failed build.
pub proof fn law_revision_follows_bug_count(a: BackendView, d: FactSheetView, e: AgentEventView)
    requires
        backend_wf(a),
    ensures
        ({
            let next = backend_step(a, d, e);
            match next.2 {
                AgentActionView::AskGateway(GatewayTaskView::ImprovedCode { document }) => {
                    &&& next.0.state == AgentState::Working
                    &&& next.0.bug_count == 0
                    &&& document == next.1
                },
                AgentActionView::AskGateway(
                    GatewayTaskView::FixedCode { code, bug_report },
                ) => {
                    &&& next.0.state == AgentState::Working
                    &&& 0 < next.0.bug_count <= MAX_BUG_COUNT
                    &&& code == next.1.backend_code
                    &&& bug_report is Some
                    &&& bug_report == next.0.bug_errors
                },
                _ => true,
            }
        }),
{
}

/// Once the agent has finished, the count of failed builds is zero; and
/// between a successful build and the end of the tests it is zero too.
pub proof fn law_finished_without_bugs(d: FactSheetView, events: Seq<AgentEventView>)
    ensures
        ({
            let end = backend_run(fresh_backend(), d, events).0;
            (end.state == AgentState::Finished || is_past_build(end.stage)) ==> end.bug_count == 0
        }),
{
    law_backend_run_keeps_wf(fresh_backend(), d, events);
}

/// The routes that a step stores in the document are the `get` routes with a
/// fixed path of the list that the gateway gave, in the order of that list.
pub proof fn law_route_schema_is_filtered(
    a: BackendView,
    d: FactSheetView,
    raw: Seq<char>,
    routes: Seq<RouteView>,
)
    requires
        a.stage == BackendStage::AwaitingRoutes,
    ensures
        backend_step(a, d, AgentEventView::RoutesDecoded { raw, routes }).1.api_endpoint_schema
            == Some(static_get_routes(routes)),
        forall|k: int|
            0 <= k < static_get_routes(routes).len() ==> is_static_get(
                #[trigger] static_get_routes(routes)[k],
            ),
{
    law_static_get_routes_are_selected(routes);
}

/// Every route of an optional list is a `get` route with a fixed path.
pub open spec fn holds_static_get_routes_only(schema: Option<Seq<RouteView>>) -> bool {
    match schema {
        Some(routes) => forall|k: int| 0 <= k < routes.len() ==> is_static_get(#[trigger] routes[k]),
        None => true,
    }
}

/// No step stores another route than a `get` route with a fixed path.
pub proof fn law_step_stores_static_get_routes_only(
    a: BackendView,
    d: FactSheetView,
    e: AgentEventView,
)
    requires
        holds_static_get_routes_only(d.api_endpoint_schema),
    ensures
        holds_static_get_routes_only(backend_step(a, d, e).1.api_endpoint_schema),
{
    match e {
        AgentEventView::RoutesDecoded { raw, routes } => {
            law_static_get_routes_are_selected(routes);
        },
        _ => {},
    }
}

/// Whatever the host reports: a document that held only `get` routes with a
/// fixed path, or no routes yet, holds only such routes after the run.
pub proof fn law_route_schema_holds_static_get_routes_only(
    a: BackendView,
    d: FactSheetView,
    events: Seq<AgentEventView>,
)
    requires
        holds_static_get_routes_only(d.api_endpoint_schema),
    ensures
        holds_static_get_routes_only(backend_run(a, d, events).1.api_endpoint_schema),
    decreases events.len(),
{
    if events.len() > 0 {
        law_route_schema_holds_static_get_routes_only(a, d, events.drop_last());
        let before = backend_run(a, d, events.drop_last());
        law_step_stores_static_get_routes_only(before.0, before.1, events.last());
    }
}

/// The server does not outlive the tests. The agent neither finishes nor
/// gives up while the server is up; the server goes down by a request to
/// stop it and by nothing else, and comes up by a request to start it and
/// by nothing else; and the agent does not leave its test phase with the
/// server up.
pub proof fn law_server_is_stopped_before_the_end(
    a: BackendView,
    d: FactSheetView,
    e: AgentEventView,
)
    requires
        backend_wf(a),
    ensures
        ({
            let next = backend_step(a, d, e);
            &&& is_terminal(next.2) ==> !next.0.server_running
            &&& (a.server_running && !next.0.server_running) <==> next.2
                == AgentActionView::StopServer
            &&& (!a.server_running && next.0.server_running) <==> next.2
                == AgentActionView::StartServer
            &&& next.0.state != a.state ==> !next.0.server_running
            &&& next.0.stage == BackendStage::Closed ==> !next.0.server_running
        }),
{
}

/// Whether the server is up, as a number.
pub open spec fn servers_up(a: BackendView) -> nat {
    if a.server_running {
        1
    } else {
        0
    }
}

/// In every run each start of the server is followed by a stop of it, but
/// for the start of a server that is still up.
pub proof fn law_every_start_has_its_stop(d: FactSheetView, events: Seq<AgentEventView>)
    ensures
        ({
            let run = backend_run(fresh_backend(), d, events);
            occurrences(run.2, AgentActionView::StartServer) == occurrences(
                run.2,
                AgentActionView::StopServer,
            ) + servers_up(run.0)
        }),
    decreases events.len(),
{
    if events.len() > 0 {
        let front = events.drop_last();
        law_every_start_has_its_stop(d, front);
        law_backend_run_keeps_wf(fresh_backend(), d, front);
        let before = backend_run(fresh_backend(), d, front);
        law_server_is_stopped_before_the_end(before.0, before.1, events.last());
        let after = backend_run(fresh_backend(), d, events);
        assert(after.2.drop_last() =~= before.2);
    }
}

/// A run that has ended, well or badly, has left no server up.
pub proof fn law_no_server_is_left_up(d: FactSheetView, events: Seq<AgentEventView>)
    ensures
        ({
            let run = backend_run(fresh_backend(), d, events);
            (run.0.stage == BackendStage::Closed || run.0.state == AgentState::Finished
                || run.0.failure is Some) ==> !run.0.server_running && occurrences(
                run.2,
                AgentActionView::StartServer,
            ) == occurrences(run.2, AgentActionView::StopServer)
        }),
{
    law_every_start_has_its_stop(d, events);
    law_backend_run_keeps_wf(fresh_backend(), d, events);
}

/// A step keeps what the document held: the description stays, and no field
/// that was filled is emptied.
pub proof fn law_backend_step_extends_document(a: BackendView, d: FactSheetView, e: AgentEventView)
    ensures
        document_extends(d, backend_step(a, d, e).1),
        backend_step(a, d, e).1.project_scope == d.project_scope,
        backend_step(a, d, e).1.external_url == d.external_url,
{
}

/// A run keeps what the document held.
pub proof fn law_backend_run_extends_document(
    a: BackendView,
    d: FactSheetView,
    events: Seq<AgentEventView>,
)
    ensures
        document_extends(d, backend_run(a, d, events).1),
    decreases events.len(),
{
    if events.len() > 0 {
        law_backend_run_extends_document(a, d, events.drop_last());
        let before = backend_run(a, d, events.drop_last());
        law_backend_step_extends_document(before.0, before.1, events.last());
    }
}

/// The code that the first phase stores is the gateway's answer, letter for
/// letter: two new agents that get the same answer store the same code.
pub proof fn law_discovery_stores_the_answer(d: FactSheetView, code: Seq<char>)
    ensures
        ({
            let run = backend_run(
                fresh_backend(),
                d,
                seq![AgentEventView::Proceed, AgentEventView::GatewayText(code)],
            );
            &&& run.1.backend_code == Some(code)
            &&& run.1 == (FactSheetView { backend_code: Some(code), ..d })
            &&& run.2 == seq![
                AgentActionView::AskGateway(
                    GatewayTaskView::InitialCode { description: d.project_description },
                ),
                AgentActionView::PersistCode { contents: without_code_fences(code) },
            ]
        }),
{
    let first = seq![AgentEventView::Proceed];
    let both = seq![AgentEventView::Proceed, AgentEventView::GatewayText(code)];
    assert(both.drop_last() =~= first);
    assert(first.drop_last() =~= Seq::<AgentEventView>::empty());
    reveal_with_fuel(backend_run, 3);
    let run = backend_run(fresh_backend(), d, both);
    assert(run.2 =~= seq![
        AgentActionView::AskGateway(
            GatewayTaskView::InitialCode { description: d.project_description },
        ),
        AgentActionView::PersistCode { contents: without_code_fences(code) },
    ]);
}

/// An agent says `Finish` only when its lifecycle has ended, and gives the
/// run up only with the failure that it has kept.
pub proof fn law_backend_ends_as_it_says(a: BackendView, d: FactSheetView, e: AgentEventView)
    requires
        backend_wf(a),
    ensures
        backend_step(a, d, e).2 is Finish ==> backend_step(a, d, e).0.state
            == AgentState::Finished && backend_step(a, d, e).0.stage == BackendStage::Closed,
        forall|error: FatalError|
            backend_step(a, d, e).2 == AgentActionView::Abort(error) ==> backend_step(
                a,
                d,
                e,
            ).0.failure == Some(error) && backend_step(a, d, e).0.stage == BackendStage::Closed,
{
}

/// What the document of an agent that started new holds at each point of
/// the agent's work: the code from the moment it has come, the routes from
/// the moment the server is asked for.
pub open spec fn backend_has_filled(a: BackendView, d: FactSheetView) -> bool {
    &&& a.stage == BackendStage::Idle ==> a.state == AgentState::Discovery
    &&& a.state != AgentState::Discovery || a.stage == BackendStage::AwaitingCodeSaved
        ==> d.backend_code is Some
    &&& has_server(a.stage) || a.stage == BackendStage::AwaitingServerStop || a.state
        == AgentState::Finished ==> d.api_endpoint_schema is Some
}

/// A step keeps the document as full as the agent's work needs it.
pub proof fn law_backend_step_fills_document(a: BackendView, d: FactSheetView, e: AgentEventView)
    requires
        backend_wf(a),
        backend_has_filled(a, d),
    ensures
        backend_has_filled(backend_step(a, d, e).0, backend_step(a, d, e).1),
{
}

/// A backend developer that started new and has finished leaves a document
/// with code and with routes.
pub proof fn law_finished_backend_has_filled_document(
    d: FactSheetView,
    events: Seq<AgentEventView>,
)
    ensures
        backend_has_filled(
            backend_run(fresh_backend(), d, events).0,
            backend_run(fresh_backend(), d, events).1,
        ),
        backend_run(fresh_backend(), d, events).0.state == AgentState::Finished ==> {
            &&& backend_run(fresh_backend(), d, events).1.backend_code is Some
            &&& backend_run(fresh_backend(), d, events).1.api_endpoint_schema is Some
        },
    decreases events.len(),
{
    if events.len() > 0 {
        let front = events.drop_last();
        law_finished_backend_has_filled_document(d, front);
        law_backend_run_keeps_wf(fresh_backend(), d, front);
        let before = backend_run(fresh_backend(), d, front);
        law_backend_step_fills_document(before.0, before.1, events.last());
    }
}

} // verus!
