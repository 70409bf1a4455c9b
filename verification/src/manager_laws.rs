//! What holds of every run of the managing agent.

use crate::architect_laws::{
    architect_has_filled, law_architect_ends_as_it_says, law_architect_step_extends_document,
    law_architect_step_fills_document, law_architect_step_keeps_wf,
};
use crate::backend_laws::{
    backend_has_filled, law_backend_ends_as_it_says, law_backend_step_extends_document,
    law_backend_step_fills_document, law_backend_step_keeps_wf,
};
use crate::basic_agent::AgentState;
use crate::factsheet::{document_extends, FactSheetView};
use crate::manager::{
    appointed_agents, fresh_manager, manager_drive, manager_staffed, manager_step, manager_wf,
    specialist_failure, specialist_state, specialist_step, specialist_wf, ManagerView,
    SpecialistView,
};
use crate::protocol::{is_terminal, AgentActionView, AgentEventView, FatalError};
use vstd::prelude::*;

verus! {

/// The managing agent and the requests after the host has reported `events`,
/// one after the other.
pub open spec fn manager_run(m: ManagerView, events: Seq<AgentEventView>) -> (
    ManagerView,
    Seq<AgentActionView>,
)
    decreases events.len(),
{
    if events.len() == 0 {
        (m, Seq::empty())
    } else {
        let before = manager_run(m, events.drop_last());
        let next = manager_step(before.0, events.last());
        (next.0, before.1.push(next.1))
    }
}

/// Two agents of the same kind.
pub open spec fn same_kind(one: SpecialistView, other: SpecialistView) -> bool {
    one is Architect <==> other is Architect
}

/// A step of a specialised agent leads from a well-formed agent to a
/// well-formed agent of the same kind, keeps what the document held, and
/// ends as it says.
pub proof fn law_specialist_step(agent: SpecialistView, d: FactSheetView, e: AgentEventView)
    requires
        specialist_wf(agent),
    ensures
        ({
            let next = specialist_step(agent, d, e);
            &&& specialist_wf(next.0)
            &&& same_kind(agent, next.0)
            &&& document_extends(d, next.1)
            &&& next.2 is Finish ==> specialist_state(next.0) == AgentState::Finished
            &&& forall|error: FatalError|
                next.2 == AgentActionView::Abort(error) ==> specialist_failure(next.0) == Some(
                    error,
                )
        }),
{
    match agent {
        SpecialistView::Architect(a) => {
            law_architect_step_keeps_wf(a, d, e);
            law_architect_step_extends_document(a, d, e);
            law_architect_ends_as_it_says(a, d, e);
        },
        SpecialistView::Backend(a) => {
            law_backend_step_keeps_wf(a, d, e);
            law_backend_step_extends_document(a, d, e);
            law_backend_ends_as_it_says(a, d, e);
        },
    }
}

/// How a managing agent has moved on from `before` to `after`: it has the
/// same agents, in the same order; those whose turn has not come are as they
/// were; no agent's turn comes twice; and the document has kept what it
/// held.
pub open spec fn manager_moved_on(before: ManagerView, after: ManagerView) -> bool {
    &&& after.objective == before.objective
    &&& after.position == before.position
    &&& after.memory == before.memory
    &&& after.state == before.state
    &&& after.agents.len() == before.agents.len()
    &&& before.current <= after.current
    &&& forall|i: int|
        0 <= i < before.agents.len() ==> same_kind(before.agents[i], #[trigger] after.agents[i])
    &&& forall|i: int|
        0 <= i < before.current ==> #[trigger] after.agents[i] == before.agents[i]
    &&& forall|i: int|
        after.current < i < before.agents.len() ==> #[trigger] after.agents[i] == before.agents[i]
    &&& document_extends(before.factsheet, after.factsheet)
}

/// How a step ends: with `Finish` when every agent has finished, with a
/// failure when the agent whose turn it is has failed with it.
pub open spec fn manager_ends_as_it_says(after: ManagerView, action: AgentActionView) -> bool {
    &&& action is Finish ==> after.current == after.agents.len()
    &&& forall|error: FatalError|
        action == AgentActionView::Abort(error) ==> after.current < after.agents.len()
            && specialist_failure(after.agents[after.current as int]) == Some(error)
}

proof fn lemma_manager_drive(m: ManagerView, e: AgentEventView)
    requires
        manager_wf(m),
    ensures
        manager_wf(manager_drive(m, e).0),
        manager_moved_on(m, manager_drive(m, e).0),
        manager_ends_as_it_says(manager_drive(m, e).0, manager_drive(m, e).1),
    decreases m.agents.len() - m.current,
{
    if m.current < m.agents.len() {
        let agent = m.agents[m.current as int];
        let next = specialist_step(agent, m.factsheet, e);
        law_specialist_step(agent, m.factsheet, e);
        let moved = ManagerView {
            agents: m.agents.update(m.current as int, next.0),
            factsheet: next.1,
            ..m
        };
        assert(manager_wf(moved));
        if next.2 is Finish {
            let onward = ManagerView { current: m.current + 1, ..moved };
            assert(manager_wf(onward));
            lemma_manager_drive(onward, AgentEventView::Proceed);
            let end = manager_drive(onward, AgentEventView::Proceed).0;
            assert(manager_moved_on(onward, end));
            assert(manager_moved_on(m, end)) by {
                assert forall|i: int| 0 <= i < m.agents.len() implies same_kind(
                    m.agents[i],
                    #[trigger] end.agents[i],
                ) by {
                    assert(same_kind(onward.agents[i], end.agents[i]));
                }
                assert forall|i: int| 0 <= i < m.current implies #[trigger] end.agents[i]
                    == m.agents[i] by {
                    assert(end.agents[i] == onward.agents[i]);
                }
                assert forall|i: int| end.current < i < m.agents.len() implies #[trigger] end.agents[i]
                    == m.agents[i] by {
                    assert(end.agents[i] == onward.agents[i]);
                }
            }
        }
    }
}

/// A step leads from a well-formed managing agent to a well-formed one.
pub proof fn law_manager_step_keeps_wf(m: ManagerView, e: AgentEventView)
    requires
        manager_wf(m),
    ensures
        manager_wf(manager_step(m, e).0),
{
    assert(manager_wf(manager_staffed(m)));
    lemma_manager_drive(manager_staffed(m), e);
}

/// A run leads from a well-formed managing agent to a well-formed one.
pub proof fn law_manager_run_keeps_wf(m: ManagerView, events: Seq<AgentEventView>)
    requires
        manager_wf(m),
    ensures
        manager_wf(manager_run(m, events).0),
    decreases events.len(),
{
    if events.len() > 0 {
        law_manager_run_keeps_wf(m, events.drop_last());
        law_manager_step_keeps_wf(manager_run(m, events.drop_last()).0, events.last());
    }
}

/// A step moves the project on: the agents stay the same and in the same
/// order, the agents that have finished and those whose turn has not come
/// are not touched, and the document keeps its description and whatever
/// else it held. The step ends with `Finish` only when every agent has
/// finished, and with a failure only when the agent whose turn it is has
/// failed with it.
pub proof fn law_manager_step_moves_on(m: ManagerView, e: AgentEventView)
    requires
        manager_wf(m),
    ensures
        manager_moved_on(manager_staffed(m), manager_step(m, e).0),
        manager_ends_as_it_says(manager_step(m, e).0, manager_step(m, e).1),
        manager_step(m, e).0.factsheet.project_description == m.factsheet.project_description,
        manager_step(m, e).1 is Finish ==> forall|i: int|
            0 <= i < manager_step(m, e).0.agents.len() ==> specialist_state(
                #[trigger] manager_step(m, e).0.agents[i],
            ) == AgentState::Finished,
{
    assert(manager_wf(manager_staffed(m)));
    lemma_manager_drive(manager_staffed(m), e);
}

/// What holds of a run that started with a new managing agent: once the
/// first event has been reported, the agents are the architect and the
/// backend developer, in this order; the backend developer is untouched
/// until the architect has finished; and the document still has the
/// description that it was made with.
pub open spec fn manager_on_course(description: Seq<char>, m: ManagerView) -> bool {
    &&& manager_wf(m)
    &&& m.factsheet.project_description == description
    &&& m.agents.len() == 2
    &&& m.agents[0] is Architect
    &&& m.agents[1] is Backend
    &&& m.current == 0 ==> m.agents[1] == appointed_agents()[1]
    &&& m.current >= 1 ==> specialist_state(m.agents[0]) == AgentState::Finished
}

/// The agents run in a fixed order on one document: first the architect,
/// and the backend developer only once the architect has finished.
pub proof fn law_agents_run_in_order(description: Seq<char>, events: Seq<AgentEventView>)
    requires
        events.len() > 0,
    ensures
        manager_on_course(description, manager_run(fresh_manager(description), events).0),
    decreases events.len(),
{
    let start = fresh_manager(description);
    let front = events.drop_last();
    let before = manager_run(start, front).0;
    if front.len() == 0 {
        assert(before == start);
        assert(manager_wf(start));
    } else {
        law_agents_run_in_order(description, front);
    }
    let staffed = manager_staffed(before);
    assert(manager_wf(staffed));
    lemma_manager_drive(staffed, events.last());
    let after = manager_step(before, events.last()).0;
    assert(manager_moved_on(staffed, after));
    assert(same_kind(staffed.agents[0], after.agents[0]));
    assert(same_kind(staffed.agents[1], after.agents[1]));
    if after.current == 0 {
        assert(after.agents[1] == staffed.agents[1]);
    }
}

/// What the document holds at each point of the work of an agent that
/// started new.
pub open spec fn specialist_has_filled(agent: SpecialistView, d: FactSheetView) -> bool {
    match agent {
        SpecialistView::Architect(a) => architect_has_filled(a, d),
        SpecialistView::Backend(a) => backend_has_filled(a, d),
    }
}

/// The document is as full as the work of each agent needs it.
pub open spec fn agents_have_filled(m: ManagerView) -> bool {
    forall|i: int|
        0 <= i < m.agents.len() ==> specialist_has_filled(#[trigger] m.agents[i], m.factsheet)
}

proof fn lemma_manager_drive_fills(m: ManagerView, e: AgentEventView)
    requires
        manager_wf(m),
        agents_have_filled(m),
    ensures
        agents_have_filled(manager_drive(m, e).0),
    decreases m.agents.len() - m.current,
{
    if m.current < m.agents.len() {
        let agent = m.agents[m.current as int];
        let next = specialist_step(agent, m.factsheet, e);
        law_specialist_step(agent, m.factsheet, e);
        match agent {
            SpecialistView::Architect(a) => {
                law_architect_step_fills_document(a, m.factsheet, e);
            },
            SpecialistView::Backend(a) => {
                law_backend_step_fills_document(a, m.factsheet, e);
            },
        }
        let moved = ManagerView {
            agents: m.agents.update(m.current as int, next.0),
            factsheet: next.1,
            ..m
        };
        assert(manager_wf(moved));
        assert forall|i: int| 0 <= i < moved.agents.len() implies specialist_has_filled(
            #[trigger] moved.agents[i],
            moved.factsheet,
        ) by {
            if i != m.current {
                assert(specialist_has_filled(m.agents[i], m.factsheet));
            }
        }
        if next.2 is Finish {
            let onward = ManagerView { current: m.current + 1, ..moved };
            assert(manager_wf(onward));
            assert(agents_have_filled(onward));
            lemma_manager_drive_fills(onward, AgentEventView::Proceed);
        }
    }
}

proof fn lemma_run_fills(description: Seq<char>, events: Seq<AgentEventView>)
    requires
        events.len() > 0,
    ensures
        manager_on_course(description, manager_run(fresh_manager(description), events).0),
        agents_have_filled(manager_run(fresh_manager(description), events).0),
    decreases events.len(),
{
    let start = fresh_manager(description);
    let front = events.drop_last();
    let before = manager_run(start, front).0;
    law_agents_run_in_order(description, events);
    if front.len() == 0 {
        assert(before == start);
        assert(manager_wf(start));
    } else {
        lemma_run_fills(description, front);
    }
    let staffed = manager_staffed(before);
    assert(manager_wf(staffed));
    assert(agents_have_filled(staffed));
    lemma_manager_drive_fills(staffed, events.last());
}

/// A project that ends with `Finish` has a full document: the description
/// that the run was started with, a scope, the code and the routes; and
/// both agents have finished. A project that does not end so ends with a
/// failure.
pub proof fn law_finished_project_has_full_document(
    description: Seq<char>,
    events: Seq<AgentEventView>,
)
    requires
        events.len() > 0,
    ensures
        ({
            let run = manager_run(fresh_manager(description), events);
            run.1.last() is Finish ==> {
                &&& run.0.factsheet.project_description == description
                &&& run.0.factsheet.project_scope is Some
                &&& run.0.factsheet.backend_code is Some
                &&& run.0.factsheet.api_endpoint_schema is Some
                &&& run.0.current == 2
                &&& specialist_state(run.0.agents[0]) == AgentState::Finished
                &&& specialist_state(run.0.agents[1]) == AgentState::Finished
            }
        }),
{
    lemma_run_fills(description, events);
    let before = manager_run(fresh_manager(description), events.drop_last()).0;
    if events.len() == 1 {
        assert(before == fresh_manager(description));
        assert(manager_wf(before));
    } else {
        law_agents_run_in_order(description, events.drop_last());
    }
    law_manager_step_moves_on(before, events.last());
    let end = manager_run(fresh_manager(description), events).0;
    if manager_run(fresh_manager(description), events).1.last() is Finish {
        assert(specialist_has_filled(end.agents[0], end.factsheet));
        assert(specialist_has_filled(end.agents[1], end.factsheet));
        assert(specialist_state(end.agents[0]) == AgentState::Finished);
        assert(specialist_state(end.agents[1]) == AgentState::Finished);
    }
}

/// Whether the server of a specialised agent is up. Only the backend
/// developer has one.
pub open spec fn specialist_server_running(agent: SpecialistView) -> bool {
    match agent {
        SpecialistView::Architect(_) => false,
        SpecialistView::Backend(a) => a.server_running,
    }
}

/// A project that has ended, with `Finish` or with a failure, has left no
/// server up.
pub proof fn law_ended_project_has_no_server(description: Seq<char>, events: Seq<AgentEventView>)
    requires
        events.len() > 0,
    ensures
        ({
            let run = manager_run(fresh_manager(description), events);
            is_terminal(run.1.last()) ==> forall|i: int|
                0 <= i < run.0.agents.len() ==> !specialist_server_running(
                    #[trigger] run.0.agents[i],
                )
        }),
{
    law_agents_run_in_order(description, events);
    let before = manager_run(fresh_manager(description), events.drop_last()).0;
    if events.len() == 1 {
        assert(before == fresh_manager(description));
        assert(manager_wf(before));
    } else {
        law_agents_run_in_order(description, events.drop_last());
    }
    law_manager_step_moves_on(before, events.last());
    let run = manager_run(fresh_manager(description), events);
    let end = run.0;
    if is_terminal(run.1.last()) {
        assert(specialist_wf(end.agents[0]));
        assert(specialist_wf(end.agents[1]));
        assert forall|i: int| 0 <= i < end.agents.len() implies !specialist_server_running(
            #[trigger] end.agents[i],
        ) by {
            if i == 1 {
                if run.1.last() is Finish {
                    assert(specialist_state(end.agents[1]) == AgentState::Finished);
                } else if end.current == 0 {
                    assert(end.agents[1] == appointed_agents()[1]);
                } else {
                    let error = run.1.last()->Abort_0;
                    assert(run.1.last() == AgentActionView::Abort(error));
                    assert(specialist_failure(end.agents[1]) == Some(error));
                }
            }
        }
    }
}

} // verus!
