//! The managing agent: it owns the project document and runs the
//! specialised agents on it, one after the other.

use crate::architect::{
    architect_step, architect_wf, fresh_architect, AgentSolutionsArchitect, ArchitectView,
};
use crate::backend::{backend_step, backend_wf, fresh_backend, AgentBackendDeveloper, BackendView};
use crate::basic_agent::{AgentState, BasicAgent};
use crate::factsheet::{blank_document, FactSheet, FactSheetView};
use crate::message::Message;
use crate::protocol::{AgentAction, AgentActionView, AgentEvent, AgentEventView, FatalError};
use vstd::prelude::*;
use vstd::string::*;

verus! {

/// One of the specialised agents.
#[derive(Debug)]
pub enum SpecialistAgent {
    Architect(AgentSolutionsArchitect),
    Backend(AgentBackendDeveloper),
}

/// The mathematical model of a [`SpecialistAgent`].
pub enum SpecialistView {
    Architect(ArchitectView),
    Backend(BackendView),
}

impl View for SpecialistAgent {
    type V = SpecialistView;

    open spec fn view(&self) -> SpecialistView {
        match self {
            SpecialistAgent::Architect(agent) => SpecialistView::Architect(agent@),
            SpecialistAgent::Backend(agent) => SpecialistView::Backend(agent@),
        }
    }
}

impl DeepView for SpecialistAgent {
    type V = SpecialistView;

    open spec fn deep_view(&self) -> SpecialistView {
        self@
    }
}

/// What holds of a specialised agent at all times.
pub open spec fn specialist_wf(agent: SpecialistView) -> bool {
    match agent {
        SpecialistView::Architect(a) => architect_wf(a),
        SpecialistView::Backend(a) => backend_wf(a),
    }
}

/// The place of a specialised agent in its lifecycle.
pub open spec fn specialist_state(agent: SpecialistView) -> AgentState {
    match agent {
        SpecialistView::Architect(a) => a.state,
        SpecialistView::Backend(a) => a.state,
    }
}

/// Why a specialised agent gave the run up, if it did.
pub open spec fn specialist_failure(agent: SpecialistView) -> Option<FatalError> {
    match agent {
        SpecialistView::Architect(a) => a.failure,
        SpecialistView::Backend(a) => a.failure,
    }
}

/// One step of a specialised agent.
pub open spec fn specialist_step(agent: SpecialistView, d: FactSheetView, e: AgentEventView) -> (
    SpecialistView,
    FactSheetView,
    AgentActionView,
) {
    match agent {
        SpecialistView::Architect(a) => {
            let next = architect_step(a, d, e);
            (SpecialistView::Architect(next.0), next.1, next.2)
        },
        SpecialistView::Backend(a) => {
            let next = backend_step(a, d, e);
            (SpecialistView::Backend(next.0), next.1, next.2)
        },
    }
}

impl SpecialistAgent {
    /// What holds of the agent at all times.
    pub open spec fn wf(&self) -> bool {
        specialist_wf(self@)
    }

    /// The agent's attributes.
    pub fn get_attributes_from_agent(&self) -> (attributes: &BasicAgent)
        ensures
            attributes.state == specialist_state(self@),
            match self@ {
                SpecialistView::Architect(a) => attributes.objective@ == a.objective
                    && attributes.position@ == a.position && attributes.memory@ == a.memory,
                SpecialistView::Backend(a) => attributes.objective@ == a.objective
                    && attributes.position@ == a.position && attributes.memory@ == a.memory,
            },
    {
        match self {
            SpecialistAgent::Architect(agent) => agent.get_attributes_from_agent(),
            SpecialistAgent::Backend(agent) => agent.get_attributes_from_agent(),
        }
    }

    /// Runs the agent until it needs its host again.
    pub fn execute(&mut self, factsheet: &mut FactSheet, event: AgentEvent) -> (action:
        AgentAction)
        requires
            old(self).wf(),
        ensures
            final(self).wf(),
            (final(self)@, final(factsheet)@, action@) == specialist_step(
                old(self)@,
                old(factsheet)@,
                event@,
            ),
            action@ is Finish ==> specialist_state(final(self)@) == AgentState::Finished,
    {
        match self {
            SpecialistAgent::Architect(agent) => agent.execute(factsheet, event),
            SpecialistAgent::Backend(agent) => agent.execute(factsheet, event),
        }
    }
}

/// The agent that runs a project.
#[derive(Debug)]
pub struct ManagingAgent {
    attributes: BasicAgent,
    factsheet: FactSheet,
    agents: Vec<SpecialistAgent>,
    current: usize,
}

/// The mathematical model of a [`ManagingAgent`].
pub struct ManagerView {
    pub objective: Seq<char>,
    pub position: Seq<char>,
    pub memory: Seq<Message>,
    pub state: AgentState,
    /// The project document.
    pub factsheet: FactSheetView,
    /// The specialised agents, in the order in which they run.
    pub agents: Seq<SpecialistView>,
    /// How many of them have finished.
    pub current: nat,
}

/// The objective of the managing agent.
pub open spec fn manager_objective() -> Seq<char> {
    "Manage agents who are building an execellent website for the user"@
}

/// The position of the managing agent.
pub open spec fn manager_position() -> Seq<char> {
    "Project Manager"@
}

/// The managing agent of a new run, for the project that `description`
/// describes.
pub open spec fn fresh_manager(description: Seq<char>) -> ManagerView {
    ManagerView {
        objective: manager_objective(),
        position: manager_position(),
        memory: Seq::empty(),
        state: AgentState::Discovery,
        factsheet: blank_document(description),
        agents: Seq::empty(),
        current: 0,
    }
}

/// The agents of a run, in the order in which they run: the architect, then
/// the backend developer.
pub open spec fn appointed_agents() -> Seq<SpecialistView> {
    seq![
        SpecialistView::Architect(fresh_architect()),
        SpecialistView::Backend(fresh_backend()),
    ]
}

/// What holds of a managing agent at all times.
pub open spec fn manager_wf(m: ManagerView) -> bool {
    &&& m.current <= m.agents.len()
    &&& forall|i: int| 0 <= i < m.agents.len() ==> specialist_wf(#[trigger] m.agents[i])
    &&& forall|i: int|
        0 <= i < m.current ==> specialist_state(#[trigger] m.agents[i]) == AgentState::Finished
}

/// The managing agent with its agents appointed, if they were not.
pub open spec fn manager_staffed(m: ManagerView) -> ManagerView {
    if m.agents.len() == 0 {
        ManagerView { agents: appointed_agents(), current: 0, ..m }
    } else {
        m
    }
}

/// Hands `e` to the agent whose turn it is. When that agent finishes, the
/// next one is started at once; when none is left, the run has finished.
pub open spec fn manager_drive(m: ManagerView, e: AgentEventView) -> (ManagerView, AgentActionView)
    decreases m.agents.len() - m.current,
{
    if m.current >= m.agents.len() {
        (m, AgentActionView::Finish)
    } else {
        let next = specialist_step(m.agents[m.current as int], m.factsheet, e);
        let moved = ManagerView {
            agents: m.agents.update(m.current as int, next.0),
            factsheet: next.1,
            ..m
        };
        if next.2 is Finish {
            manager_drive(
                ManagerView { current: m.current + 1, ..moved },
                AgentEventView::Proceed,
            )
        } else {
            (moved, next.2)
        }
    }
}

/// One step of the managing agent: the agent after the host has reported
/// `e`, and what is asked for next.
pub open spec fn manager_step(m: ManagerView, e: AgentEventView) -> (ManagerView, AgentActionView) {
    manager_drive(manager_staffed(m), e)
}

impl View for ManagingAgent {
    type V = ManagerView;

    closed spec fn view(&self) -> ManagerView {
        ManagerView {
            objective: self.attributes.objective@,
            position: self.attributes.position@,
            memory: self.attributes.memory@,
            state: self.attributes.state,
            factsheet: self.factsheet@,
            agents: self.agents.deep_view(),
            current: self.current as nat,
        }
    }
}

impl ManagingAgent {
    /// What holds of the agent at all times.
    pub open spec fn wf(&self) -> bool {
        manager_wf(self@)
    }

    /// The managing agent of a new run. `project_description` is the
    /// user's request as the gateway has summed it up; the document starts
    /// with it and with nothing else.
    pub fn new(project_description: String) -> (manager: Self)
        ensures
            manager.wf(),
            manager@ == fresh_manager(project_description@),
    {
        let attributes = BasicAgent {
            objective: String::from_str(
                "Manage agents who are building an execellent website for the user",
            ),
            position: String::from_str("Project Manager"),
            state: AgentState::Discovery,
            memory: Vec::new(),
        };
        let manager = ManagingAgent {
            attributes,
            factsheet: FactSheet::new(project_description),
            agents: Vec::new(),
            current: 0,
        };
        assert(manager@.agents =~= Seq::empty());
        manager
    }

    /// The managing agent's own attributes.
    pub fn get_attributes(&self) -> (attributes: &BasicAgent)
        ensures
            attributes.objective@ == self@.objective,
            attributes.position@ == self@.position,
            attributes.memory@ == self@.memory,
            attributes.state == self@.state,
    {
        &self.attributes
    }

    /// The project document.
    pub fn factsheet(&self) -> (factsheet: &FactSheet)
        ensures
            factsheet@ == self@.factsheet,
    {
        &self.factsheet
    }

    /// The agent whose turn it is, if any: none before the agents are
    /// appointed, and none once all have finished.
    pub fn current_agent(&self) -> (agent: Option<&SpecialistAgent>)
        ensures
            match agent {
                Some(found) => self@.current < self@.agents.len() && found@
                    == self@.agents[self@.current as int],
                None => self@.current >= self@.agents.len(),
            },
    {
        assert(self.agents.deep_view().len() == self.agents.len());
        if self.current < self.agents.len() {
            assert(self.agents.deep_view()[self.current as int] == self.agents[self.current as int]@);
            Some(&self.agents[self.current])
        } else {
            None
        }
    }

    /// How many of the agents have finished.
    pub fn finished_agents(&self) -> (count: usize)
        ensures
            count == self@.current,
    {
        self.current
    }

    fn add_agent(&mut self, agent: SpecialistAgent)
        requires
            old(self).wf(),
            agent.wf(),
        ensures
            final(self).wf(),
            final(self)@ == (ManagerView { agents: old(self)@.agents.push(agent@), ..old(self)@ }),
    {
        let ghost before = self.agents.deep_view();
        self.agents.push(agent);
        assert(self.agents.deep_view() =~= before.push(agent@));
    }

    fn create_agents(&mut self)
        requires
            old(self).wf(),
            old(self)@.agents.len() == 0,
        ensures
            final(self).wf(),
            final(self)@ == (ManagerView { agents: appointed_agents(), current: 0, ..old(self)@ }),
    {
        self.add_agent(SpecialistAgent::Architect(AgentSolutionsArchitect::new()));
        self.add_agent(SpecialistAgent::Backend(AgentBackendDeveloper::new()));
        assert(self@.agents =~= appointed_agents());
    }

    /// Runs the project until the host is needed again. `event` is what the
    /// host reports of the last request; the result is the next request.
    ///
    /// At the first call the architect and the backend developer are
    /// appointed, in this order. Each event goes to the agent whose turn it
    /// is. When that agent finishes, the next one starts at once, on the
    /// same document. When the last one has finished, the result is
    /// `Finish`. A failure of an agent is the failure of the run.
    pub fn execute_project(&mut self, event: AgentEvent) -> (action: AgentAction)
        requires
            old(self).wf(),
        ensures
            final(self).wf(),
            (final(self)@, action@) == manager_step(old(self)@, event@),
    {
        let ghost goal = manager_step(self@, event@);
        assert(self.agents.deep_view().len() == self.agents.len());
        if self.agents.len() == 0 {
            self.create_agents();
        }
        let mut pending = event;
        while self.current < self.agents.len()
            invariant
                self.wf(),
                self.agents.deep_view().len() == self.agents.len(),
                manager_drive(self@, pending@) == goal,
                goal == manager_step(old(self)@, event@),
            decreases self.agents.len() - self.current,
        {
            let current = self.current;
            let ghost before = self@;
            let ghost reported = pending@;
            let action = self.agents[current].execute(&mut self.factsheet, pending);
            proof {
                let next = specialist_step(
                    before.agents[current as int],
                    before.factsheet,
                    reported,
                );
                assert(self.agents.deep_view() =~= before.agents.update(current as int, next.0));
                assert(self@ == (ManagerView {
                    agents: before.agents.update(current as int, next.0),
                    factsheet: next.1,
                    ..before
                }));
                assert(action@ == next.2);
            }
            match action {
                AgentAction::Finish => {
                    self.current = current + 1;
                    pending = AgentEvent::Proceed;
                },
                other => {
                    return other;
                },
            }
        }
        AgentAction::Finish
    }
}

} // verus!
