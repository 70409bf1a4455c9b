//! The solutions architect: the agent that decides the scope of a project
//! and, where the project needs outside data, finds URLs that answer.

use crate::basic_agent::{AgentState, BasicAgent};
use crate::factsheet::{retain_surviving_urls, surviving_urls, FactSheet, FactSheetView};
use crate::message::Message;
use crate::protocol::{
    is_healthy, AgentAction, AgentActionView, AgentEvent, AgentEventView, FatalError, GatewayTask,
    GatewayTaskView, ProbeOutcome, PROBE_TIMEOUT_SECS,
};
use crate::text::clone_texts;
use vstd::prelude::*;
use vstd::string::*;

verus! {

/// What the architect is waiting for.
#[derive(Debug, Clone, Copy, PartialEq, Eq, Structural)]
pub enum ArchitectStage {
    /// Nothing: the next phase has not been started.
    Idle,
    /// The gateway's decision on the scope.
    AwaitingScope,
    /// The gateway's list of URLs.
    AwaitingUrls,
    /// The outcome of a probe.
    AwaitingProbe,
    /// Nothing: the agent has finished or failed.
    Closed,
}

/// The agent that scopes a project and vets its outside URLs.
#[derive(Debug)]
pub struct AgentSolutionsArchitect {
    attributes: BasicAgent,
    stage: ArchitectStage,
    probe_urls: Vec<String>,
    probe_index: usize,
    exclude_urls: Vec<String>,
    failure: Option<FatalError>,
}

/// The mathematical model of an [`AgentSolutionsArchitect`].
pub struct ArchitectView {
    pub objective: Seq<char>,
    pub position: Seq<char>,
    pub memory: Seq<Message>,
    /// The place in the lifecycle.
    pub state: AgentState,
    /// What the agent is waiting for.
    pub stage: ArchitectStage,
    /// The URLs that are probed, in the order of the probes.
    pub probe_urls: Seq<Seq<char>>,
    /// How many of them have been probed.
    pub probe_index: nat,
    /// The URLs whose probe was not healthy, in the order of the probes.
    pub exclude_urls: Seq<Seq<char>>,
    /// Why the run was given up, if it was.
    pub failure: Option<FatalError>,
}

/// The objective of the architect.
pub open spec fn architect_objective() -> Seq<char> {
    "Gathers information and designs solutions for website"@
}

/// The position of the architect.
pub open spec fn architect_position() -> Seq<char> {
    "Solutions Architect"@
}

/// The architect before its first step.
pub open spec fn fresh_architect() -> ArchitectView {
    ArchitectView {
        objective: architect_objective(),
        position: architect_position(),
        memory: Seq::empty(),
        state: AgentState::Discovery,
        stage: ArchitectStage::Idle,
        probe_urls: Seq::empty(),
        probe_index: 0,
        exclude_urls: Seq::empty(),
        failure: None,
    }
}

/// What holds of an architect at all times.
pub open spec fn architect_wf(a: ArchitectView) -> bool {
    &&& a.probe_index <= a.probe_urls.len()
    &&& a.stage == ArchitectStage::AwaitingProbe ==> a.probe_index < a.probe_urls.len()
    &&& a.failure is Some ==> a.stage == ArchitectStage::Closed
    &&& a.stage == ArchitectStage::Closed && a.failure is None ==> a.state == AgentState::Finished
    &&& a.stage == ArchitectStage::AwaitingScope || a.stage == ArchitectStage::AwaitingUrls
        ==> a.state == AgentState::Discovery
    &&& a.stage == ArchitectStage::AwaitingProbe ==> a.state == AgentState::UnitTesting
}

/// Gives the run up.
pub open spec fn architect_fail(a: ArchitectView, d: FactSheetView, error: FatalError) -> (
    ArchitectView,
    FactSheetView,
    AgentActionView,
) {
    (
        ArchitectView { stage: ArchitectStage::Closed, failure: Some(error), ..a },
        d,
        AgentActionView::Abort(error),
    )
}

/// Ends the agent's work.
pub open spec fn architect_finish(a: ArchitectView, d: FactSheetView) -> (
    ArchitectView,
    FactSheetView,
    AgentActionView,
) {
    (
        ArchitectView { state: AgentState::Finished, stage: ArchitectStage::Closed, ..a },
        d,
        AgentActionView::Finish,
    )
}

/// The document once the probes are over: the URLs whose probe was not
/// healthy have left the list.
pub open spec fn document_after_probes(a: ArchitectView, d: FactSheetView) -> FactSheetView {
    if a.exclude_urls.len() > 0 {
        FactSheetView { external_url: Some(surviving_urls(a.probe_urls, a.exclude_urls)), ..d }
    } else {
        d
    }
}

/// Probes the next URL, or, when none is left, removes the URLs that did not
/// answer well and ends the agent's work.
pub open spec fn architect_next_probe(a: ArchitectView, d: FactSheetView) -> (
    ArchitectView,
    FactSheetView,
    AgentActionView,
) {
    if a.probe_index < a.probe_urls.len() {
        (
            ArchitectView { stage: ArchitectStage::AwaitingProbe, ..a },
            d,
            AgentActionView::Probe {
                url: a.probe_urls[a.probe_index as int],
                timeout_secs: PROBE_TIMEOUT_SECS,
            },
        )
    } else {
        architect_finish(a, document_after_probes(a, d))
    }
}

/// The architect at the start of the probes of `urls`.
pub open spec fn architect_testing(a: ArchitectView, urls: Seq<Seq<char>>) -> ArchitectView {
    ArchitectView {
        state: AgentState::UnitTesting,
        probe_urls: urls,
        probe_index: 0,
        exclude_urls: Seq::empty(),
        ..a
    }
}

/// Starts the phase that the lifecycle names.
pub open spec fn architect_begin(a: ArchitectView, d: FactSheetView) -> (
    ArchitectView,
    FactSheetView,
    AgentActionView,
) {
    match a.state {
        AgentState::Discovery => (
            ArchitectView { stage: ArchitectStage::AwaitingScope, ..a },
            d,
            AgentActionView::AskGateway(
                GatewayTaskView::ProjectScope { description: d.project_description },
            ),
        ),
        AgentState::UnitTesting => match d.external_url {
            Some(urls) => architect_next_probe(architect_testing(a, urls), d),
            None => architect_fail(a, d, FatalError::MissingUrls),
        },
        _ => architect_finish(a, d),
    }
}

/// What the outcome of a probe leads to.
pub open spec fn architect_after_probe(a: ArchitectView, d: FactSheetView, outcome: ProbeOutcome)
    -> (ArchitectView, FactSheetView, AgentActionView) {
    let noted = if is_healthy(outcome) {
        a
    } else {
        ArchitectView {
            exclude_urls: a.exclude_urls.push(a.probe_urls[a.probe_index as int]),
            ..a
        }
    };
    architect_next_probe(ArchitectView { probe_index: a.probe_index + 1, ..noted }, d)
}

/// The answer of a closed agent: how it ended.
pub open spec fn architect_closed(a: ArchitectView) -> AgentActionView {
    match a.failure {
        Some(error) => AgentActionView::Abort(error),
        None => AgentActionView::Finish,
    }
}

/// One step of the architect: the agent `a` and the document `d` after the
/// host has reported `e`, and what the agent asks for next.
pub open spec fn architect_step(a: ArchitectView, d: FactSheetView, e: AgentEventView) -> (
    ArchitectView,
    FactSheetView,
    AgentActionView,
) {
    match a.stage {
        ArchitectStage::Idle => match e {
            AgentEventView::Proceed => architect_begin(a, d),
            _ => architect_fail(a, d, FatalError::OutOfTurn),
        },
        ArchitectStage::AwaitingScope => match e {
            AgentEventView::ScopeDecoded(scope) => {
                let scoped = FactSheetView { project_scope: Some(scope), ..d };
                if scope.is_external_urls_required {
                    (
                        ArchitectView { stage: ArchitectStage::AwaitingUrls, ..a },
                        scoped,
                        AgentActionView::AskGateway(
                            GatewayTaskView::SiteUrls { description: d.project_description },
                        ),
                    )
                } else {
                    architect_finish(a, scoped)
                }
            },
            AgentEventView::GatewayFailed => architect_fail(a, d, FatalError::GatewayUnavailable),
            AgentEventView::DecodeFailed => architect_fail(a, d, FatalError::UndecodableReply),
            _ => architect_fail(a, d, FatalError::OutOfTurn),
        },
        ArchitectStage::AwaitingUrls => match e {
            AgentEventView::UrlsDecoded(urls) => architect_next_probe(
                architect_testing(a, urls),
                FactSheetView { external_url: Some(urls), ..d },
            ),
            AgentEventView::GatewayFailed => architect_fail(a, d, FatalError::GatewayUnavailable),
            AgentEventView::DecodeFailed => architect_fail(a, d, FatalError::UndecodableReply),
            _ => architect_fail(a, d, FatalError::OutOfTurn),
        },
        ArchitectStage::AwaitingProbe => match e {
            AgentEventView::Probed(outcome) => architect_after_probe(a, d, outcome),
            _ => architect_fail(a, d, FatalError::OutOfTurn),
        },
        ArchitectStage::Closed => (a, d, architect_closed(a)),
    }
}

impl View for AgentSolutionsArchitect {
    type V = ArchitectView;

    closed spec fn view(&self) -> ArchitectView {
        ArchitectView {
            objective: self.attributes.objective@,
            position: self.attributes.position@,
            memory: self.attributes.memory@,
            state: self.attributes.state,
            stage: self.stage,
            probe_urls: self.probe_urls.deep_view(),
            probe_index: self.probe_index as nat,
            exclude_urls: self.exclude_urls.deep_view(),
            failure: self.failure,
        }
    }
}

impl AgentSolutionsArchitect {
    /// What holds of the agent at all times.
    pub open spec fn wf(&self) -> bool {
        architect_wf(self@)
    }

    /// An architect at the start of its lifecycle.
    pub fn new() -> (agent: Self)
        ensures
            agent.wf(),
            agent@ == fresh_architect(),
    {
        Self::starting_at(AgentState::Discovery)
    }

    /// An architect that takes its work up in the lifecycle state `state`.
    pub fn starting_at(state: AgentState) -> (agent: Self)
        ensures
            agent.wf(),
            agent@ == (ArchitectView { state, ..fresh_architect() }),
    {
        let attributes = BasicAgent {
            objective: String::from_str("Gathers information and designs solutions for website"),
            position: String::from_str("Solutions Architect"),
            state,
            memory: Vec::new(),
        };
        let agent = AgentSolutionsArchitect {
            attributes,
            stage: ArchitectStage::Idle,
            probe_urls: Vec::new(),
            probe_index: 0,
            exclude_urls: Vec::new(),
            failure: None,
        };
        assert(agent@.probe_urls =~= Seq::empty());
        assert(agent@.exclude_urls =~= Seq::empty());
        agent
    }

    /// The agent's attributes.
    pub fn get_attributes_from_agent(&self) -> (attributes: &BasicAgent)
        ensures
            attributes.objective@ == self@.objective,
            attributes.position@ == self@.position,
            attributes.memory@ == self@.memory,
            attributes.state == self@.state,
    {
        &self.attributes
    }

    /// The URLs whose probe was not healthy.
    pub fn exclude_urls(&self) -> (excluded: &Vec<String>)
        ensures
            excluded.deep_view() == self@.exclude_urls,
    {
        &self.exclude_urls
    }

    /// Why the run was given up, if it was.
    pub fn failure(&self) -> (failure: Option<FatalError>)
        ensures
            failure == self@.failure,
    {
        self.failure
    }

    fn fail(&mut self, error: FatalError) -> (action: AgentAction)
        requires
            old(self)@.probe_index <= old(self)@.probe_urls.len(),
        ensures
            final(self).wf(),
            forall|d: FactSheetView|
                (final(self)@, d, action@) == #[trigger] architect_fail(old(self)@, d, error),
    {
        self.failure = Some(error);
        self.stage = ArchitectStage::Closed;
        AgentAction::Abort(error)
    }

    fn finish(&mut self) -> (action: AgentAction)
        requires
            old(self)@.probe_index <= old(self)@.probe_urls.len(),
            old(self)@.failure is None,
        ensures
            final(self).wf(),
            forall|d: FactSheetView|
                (final(self)@, d, action@) == #[trigger] architect_finish(old(self)@, d),
    {
        self.attributes.state = AgentState::Finished;
        self.stage = ArchitectStage::Closed;
        AgentAction::Finish
    }

    fn next_probe(&mut self, factsheet: &mut FactSheet) -> (action: AgentAction)
        requires
            old(self)@.probe_index <= old(self)@.probe_urls.len(),
            old(self)@.failure is None,
            old(self)@.state == AgentState::UnitTesting,
        ensures
            final(self).wf(),
            (final(self)@, final(factsheet)@, action@) == architect_next_probe(
                old(self)@,
                old(factsheet)@,
            ),
    {
        assert(self.probe_urls.deep_view().len() == self.probe_urls.len());
        if self.probe_index < self.probe_urls.len() {
            self.stage = ArchitectStage::AwaitingProbe;
            assert(self.probe_urls.deep_view()[self.probe_index as int]
                == self.probe_urls[self.probe_index as int]@);
            AgentAction::Probe {
                url: self.probe_urls[self.probe_index].clone(),
                timeout_secs: PROBE_TIMEOUT_SECS,
            }
        } else {
            assert(self.exclude_urls.deep_view().len() == self.exclude_urls.len());
            if self.exclude_urls.len() > 0 {
                let new_urls = retain_surviving_urls(&self.probe_urls, &self.exclude_urls);
                factsheet.external_url = Some(new_urls);
            }
            self.finish()
        }
    }

    fn start_testing(&mut self, urls: Vec<String>)
        requires
            old(self)@.failure is None,
        ensures
            final(self)@ == architect_testing(old(self)@, urls.deep_view()),
    {
        self.attributes.state = AgentState::UnitTesting;
        self.probe_urls = urls;
        self.probe_index = 0;
        self.exclude_urls = Vec::new();
        assert(self.exclude_urls.deep_view() =~= Seq::empty());
    }

    fn begin(&mut self, factsheet: &mut FactSheet) -> (action: AgentAction)
        requires
            old(self).wf(),
            old(self)@.stage == ArchitectStage::Idle,
        ensures
            final(self).wf(),
            (final(self)@, final(factsheet)@, action@) == architect_begin(
                old(self)@,
                old(factsheet)@,
            ),
    {
        match self.attributes.state {
            AgentState::Discovery => {
                self.stage = ArchitectStage::AwaitingScope;
                AgentAction::AskGateway(
                    GatewayTask::ProjectScope {
                        description: factsheet.project_description.clone(),
                    },
                )
            },
            AgentState::UnitTesting => match &factsheet.external_url {
                Some(urls) => {
                    let copy = clone_texts(urls);
                    self.start_testing(copy);
                    self.next_probe(factsheet)
                },
                None => self.fail(FatalError::MissingUrls),
            },
            _ => self.finish(),
        }
    }

    fn after_probe(&mut self, factsheet: &mut FactSheet, outcome: ProbeOutcome) -> (action:
        AgentAction)
        requires
            old(self).wf(),
            old(self)@.stage == ArchitectStage::AwaitingProbe,
        ensures
            final(self).wf(),
            (final(self)@, final(factsheet)@, action@) == architect_after_probe(
                old(self)@,
                old(factsheet)@,
                outcome,
            ),
    {
        assert(self.probe_urls.deep_view().len() == self.probe_urls.len());
        if !outcome.is_healthy() {
            let ghost noted = self.exclude_urls.deep_view();
            let url = self.probe_urls[self.probe_index].clone();
            self.exclude_urls.push(url);
            assert(self.exclude_urls.deep_view() =~= noted.push(
                self.probe_urls.deep_view()[self.probe_index as int],
            ));
        }
        self.probe_index = self.probe_index + 1;
        self.next_probe(factsheet)
    }

    /// Runs the agent until it needs its host again. `event` is what the host
    /// reports of the last request; the result is the next request.
    ///
    /// The agent asks for the scope of the project and stores it in the
    /// document. Where the scope asks for outside URLs, the agent asks for
    /// them, stores them, and has each of them probed. A URL whose probe
    /// gave no answer, or an answer with another status than 200, leaves the
    /// list; the others stay in their order. One failed probe does not end
    /// the run.
    pub fn execute(&mut self, factsheet: &mut FactSheet, event: AgentEvent) -> (action:
        AgentAction)
        requires
            old(self).wf(),
        ensures
            final(self).wf(),
            (final(self)@, final(factsheet)@, action@) == architect_step(
                old(self)@,
                old(factsheet)@,
                event@,
            ),
    {
        match self.stage {
            ArchitectStage::Idle => match event {
                AgentEvent::Proceed => self.begin(factsheet),
                _ => self.fail(FatalError::OutOfTurn),
            },
            ArchitectStage::AwaitingScope => match event {
                AgentEvent::ScopeDecoded(scope) => {
                    factsheet.project_scope = Some(scope);
                    if scope.is_external_urls_required {
                        self.stage = ArchitectStage::AwaitingUrls;
                        AgentAction::AskGateway(
                            GatewayTask::SiteUrls {
                                description: factsheet.project_description.clone(),
                            },
                        )
                    } else {
                        self.finish()
                    }
                },
                AgentEvent::GatewayFailed => self.fail(FatalError::GatewayUnavailable),
                AgentEvent::DecodeFailed => self.fail(FatalError::UndecodableReply),
                _ => self.fail(FatalError::OutOfTurn),
            },
            ArchitectStage::AwaitingUrls => match event {
                AgentEvent::UrlsDecoded(urls) => {
                    let copy = clone_texts(&urls);
                    factsheet.external_url = Some(urls);
                    self.start_testing(copy);
                    self.next_probe(factsheet)
                },
                AgentEvent::GatewayFailed => self.fail(FatalError::GatewayUnavailable),
                AgentEvent::DecodeFailed => self.fail(FatalError::UndecodableReply),
                _ => self.fail(FatalError::OutOfTurn),
            },
            ArchitectStage::AwaitingProbe => match event {
                AgentEvent::Probed(outcome) => self.after_probe(factsheet, outcome),
                _ => self.fail(FatalError::OutOfTurn),
            },
            ArchitectStage::Closed => match self.failure {
                Some(error) => AgentAction::Abort(error),
                None => AgentAction::Finish,
            },
        }
    }
}

} // verus!
