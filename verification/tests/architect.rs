use agent_pipeline::architect::AgentSolutionsArchitect;
use agent_pipeline::basic_agent::AgentState;
use agent_pipeline::factsheet::{FactSheet, ProjectScope};
use agent_pipeline::protocol::{
    AgentAction, AgentEvent, FatalError, GatewayTask, ProbeOutcome, PROBE_TIMEOUT_SECS,
};

fn texts(items: &[&str]) -> Vec<String> {
    items.iter().map(|item| item.to_string()).collect()
}

fn scope(is_external_urls_required: bool) -> ProjectScope {
    ProjectScope {
        is_crud_required: true,
        is_user_login_and_logout: true,
        is_external_urls_required,
    }
}

fn probe(url: &str) -> AgentAction {
    AgentAction::Probe { url: url.to_string(), timeout_secs: 5 }
}

/// An architect that has been given `urls` and waits for the first probe.
fn architect_with_urls(urls: &[&str]) -> (AgentSolutionsArchitect, FactSheet, AgentAction) {
    let mut agent = AgentSolutionsArchitect::new();
    let mut factsheet = FactSheet::new("track the weather".to_string());
    agent.execute(&mut factsheet, AgentEvent::Proceed);
    agent.execute(&mut factsheet, AgentEvent::ScopeDecoded(scope(true)));
    let action = agent.execute(&mut factsheet, AgentEvent::UrlsDecoded(texts(urls)));
    (agent, factsheet, action)
}

#[test]
fn tests_solution_architect() {
    let mut agent = AgentSolutionsArchitect::new();
    let mut factsheet = FactSheet {
        project_description:
            "Build a full stack website with user login and logout that shows latest Forex prices"
                .to_string(),
        project_scope: None,
        external_url: None,
        backend_code: None,
        api_endpoint_schema: None,
    };
    let mut action = agent.execute(&mut factsheet, AgentEvent::Proceed);
    loop {
        let event = match action {
            AgentAction::AskGateway(GatewayTask::ProjectScope { .. }) => {
                AgentEvent::ScopeDecoded(scope(true))
            }
            AgentAction::AskGateway(GatewayTask::SiteUrls { .. }) => {
                AgentEvent::UrlsDecoded(texts(&["https://api.exchangerate.host/latest"]))
            }
            AgentAction::Probe { .. } => AgentEvent::Probed(ProbeOutcome::Status(200)),
            AgentAction::Finish => break,
            other => panic!("Unable to execute solutions architect agent: {:?}", other),
        };
        action = agent.execute(&mut factsheet, event);
    }
    assert!(factsheet.project_scope != None);
    assert!(factsheet.external_url.is_some());
}

#[test]
fn a_new_architect_starts_in_discovery() {
    let agent = AgentSolutionsArchitect::new();
    let attributes = agent.get_attributes_from_agent();
    assert_eq!(attributes.objective, "Gathers information and designs solutions for website");
    assert_eq!(attributes.position, "Solutions Architect");
    assert_eq!(attributes.state, AgentState::Discovery);
    assert!(attributes.memory.is_empty());
    assert_eq!(agent.failure(), None);
    assert!(agent.exclude_urls().is_empty());
}

#[test]
fn the_scope_is_asked_for_first_with_the_description() {
    let mut agent = AgentSolutionsArchitect::new();
    let mut factsheet = FactSheet::new("build a site with a login page".to_string());
    let action = agent.execute(&mut factsheet, AgentEvent::Proceed);
    assert_eq!(
        action,
        AgentAction::AskGateway(GatewayTask::ProjectScope {
            description: "build a site with a login page".to_string()
        })
    );
    assert_eq!(agent.get_attributes_from_agent().state, AgentState::Discovery);
    assert_eq!(factsheet, FactSheet::new("build a site with a login page".to_string()));
}

#[test]
fn no_outside_data_goes_straight_to_finished() {
    let mut agent = AgentSolutionsArchitect::new();
    let mut factsheet = FactSheet::new("build a site with a login page".to_string());
    agent.execute(&mut factsheet, AgentEvent::Proceed);
    let action = agent.execute(&mut factsheet, AgentEvent::ScopeDecoded(scope(false)));
    assert_eq!(action, AgentAction::Finish);
    assert_eq!(agent.get_attributes_from_agent().state, AgentState::Finished);
    assert_eq!(factsheet.project_scope, Some(scope(false)));
    assert_eq!(factsheet.external_url, None);
    assert_eq!(factsheet.backend_code, None);
    assert_eq!(factsheet.api_endpoint_schema, None);
}

#[test]
fn outside_data_asks_for_urls_and_probes_the_first() {
    let mut agent = AgentSolutionsArchitect::new();
    let mut factsheet = FactSheet::new("show forex prices".to_string());
    agent.execute(&mut factsheet, AgentEvent::Proceed);
    let action = agent.execute(&mut factsheet, AgentEvent::ScopeDecoded(scope(true)));
    assert_eq!(
        action,
        AgentAction::AskGateway(GatewayTask::SiteUrls {
            description: "show forex prices".to_string()
        })
    );
    assert_eq!(agent.get_attributes_from_agent().state, AgentState::Discovery);
    let action = agent.execute(&mut factsheet, AgentEvent::UrlsDecoded(texts(&["u1", "u2"])));
    assert_eq!(action, AgentAction::Probe { url: "u1".to_string(), timeout_secs: PROBE_TIMEOUT_SECS });
    assert_eq!(agent.get_attributes_from_agent().state, AgentState::UnitTesting);
    assert_eq!(factsheet.external_url, Some(texts(&["u1", "u2"])));
}

#[test]
fn an_unhealthy_url_in_the_middle_leaves_the_list() {
    let (mut agent, mut factsheet, action) = architect_with_urls(&["A", "B", "C"]);
    assert_eq!(action, probe("A"));
    let action = agent.execute(&mut factsheet, AgentEvent::Probed(ProbeOutcome::Status(200)));
    assert_eq!(action, probe("B"));
    let action = agent.execute(&mut factsheet, AgentEvent::Probed(ProbeOutcome::Status(404)));
    assert_eq!(action, probe("C"));
    assert_eq!(factsheet.external_url, Some(texts(&["A", "B", "C"])));
    let action = agent.execute(&mut factsheet, AgentEvent::Probed(ProbeOutcome::Status(200)));
    assert_eq!(action, AgentAction::Finish);
    assert_eq!(factsheet.external_url, Some(texts(&["A", "C"])));
    assert_eq!(agent.exclude_urls(), &texts(&["B"]));
    assert_eq!(agent.get_attributes_from_agent().state, AgentState::Finished);
}

#[test]
fn a_probe_without_an_answer_excludes_the_url_and_the_run_goes_on() {
    let (mut agent, mut factsheet, _) = architect_with_urls(&["A", "B"]);
    let action = agent.execute(&mut factsheet, AgentEvent::Probed(ProbeOutcome::TransportError));
    assert_eq!(action, probe("B"));
    let action = agent.execute(&mut factsheet, AgentEvent::Probed(ProbeOutcome::Status(200)));
    assert_eq!(action, AgentAction::Finish);
    assert_eq!(factsheet.external_url, Some(texts(&["B"])));
    assert_eq!(agent.failure(), None);
}

#[test]
fn all_healthy_keeps_the_list() {
    let (mut agent, mut factsheet, _) = architect_with_urls(&["A", "B"]);
    agent.execute(&mut factsheet, AgentEvent::Probed(ProbeOutcome::Status(200)));
    let action = agent.execute(&mut factsheet, AgentEvent::Probed(ProbeOutcome::Status(200)));
    assert_eq!(action, AgentAction::Finish);
    assert_eq!(factsheet.external_url, Some(texts(&["A", "B"])));
    assert!(agent.exclude_urls().is_empty());
}

#[test]
fn all_unhealthy_leaves_an_empty_list() {
    let (mut agent, mut factsheet, _) = architect_with_urls(&["A", "B"]);
    agent.execute(&mut factsheet, AgentEvent::Probed(ProbeOutcome::Status(500)));
    let action = agent.execute(&mut factsheet, AgentEvent::Probed(ProbeOutcome::Status(301)));
    assert_eq!(action, AgentAction::Finish);
    assert_eq!(factsheet.external_url, Some(Vec::new()));
}

#[test]
fn one_failed_probe_removes_every_copy_of_its_url() {
    let (mut agent, mut factsheet, _) = architect_with_urls(&["A", "B", "A"]);
    agent.execute(&mut factsheet, AgentEvent::Probed(ProbeOutcome::Status(200)));
    agent.execute(&mut factsheet, AgentEvent::Probed(ProbeOutcome::Status(200)));
    let action = agent.execute(&mut factsheet, AgentEvent::Probed(ProbeOutcome::Status(503)));
    assert_eq!(action, AgentAction::Finish);
    assert_eq!(factsheet.external_url, Some(texts(&["B"])));
}

#[test]
fn an_empty_list_of_urls_needs_no_probe() {
    let (agent, factsheet, action) = architect_with_urls(&[]);
    assert_eq!(action, AgentAction::Finish);
    assert_eq!(factsheet.external_url, Some(Vec::new()));
    assert_eq!(agent.get_attributes_from_agent().state, AgentState::Finished);
}

#[test]
fn a_gateway_that_fails_ends_the_run() {
    let mut agent = AgentSolutionsArchitect::new();
    let mut factsheet = FactSheet::new("x".to_string());
    agent.execute(&mut factsheet, AgentEvent::Proceed);
    let action = agent.execute(&mut factsheet, AgentEvent::GatewayFailed);
    assert_eq!(action, AgentAction::Abort(FatalError::GatewayUnavailable));
    assert_eq!(agent.failure(), Some(FatalError::GatewayUnavailable));
    assert_eq!(factsheet, FactSheet::new("x".to_string()));
}

#[test]
fn an_answer_that_cannot_be_decoded_ends_the_run() {
    let mut agent = AgentSolutionsArchitect::new();
    let mut factsheet = FactSheet::new("x".to_string());
    agent.execute(&mut factsheet, AgentEvent::Proceed);
    agent.execute(&mut factsheet, AgentEvent::ScopeDecoded(scope(true)));
    let action = agent.execute(&mut factsheet, AgentEvent::DecodeFailed);
    assert_eq!(action, AgentAction::Abort(FatalError::UndecodableReply));
    assert_eq!(factsheet.project_scope, Some(scope(true)));
    assert_eq!(factsheet.external_url, None);
}

#[test]
fn an_event_out_of_turn_ends_the_run() {
    let mut agent = AgentSolutionsArchitect::new();
    let mut factsheet = FactSheet::new("x".to_string());
    let action = agent.execute(&mut factsheet, AgentEvent::Confirmation(true));
    assert_eq!(action, AgentAction::Abort(FatalError::OutOfTurn));
    let (mut agent, mut factsheet, _) = architect_with_urls(&["A"]);
    let action = agent.execute(&mut factsheet, AgentEvent::Proceed);
    assert_eq!(action, AgentAction::Abort(FatalError::OutOfTurn));
    assert_eq!(factsheet.external_url, Some(texts(&["A"])));
}

#[test]
fn a_closed_architect_repeats_how_it_ended() {
    let mut agent = AgentSolutionsArchitect::new();
    let mut factsheet = FactSheet::new("x".to_string());
    agent.execute(&mut factsheet, AgentEvent::Proceed);
    agent.execute(&mut factsheet, AgentEvent::ScopeDecoded(scope(false)));
    let finished = factsheet.clone();
    assert_eq!(agent.execute(&mut factsheet, AgentEvent::Proceed), AgentAction::Finish);
    assert_eq!(
        agent.execute(&mut factsheet, AgentEvent::Probed(ProbeOutcome::Status(404))),
        AgentAction::Finish
    );
    assert_eq!(factsheet, finished);

    let mut failed = AgentSolutionsArchitect::new();
    failed.execute(&mut factsheet, AgentEvent::DecodeFailed);
    assert_eq!(
        failed.execute(&mut factsheet, AgentEvent::Proceed),
        AgentAction::Abort(FatalError::OutOfTurn)
    );
}

#[test]
fn the_tests_can_be_taken_up_with_the_urls_of_the_document() {
    let mut agent = AgentSolutionsArchitect::starting_at(AgentState::UnitTesting);
    let mut factsheet = FactSheet::new("x".to_string());
    factsheet.external_url = Some(texts(&["A", "B"]));
    assert_eq!(agent.execute(&mut factsheet, AgentEvent::Proceed), probe("A"));
    assert_eq!(
        agent.execute(&mut factsheet, AgentEvent::Probed(ProbeOutcome::Status(502))),
        probe("B")
    );
    assert_eq!(
        agent.execute(&mut factsheet, AgentEvent::Probed(ProbeOutcome::Status(200))),
        AgentAction::Finish
    );
    assert_eq!(factsheet.external_url, Some(texts(&["B"])));
}

#[test]
fn tests_without_a_list_of_urls_end_the_run() {
    let mut agent = AgentSolutionsArchitect::starting_at(AgentState::UnitTesting);
    let mut factsheet = FactSheet::new("x".to_string());
    assert_eq!(
        agent.execute(&mut factsheet, AgentEvent::Proceed),
        AgentAction::Abort(FatalError::MissingUrls)
    );
    assert_eq!(agent.failure(), Some(FatalError::MissingUrls));
}

#[test]
fn a_state_without_work_for_the_architect_leads_to_finished() {
    let mut factsheet = FactSheet::new("x".to_string());
    let mut agent = AgentSolutionsArchitect::starting_at(AgentState::Working);
    assert_eq!(agent.execute(&mut factsheet, AgentEvent::Proceed), AgentAction::Finish);
    assert_eq!(agent.get_attributes_from_agent().state, AgentState::Finished);
    let mut agent = AgentSolutionsArchitect::starting_at(AgentState::Finished);
    assert_eq!(agent.execute(&mut factsheet, AgentEvent::Proceed), AgentAction::Finish);
    assert_eq!(factsheet, FactSheet::new("x".to_string()));
}
