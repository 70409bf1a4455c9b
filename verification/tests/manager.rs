use agent_pipeline::basic_agent::AgentState;
use agent_pipeline::factsheet::{FactSheet, ProjectScope, RouteObject};
use agent_pipeline::manager::{ManagingAgent, SpecialistAgent};
use agent_pipeline::architect::AgentSolutionsArchitect;
use agent_pipeline::backend::AgentBackendDeveloper;
use agent_pipeline::protocol::{AgentAction, AgentEvent, FatalError, GatewayTask, ProbeOutcome};

fn scope(is_external_urls_required: bool) -> ProjectScope {
    ProjectScope {
        is_crud_required: true,
        is_user_login_and_logout: false,
        is_external_urls_required,
    }
}

fn routes() -> Vec<RouteObject> {
    vec![RouteObject {
        is_route_dynamic: false,
        method: "get".to_string(),
        request_body: serde_json::Value::Null,
        response: serde_json::Value::Null,
        route: "/progress".to_string(),
    }]
}

/// Plays the host of a whole project. Returns the requests that were made.
fn run_project(manager: &mut ManagingAgent, needs_urls: bool, confirm: bool) -> Vec<AgentAction> {
    let mut requests = Vec::new();
    let mut action = manager.execute_project(AgentEvent::Proceed);
    loop {
        requests.push(action.clone());
        let event = match action {
            AgentAction::AskGateway(GatewayTask::ProjectScope { .. }) => {
                AgentEvent::ScopeDecoded(scope(needs_urls))
            }
            AgentAction::AskGateway(GatewayTask::SiteUrls { .. }) => AgentEvent::UrlsDecoded(vec![
                "https://worldtimeapi.org/api/timezone".to_string(),
                "https://down.example".to_string(),
            ]),
            AgentAction::AskGateway(GatewayTask::RestApiEndpoints) => {
                AgentEvent::RoutesDecoded { raw: "[]".to_string(), routes: routes() }
            }
            AgentAction::AskGateway(_) => AgentEvent::GatewayText("fn main() {}".to_string()),
            AgentAction::ConfirmSafeCode => AgentEvent::Confirmation(confirm),
            AgentAction::BuildProject => {
                AgentEvent::BuildFinished { success: true, stderr: String::new() }
            }
            AgentAction::Probe { ref url, .. } => {
                if url == "https://down.example" {
                    AgentEvent::Probed(ProbeOutcome::TransportError)
                } else {
                    AgentEvent::Probed(ProbeOutcome::Status(200))
                }
            }
            AgentAction::Finish | AgentAction::Abort(_) => return requests,
            _ => AgentEvent::Proceed,
        };
        action = manager.execute_project(event);
    }
}

#[test]
fn test_managing_agent() {
    let usr_req = "need a full stack app that fetches and tracks my fitness progress. Need to include timezone from the web".to_string();
    let mut managin_agent = ManagingAgent::new(usr_req);
    let requests = run_project(&mut managin_agent, true, true);
    assert_eq!(requests.last(), Some(&AgentAction::Finish));
    let factsheet = managin_agent.factsheet();
    assert_eq!(factsheet.project_scope, Some(scope(true)));
    assert_eq!(
        factsheet.external_url,
        Some(vec!["https://worldtimeapi.org/api/timezone".to_string()])
    );
    assert_eq!(factsheet.backend_code, Some("fn main() {}".to_string()));
    assert_eq!(factsheet.api_endpoint_schema, Some(routes()));
}

#[test]
fn a_new_manager_has_a_blank_document_and_no_agents_at_work() {
    let manager = ManagingAgent::new("build a site with a login page".to_string());
    assert_eq!(manager.factsheet(), &FactSheet::new("build a site with a login page".to_string()));
    assert_eq!(manager.finished_agents(), 0);
    let attributes = manager.get_attributes();
    assert_eq!(
        attributes.objective,
        "Manage agents who are building an execellent website for the user"
    );
    assert_eq!(attributes.position, "Project Manager");
    assert_eq!(attributes.state, AgentState::Discovery);
    assert!(attributes.memory.is_empty());
}

#[test]
fn the_architect_runs_before_the_backend_developer() {
    let mut manager = ManagingAgent::new("build a site with a login page".to_string());
    let requests = run_project(&mut manager, false, true);
    assert!(matches!(requests[0], AgentAction::AskGateway(GatewayTask::ProjectScope { .. })));
    assert!(matches!(requests[1], AgentAction::AskGateway(GatewayTask::InitialCode { .. })));
    assert_eq!(requests.last(), Some(&AgentAction::Finish));
    assert_eq!(manager.finished_agents(), 2);
    assert_eq!(manager.factsheet().external_url, None);
    assert_eq!(manager.factsheet().project_description, "build a site with a login page");
}

#[test]
fn the_backend_developer_starts_as_soon_as_the_architect_has_finished() {
    let mut manager = ManagingAgent::new("build a site with a login page".to_string());
    let action = manager.execute_project(AgentEvent::Proceed);
    assert_eq!(
        action,
        AgentAction::AskGateway(GatewayTask::ProjectScope {
            description: "build a site with a login page".to_string()
        })
    );
    assert_eq!(manager.finished_agents(), 0);
    let action = manager.execute_project(AgentEvent::ScopeDecoded(scope(false)));
    assert_eq!(
        action,
        AgentAction::AskGateway(GatewayTask::InitialCode {
            description: "build a site with a login page".to_string()
        })
    );
    assert_eq!(manager.finished_agents(), 1);
}

#[test]
fn a_failure_of_an_agent_is_the_failure_of_the_run() {
    let mut manager = ManagingAgent::new("build a site with a login page".to_string());
    let requests = run_project(&mut manager, false, false);
    assert_eq!(requests.last(), Some(&AgentAction::Abort(FatalError::UnsafeCodeDeclined)));
    assert_eq!(manager.finished_agents(), 1);
    assert_eq!(manager.factsheet().api_endpoint_schema, None);
    assert_eq!(
        manager.execute_project(AgentEvent::Proceed),
        AgentAction::Abort(FatalError::UnsafeCodeDeclined)
    );
}

#[test]
fn a_finished_project_stays_finished() {
    let mut manager = ManagingAgent::new("build a site with a login page".to_string());
    run_project(&mut manager, true, true);
    let document = manager.factsheet().clone();
    assert_eq!(manager.execute_project(AgentEvent::Proceed), AgentAction::Finish);
    assert_eq!(manager.execute_project(AgentEvent::GatewayFailed), AgentAction::Finish);
    assert_eq!(manager.factsheet(), &document);
    assert_eq!(manager.finished_agents(), 2);
}

#[test]
fn a_specialist_answers_for_the_agent_that_it_holds() {
    let mut document = FactSheet::new("x".to_string());
    let mut architect = SpecialistAgent::Architect(AgentSolutionsArchitect::new());
    let mut developer = SpecialistAgent::Backend(AgentBackendDeveloper::new());
    assert_eq!(architect.get_attributes_from_agent().position, "Solutions Architect");
    assert_eq!(developer.get_attributes_from_agent().position, "Backend developer");
    assert_eq!(
        architect.execute(&mut document, AgentEvent::Proceed),
        AgentAction::AskGateway(GatewayTask::ProjectScope { description: "x".to_string() })
    );
    assert_eq!(
        developer.execute(&mut document, AgentEvent::Proceed),
        AgentAction::AskGateway(GatewayTask::InitialCode { description: "x".to_string() })
    );
}
