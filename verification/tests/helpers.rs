use agent_pipeline::basic_agent::{AgentState, BasicAgent, BasicTrait};
use agent_pipeline::command_line::{
    accepts_answer, agent_label, is_confirmation, statement_line, PrintCommand, TextColor,
};
use agent_pipeline::factsheet::FactSheet;
use agent_pipeline::gateway::{
    authorization_header, first_choice, GatewayDecision, GatewayExchange, GATEWAY_ATTEMPTS,
};
use agent_pipeline::message::{extend_ai_function, Message};
use agent_pipeline::protocol::{GatewayTask, ProbeOutcome, STATUS_OK};

fn convert_user_input_to_goal(_user_request: &str) -> &'static str {
    "fn convert_user_input_to_goal(_user_request: &str) { println!(OUTPUT) }"
}

#[test]
fn test_extending_ai_function() {
    let msg = extend_ai_function(convert_user_input_to_goal, "dummy variable");
    assert_eq!(msg.role, "system".to_string());
}

#[test]
fn the_prompt_names_the_function_and_its_input() {
    let msg = extend_ai_function(|_: &str| "F", "I");
    assert_eq!(
        msg,
        Message {
            role: "system".to_string(),
            content: "FUNCTION F \n    INSTRUCTION: You are a function printer. You ONLY print the result of the functions. Nothing else. No commentary.\n    Here is the input to the function I.\n    Print out what the function will return.\n    ".to_string(),
        }
    );
}

#[test]
fn the_first_failure_is_retried_and_the_second_is_not() {
    assert_eq!(GATEWAY_ATTEMPTS, 2);
    let mut exchange = GatewayExchange::new();
    assert_eq!(exchange.settle(None), GatewayDecision::Retry);
    assert_eq!(exchange.settle(None), GatewayDecision::GiveUp);
    assert_eq!(exchange.settle(None), GatewayDecision::GiveUp);
}

#[test]
fn an_answer_is_delivered_at_the_first_or_the_second_attempt() {
    let mut exchange = GatewayExchange::new();
    assert_eq!(
        exchange.settle(Some("hello".to_string())),
        GatewayDecision::Deliver("hello".to_string())
    );
    let mut exchange = GatewayExchange::new();
    assert_eq!(exchange.settle(None), GatewayDecision::Retry);
    assert_eq!(
        exchange.settle(Some("late".to_string())),
        GatewayDecision::Deliver("late".to_string())
    );
}

#[test]
fn the_key_is_sent_as_a_bearer_token() {
    assert_eq!(authorization_header("SECRET"), "Bearer SECRET");
    assert_eq!(authorization_header(""), "Bearer ");
}

#[test]
fn the_first_choice_is_the_answer() {
    assert_eq!(
        first_choice(&vec!["one".to_string(), "two".to_string()]),
        Some("one".to_string())
    );
    assert_eq!(first_choice(&Vec::new()), None);
}

#[test]
fn each_task_has_the_name_of_its_prompt() {
    let text = || "t".to_string();
    assert_eq!(GatewayTask::ProjectScope { description: text() }.name(), "print_project_scope");
    assert_eq!(GatewayTask::SiteUrls { description: text() }.name(), "print_site_urls");
    assert_eq!(
        GatewayTask::InitialCode { description: text() }.name(),
        "print_backend_webserver_code"
    );
    assert_eq!(
        GatewayTask::ImprovedCode { document: FactSheet::new(text()) }.name(),
        "print_improved_webserver_code"
    );
    assert_eq!(
        GatewayTask::FixedCode { code: None, bug_report: None }.name(),
        "print_fixed_code"
    );
    assert_eq!(GatewayTask::RestApiEndpoints.name(), "print_rest_api_endpoints");
}

#[test]
fn only_status_200_is_healthy() {
    assert_eq!(STATUS_OK, 200);
    assert!(ProbeOutcome::Status(200).is_healthy());
    assert!(!ProbeOutcome::Status(201).is_healthy());
    assert!(!ProbeOutcome::Status(404).is_healthy());
    assert!(!ProbeOutcome::Status(0).is_healthy());
    assert!(!ProbeOutcome::TransportError.is_healthy());
}

#[test]
fn each_kind_of_line_has_its_colour() {
    assert_eq!(PrintCommand::AICall.statement_color(), TextColor::Cyan);
    assert_eq!(PrintCommand::UnitTest.statement_color(), TextColor::Magenta);
    assert_eq!(PrintCommand::Issue.statement_color(), TextColor::Red);
    assert_eq!(PrintCommand::AICall.label_color(), TextColor::Green);
    assert_eq!(PrintCommand::Issue.label_color(), TextColor::Green);
}

#[test]
fn a_line_is_a_label_and_a_statement() {
    assert_eq!(agent_label("Managing Agent"), "Agent: Managing Agent: ");
    assert_eq!(statement_line("Processing request here"), "Processing request here \n");
}

#[test]
fn one_ok_and_y_allow_the_code_to_run() {
    assert!(accepts_answer("1"));
    assert!(accepts_answer("ok"));
    assert!(accepts_answer("y"));
    assert!(!accepts_answer("2"));
    assert!(!accepts_answer("yes"));
    assert!(!accepts_answer(""));
    assert!(!accepts_answer("OK"));
    assert!(!accepts_answer(" y"));
}

#[test]
fn the_answer_is_trimmed_before_it_is_read() {
    assert!(is_confirmation("1\n"));
    assert!(is_confirmation("  ok \r\n"));
    assert!(is_confirmation("\ty"));
    assert!(!is_confirmation("2\n"));
    assert!(!is_confirmation("\n"));
    assert!(!is_confirmation("o k"));
}

#[test]
fn the_answer_is_read_without_regard_to_case() {
    assert!(is_confirmation("OK"));
    assert!(is_confirmation("Y"));
    assert!(is_confirmation(" Ok\n"));
    assert!(!is_confirmation("N"));
}

#[test]
fn a_basic_agent_starts_in_discovery_and_moves_on_request() {
    let mut agent = BasicAgent::new("an objective".to_string(), "a position".to_string());
    assert_eq!(agent.get_objective(), "an objective");
    assert_eq!(agent.get_position(), "a position");
    assert!(agent.get_memory().is_empty());
    assert_eq!(agent.state, AgentState::Discovery);
    agent.update_state(AgentState::UnitTesting);
    assert_eq!(agent.state, AgentState::UnitTesting);
    agent.update_state(AgentState::Finished);
    assert_eq!(agent.state, AgentState::Finished);
    assert_eq!(agent.get_objective(), "an objective");
    assert_eq!(agent.get_position(), "a position");
    assert!(agent.get_memory().is_empty());
}
