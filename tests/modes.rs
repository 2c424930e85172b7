use lala_agent::modes::{AgentMode, DeploymentMode};

#[test]
fn test_agent_mode_parse_all() {
    let mode = AgentMode::parse("all");
    assert_eq!(mode, AgentMode::All);
}

#[test]
fn test_agent_mode_parse_worker() {
    let mode = AgentMode::parse("worker");
    assert_eq!(mode, AgentMode::Worker);
}

#[test]
fn test_agent_mode_parse_manager() {
    let mode = AgentMode::parse("manager");
    assert_eq!(mode, AgentMode::Manager);
}

#[test]
fn agent_mode_unknown_word_is_not_known() {
    assert!(!AgentMode::is_known("invalid"));
    assert!(AgentMode::is_known("worker"));
}

#[test]
fn test_worker_mode_should_process_queue() {
    assert!(AgentMode::Worker.should_process_queue());
}

#[test]
fn test_manager_mode_should_not_process_queue() {
    assert!(!AgentMode::Manager.should_process_queue());
}

#[test]
fn test_all_mode_should_process_queue() {
    assert!(AgentMode::All.should_process_queue());
}

#[test]
fn test_manager_mode_should_manage_cluster() {
    assert!(AgentMode::Manager.should_manage_cluster());
}

#[test]
fn test_worker_mode_should_not_manage_cluster() {
    assert!(!AgentMode::Worker.should_manage_cluster());
}

#[test]
fn test_all_mode_should_manage_cluster() {
    assert!(AgentMode::All.should_manage_cluster());
}

#[test]
fn test_agent_mode_display() {
    assert_eq!(AgentMode::Worker.to_string(), "worker");
    assert_eq!(AgentMode::Manager.to_string(), "manager");
    assert_eq!(AgentMode::All.to_string(), "all");
}

#[test]
fn test_parse_single_tenant() {
    assert_eq!(
        DeploymentMode::parse("single_tenant"),
        DeploymentMode::SingleTenant
    );
}

#[test]
fn test_parse_multi_tenant() {
    assert_eq!(
        DeploymentMode::parse("multi_tenant"),
        DeploymentMode::MultiTenant
    );
}

#[test]
fn deployment_mode_unknown_word_is_not_known() {
    assert!(!DeploymentMode::is_known("saas"));
    assert!(DeploymentMode::is_known("multi_tenant"));
}

#[test]
fn test_is_multi_tenant_false_for_single() {
    assert!(!DeploymentMode::SingleTenant.is_multi_tenant());
}

#[test]
fn test_is_multi_tenant_true_for_multi() {
    assert!(DeploymentMode::MultiTenant.is_multi_tenant());
}

#[test]
fn test_display_produces_snake_case() {
    assert_eq!(DeploymentMode::SingleTenant.to_string(), "single_tenant");
    assert_eq!(DeploymentMode::MultiTenant.to_string(), "multi_tenant");
}

#[test]
fn agent_mode_words_round_trip() {
    for m in [AgentMode::Worker, AgentMode::Manager, AgentMode::All] {
        assert_eq!(AgentMode::parse(&m.to_string()), m);
    }
}
