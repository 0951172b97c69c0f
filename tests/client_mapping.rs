use agent_platform_sdk::client::{
    agent_outcome, check_budget_outcome, check_budget_request, create_org_request,
    deactivate_agent_outcome, deactivate_agent_request, delete_org_outcome, delete_org_request,
    evaluate_policy_outcome, evaluate_policy_request, get_org_request, list_agents_outcome,
    list_agents_request, list_orgs_outcome, org_outcome, register_agent_request,
    report_usage_outcome, report_usage_request, set_budget_outcome, set_budget_request,
    set_policy_outcome, set_policy_request, tool_permissions,
};
use agent_platform_sdk::wire::{
    AgentResponse, BudgetResponse, CheckBudgetResponse, DeactivateAgentResponse,
    DeleteOrgResponse, EvaluatePolicyResponse, ListAgentsResponse, ListOrgsResponse, OrgResponse,
    ReportUsageResponse, SetPolicyResponse,
};
use agent_platform_sdk::{Agent, BudgetCheck, BudgetInfo, Org, PolicyDecision, SdkError};

fn org_resp(id: &str, name: &str) -> OrgResponse {
    OrgResponse { org_id: id.to_string(), name: name.to_string() }
}

fn agent_resp(id: &str, delegated: &str) -> AgentResponse {
    AgentResponse {
        agent_id: id.to_string(),
        org_id: "org-1".to_string(),
        name: "bot1".to_string(),
        role: "executor".to_string(),
        active: true,
        delegated_user_id: delegated.to_string(),
    }
}

fn pairs(tools: &[agent_platform_sdk::wire::ToolPermission]) -> Vec<(String, String)> {
    tools.iter().map(|t| (t.tool_name.clone(), t.effect.clone())).collect()
}

#[test]
fn permission_list_is_allow_block_then_deny_block() {
    let tools = tool_permissions(&["a", "b"], &["c"]);
    assert_eq!(
        pairs(&tools),
        vec![
            ("a".to_string(), "allow".to_string()),
            ("b".to_string(), "allow".to_string()),
            ("c".to_string(), "deny".to_string()),
        ]
    );
}

#[test]
fn permission_list_does_not_interleave() {
    let tools = tool_permissions(&["x"], &["y", "z"]);
    assert_eq!(
        pairs(&tools),
        vec![
            ("x".to_string(), "allow".to_string()),
            ("y".to_string(), "deny".to_string()),
            ("z".to_string(), "deny".to_string()),
        ]
    );
}

#[test]
fn permission_list_empty() {
    assert!(tool_permissions(&[], &[]).is_empty());
}

#[test]
fn created_org_fetches_back_equal() {
    let created = org_outcome(Ok(org_resp("org-1", "acme"))).unwrap();
    assert_eq!(create_org_request("acme").name, "acme");
    let fetch = get_org_request(&created.org_id);
    assert_eq!(fetch.org_id, "org-1");
    let fetched = org_outcome(Ok(org_resp(&fetch.org_id, "acme"))).unwrap();
    assert_eq!(fetched, created);
    assert_eq!(created, Org { org_id: "org-1".to_string(), name: "acme".to_string() });
}

#[test]
fn org_failure_is_handed_on() {
    let r = org_outcome(Err(SdkError::NotFound("gone".to_string())));
    assert_eq!(r, Err(SdkError::NotFound("gone".to_string())));
}

#[test]
fn list_orgs_keeps_order() {
    let resp = ListOrgsResponse {
        organizations: vec![org_resp("o1", "a"), org_resp("o2", "b")],
    };
    let orgs = list_orgs_outcome(Ok(resp)).unwrap();
    assert_eq!(orgs.len(), 2);
    assert_eq!(orgs[0].org_id, "o1");
    assert_eq!(orgs[1].name, "b");
    assert_eq!(list_orgs_outcome(Ok(ListOrgsResponse { organizations: vec![] })), Ok(vec![]));
}

#[test]
fn delete_missing_org_with_not_found_status() {
    assert_eq!(delete_org_request("nope").org_id, "nope");
    let status = tonic::Status::not_found("org nope");
    let r = delete_org_outcome(Err(SdkError::from_status(&status)));
    assert_eq!(r, Err(SdkError::NotFound("org nope".to_string())));
}

#[test]
fn delete_reported_unsuccessful_stays_boolean() {
    assert_eq!(delete_org_outcome(Ok(DeleteOrgResponse { success: false })), Ok(false));
    assert_eq!(delete_org_outcome(Ok(DeleteOrgResponse { success: true })), Ok(true));
}

#[test]
fn register_without_delegation() {
    let req = register_agent_request("org-1", "bot1", "executor", None);
    assert_eq!(req.delegated_user_id, "");
    assert_eq!(req.role, "executor");
    let agent = agent_outcome(Ok(agent_resp("a-1", &req.delegated_user_id))).unwrap();
    assert_eq!(agent.delegated_user_id, None);
}

#[test]
fn register_with_delegation() {
    let req = register_agent_request("org-1", "bot1", "executor", Some("user-9"));
    assert_eq!(req.delegated_user_id, "user-9");
    let agent = agent_outcome(Ok(agent_resp("a-1", &req.delegated_user_id))).unwrap();
    assert_eq!(agent.delegated_user_id, Some("user-9".to_string()));
    assert_eq!(
        agent,
        Agent {
            agent_id: "a-1".to_string(),
            org_id: "org-1".to_string(),
            name: "bot1".to_string(),
            role: "executor".to_string(),
            active: true,
            delegated_user_id: Some("user-9".to_string()),
        }
    );
}

#[test]
fn listed_agents_never_carry_delegation() {
    assert_eq!(list_agents_request("org-1").org_id, "org-1");
    let resp = ListAgentsResponse { agents: vec![agent_resp("a-1", "user-9"), agent_resp("a-2", "")] };
    let agents = list_agents_outcome(Ok(resp)).unwrap();
    assert_eq!(agents.len(), 2);
    assert_eq!(agents[0].agent_id, "a-1");
    assert_eq!(agents[0].delegated_user_id, None);
    assert_eq!(agents[1].delegated_user_id, None);
}

#[test]
fn deactivate_agent_maps_success() {
    let req = deactivate_agent_request("org-1", "a-1");
    assert_eq!((req.org_id.as_str(), req.agent_id.as_str()), ("org-1", "a-1"));
    assert_eq!(deactivate_agent_outcome(Ok(DeactivateAgentResponse { success: true })), Ok(true));
}

#[test]
fn set_policy_request_for_one_agent() {
    let req = set_policy_request("org-1", Some("a-1"), &["a"], &["c"], 1000, 30);
    assert_eq!(req.agent_id, "a-1");
    assert_eq!(req.token_limit, 1000);
    assert_eq!(req.execution_timeout_seconds, 30);
    assert_eq!(pairs(&req.tools), vec![
        ("a".to_string(), "allow".to_string()),
        ("c".to_string(), "deny".to_string()),
    ]);
    let id = set_policy_outcome(Ok(SetPolicyResponse { policy_id: "p-1".to_string() }));
    assert_eq!(id, Ok("p-1".to_string()));
}

#[test]
fn refused_evaluation_is_a_result() {
    let resp = EvaluatePolicyResponse {
        allowed: false,
        reason: "tool denied".to_string(),
        matched_policy_id: "p-1".to_string(),
    };
    let decision = evaluate_policy_outcome(Ok(resp)).unwrap();
    assert_eq!(
        decision,
        PolicyDecision {
            allowed: false,
            reason: "tool denied".to_string(),
            policy_id: Some("p-1".to_string()),
        }
    );
}

#[test]
fn evaluation_without_matching_policy() {
    let resp = EvaluatePolicyResponse {
        allowed: true,
        reason: "default".to_string(),
        matched_policy_id: String::new(),
    };
    assert_eq!(evaluate_policy_outcome(Ok(resp)).unwrap().policy_id, None);
}

#[test]
fn refused_budget_check_is_a_result() {
    let resp = CheckBudgetResponse { allowed: false, tokens_remaining: 0, reason: "exhausted".to_string() };
    let check = check_budget_outcome(Ok(resp)).unwrap();
    assert_eq!(
        check,
        BudgetCheck { allowed: false, tokens_remaining: 0, reason: "exhausted".to_string() }
    );
}

#[test]
fn org_wide_policy_then_allowed_evaluation() {
    let org = org_outcome(Ok(org_resp("org-1", "acme"))).unwrap();
    let agent = agent_outcome(Ok(agent_resp("bot1-id", ""))).unwrap();
    let policy = set_policy_request(&org.org_id, None, &["search"], &[], 1000, 30);
    assert_eq!(policy.agent_id, "");
    assert_eq!(pairs(&policy.tools), vec![("search".to_string(), "allow".to_string())]);
    let eval = evaluate_policy_request(&org.org_id, &agent.agent_id, "search", 10);
    assert_eq!(eval.agent_id, "bot1-id");
    assert_eq!(eval.tool_name, "search");
    assert_eq!(eval.estimated_tokens, 10);
    let decision = evaluate_policy_outcome(Ok(EvaluatePolicyResponse {
        allowed: true,
        reason: "allowed by org policy".to_string(),
        matched_policy_id: "p-org".to_string(),
    }))
    .unwrap();
    assert!(decision.allowed);
}

#[test]
fn org_budget_overspent_then_check_refused() {
    let budget = set_budget_request("org-1", None, 500, 30);
    assert_eq!(budget.agent_id, "");
    assert_eq!((budget.token_limit, budget.reset_period_days), (500, 30));
    let info = set_budget_outcome(Ok(BudgetResponse {
        budget_id: "b-1".to_string(),
        token_limit: 500,
        tokens_used: 0,
        tokens_remaining: 500,
        tool_invocations: 0,
    }))
    .unwrap();
    assert_eq!(
        info,
        BudgetInfo {
            budget_id: "b-1".to_string(),
            token_limit: 500,
            tokens_used: 0,
            tokens_remaining: 500,
            tool_invocations: 0,
        }
    );
    let report = report_usage_request("org-1", "bot1-id", "exec1", 600, 2, 1500);
    assert_eq!(report.tool_name, "");
    assert_eq!((report.tokens_used, report.tool_invocations, report.execution_duration_ms), (600, 2, 1500));
    let remaining = report_usage_outcome(Ok(ReportUsageResponse { tokens_remaining: 0 })).unwrap();
    assert_eq!(remaining, 0);
    let check_req = check_budget_request("org-1", "bot1-id", 10);
    assert_eq!(check_req.estimated_tokens, 10);
    let check = check_budget_outcome(Ok(CheckBudgetResponse {
        allowed: false,
        tokens_remaining: remaining,
        reason: "budget exceeded".to_string(),
    }))
    .unwrap();
    assert!(!check.allowed);
}

#[test]
fn set_budget_for_one_agent() {
    assert_eq!(set_budget_request("org-1", Some("a-1"), 10, 7).agent_id, "a-1");
}

#[test]
fn call_failures_are_handed_on_unchanged() {
    let e = SdkError::Status { code: 14, message: "down".to_string() };
    assert_eq!(evaluate_policy_outcome(Err(e.clone())), Err(e.clone()));
    assert_eq!(check_budget_outcome(Err(e.clone())), Err(e.clone()));
    assert_eq!(report_usage_outcome(Err(e.clone())), Err(e.clone()));
    assert_eq!(list_agents_outcome(Err(e.clone())), Err(e.clone()));
}
