//! The request and response messages exchanged with the control-plane service,
//! one pair per operation. Pure data: the wire carries no optional strings (see
//! `sentinel`), and absent extension fields are left out of these shapes.
use vstd::prelude::*;

verus! {

#[derive(Debug, Clone, PartialEq, Eq)]
pub struct CreateOrgRequest {
    pub name: String,
}

#[derive(Debug, Clone, PartialEq, Eq)]
pub struct GetOrgRequest {
    pub org_id: String,
}

#[derive(Debug, Clone, PartialEq, Eq)]
pub struct ListOrgsRequest {}

#[derive(Debug, Clone, PartialEq, Eq)]
pub struct DeleteOrgRequest {
    pub org_id: String,
}

/// An organization as the service sends it back from create, get and list.
#[derive(Debug, Clone, PartialEq, Eq)]
pub struct OrgResponse {
    pub org_id: String,
    pub name: String,
}

#[derive(Debug, Clone, PartialEq, Eq)]
pub struct ListOrgsResponse {
    pub organizations: Vec<OrgResponse>,
}

#[derive(Debug, Clone, PartialEq, Eq)]
pub struct DeleteOrgResponse {
    pub success: bool,
}

#[derive(Debug, Clone, PartialEq, Eq)]
pub struct RegisterAgentRequest {
    pub org_id: String,
    pub name: String,
    pub role: String,
    /// Empty when the agent acts on behalf of no user.
    pub delegated_user_id: String,
}

/// An agent as the service sends it back from register and list.
#[derive(Debug, Clone, PartialEq, Eq)]
pub struct AgentResponse {
    pub agent_id: String,
    pub org_id: String,
    pub name: String,
    pub role: String,
    pub active: bool,
    pub delegated_user_id: String,
}

#[derive(Debug, Clone, PartialEq, Eq)]
pub struct ListAgentsRequest {
    pub org_id: String,
}

#[derive(Debug, Clone, PartialEq, Eq)]
pub struct ListAgentsResponse {
    pub agents: Vec<AgentResponse>,
}

#[derive(Debug, Clone, PartialEq, Eq)]
pub struct DeactivateAgentRequest {
    pub org_id: String,
    pub agent_id: String,
}

#[derive(Debug, Clone, PartialEq, Eq)]
pub struct DeactivateAgentResponse {
    pub success: bool,
}

/// One rule of a policy: a tool and its effect, `"allow"` or `"deny"`.
#[derive(Debug, Clone, PartialEq, Eq)]
pub struct ToolPermission {
    pub tool_name: String,
    pub effect: String,
}

#[derive(Debug, Clone, PartialEq, Eq)]
pub struct SetPolicyRequest {
    pub org_id: String,
    /// Empty for a policy that applies to the whole organization.
    pub agent_id: String,
    pub tools: Vec<ToolPermission>,
    pub token_limit: i64,
    pub execution_timeout_seconds: i32,
}

#[derive(Debug, Clone, PartialEq, Eq)]
pub struct SetPolicyResponse {
    pub policy_id: String,
}

#[derive(Debug, Clone, PartialEq, Eq)]
pub struct EvaluatePolicyRequest {
    pub org_id: String,
    pub agent_id: String,
    pub tool_name: String,
    pub estimated_tokens: i64,
}

#[derive(Debug, Clone, PartialEq, Eq)]
pub struct EvaluatePolicyResponse {
    pub allowed: bool,
    pub reason: String,
    /// Empty when no stored policy matched.
    pub matched_policy_id: String,
}

#[derive(Debug, Clone, PartialEq, Eq)]
pub struct SetBudgetRequest {
    pub org_id: String,
    /// Empty for a budget of the whole organization.
    pub agent_id: String,
    pub token_limit: i64,
    pub reset_period_days: i32,
}

#[derive(Debug, Clone, PartialEq, Eq)]
pub struct BudgetResponse {
    pub budget_id: String,
    pub token_limit: i64,
    pub tokens_used: i64,
    pub tokens_remaining: i64,
    pub tool_invocations: i32,
}

#[derive(Debug, Clone, PartialEq, Eq)]
pub struct CheckBudgetRequest {
    pub org_id: String,
    pub agent_id: String,
    pub estimated_tokens: i64,
}

#[derive(Debug, Clone, PartialEq, Eq)]
pub struct CheckBudgetResponse {
    pub allowed: bool,
    pub tokens_remaining: i64,
    pub reason: String,
}

#[derive(Debug, Clone, PartialEq, Eq)]
pub struct ReportUsageRequest {
    pub org_id: String,
    pub agent_id: String,
    pub execution_id: String,
    pub tokens_used: i64,
    pub tool_invocations: i32,
    pub execution_duration_ms: i64,
    /// Always empty: usage is reported for the whole execution.
    pub tool_name: String,
}

#[derive(Debug, Clone, PartialEq, Eq)]
pub struct ReportUsageResponse {
    pub tokens_remaining: i64,
}

} // verus!
