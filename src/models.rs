//! Caller-facing value types, stable across changes of the wire format.
use vstd::prelude::*;

verus! {

/// An organization: the top-level tenant that owns agents, policies and budgets.
#[derive(Debug, Clone, PartialEq, Eq)]
pub struct Org {
    pub org_id: String,
    pub name: String,
}

/// A principal that invokes tools within an organization.
///
/// `delegated_user_id` is present only when the agent acts on behalf of a human user.
#[derive(Debug, Clone, PartialEq, Eq)]
pub struct Agent {
    pub agent_id: String,
    pub org_id: String,
    pub name: String,
    pub role: String,
    pub active: bool,
    pub delegated_user_id: Option<String>,
}

/// A point-in-time policy evaluation. `allowed == false` is a normal result, not a failure.
#[derive(Debug, Clone, PartialEq, Eq)]
pub struct PolicyDecision {
    pub allowed: bool,
    pub reason: String,
    pub policy_id: Option<String>,
}

/// A snapshot of a budget ledger, scoped to an organization or to one of its agents.
#[derive(Debug, Clone, PartialEq, Eq)]
pub struct BudgetInfo {
    pub budget_id: String,
    pub token_limit: i64,
    pub tokens_used: i64,
    pub tokens_remaining: i64,
    pub tool_invocations: i32,
}

/// The advisory result of a pre-flight budget check. `allowed == false` is a normal result.
#[derive(Debug, Clone, PartialEq, Eq)]
pub struct BudgetCheck {
    pub allowed: bool,
    pub tokens_remaining: i64,
    pub reason: String,
}

/// Aggregate usage figures.
#[derive(Debug, Clone, PartialEq, Eq)]
pub struct UsageSummary {
    pub total_tokens: i64,
    pub total_tool_invocations: i32,
    pub total_duration_ms: i64,
    pub report_count: i32,
}

} // verus!
