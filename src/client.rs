//! The mapping layer of the client façade: for each control-plane operation, the
//! request that it sends and the way its response, or its failure, comes back to
//! the caller.
//!
//! Every operation makes exactly one remote call. A failed call arrives here as
//! the `SdkError` it was classified as, and is handed on unchanged: no default
//! value ever stands in for a failure, and no decision field (`allowed == false`)
//! ever becomes one.
use crate::error::SdkError;
use crate::models::{Agent, BudgetCheck, BudgetInfo, Org, PolicyDecision};
use crate::sentinel::{
    decode_optional,
    decoded,
    encode_optional,
    encoded,
    opt_str_view,
    opt_string_view,
    representable,
};
use crate::wire::{
    AgentResponse,
    BudgetResponse,
    CheckBudgetRequest,
    CheckBudgetResponse,
    CreateOrgRequest,
    DeactivateAgentRequest,
    DeactivateAgentResponse,
    DeleteOrgRequest,
    DeleteOrgResponse,
    EvaluatePolicyRequest,
    EvaluatePolicyResponse,
    GetOrgRequest,
    ListAgentsRequest,
    ListAgentsResponse,
    ListOrgsResponse,
    OrgResponse,
    RegisterAgentRequest,
    ReportUsageRequest,
    ReportUsageResponse,
    SetBudgetRequest,
    SetPolicyRequest,
    SetPolicyResponse,
    ToolPermission,
};
use vstd::prelude::*;

verus! {

/// A successful outcome mapped by `f`; a failure handed on as it is.
pub open spec fn on_success<A, B>(outcome: Result<A, SdkError>, f: spec_fn(A) -> B) -> Result<
    B,
    SdkError,
> {
    match outcome {
        Ok(a) => Ok(f(a)),
        Err(e) => Err(e),
    }
}

/// The optional identifier that a wire string stands for.
pub open spec fn optional_id(s: String) -> Option<String> {
    if s@.len() == 0 {
        None
    } else {
        Some(s)
    }
}

pub open spec fn org_of(resp: OrgResponse) -> Org {
    Org { org_id: resp.org_id, name: resp.name }
}

/// An agent as registration reports it, delegated user included.
pub open spec fn agent_of(resp: AgentResponse) -> Agent {
    Agent {
        agent_id: resp.agent_id,
        org_id: resp.org_id,
        name: resp.name,
        role: resp.role,
        active: resp.active,
        delegated_user_id: optional_id(resp.delegated_user_id),
    }
}

/// An agent as a listing reports it: listings never carry the delegated user,
/// whatever the wire holds.
pub open spec fn listed_agent_of(resp: AgentResponse) -> Agent {
    Agent {
        agent_id: resp.agent_id,
        org_id: resp.org_id,
        name: resp.name,
        role: resp.role,
        active: resp.active,
        delegated_user_id: None,
    }
}

pub open spec fn decision_of(resp: EvaluatePolicyResponse) -> PolicyDecision {
    PolicyDecision {
        allowed: resp.allowed,
        reason: resp.reason,
        policy_id: optional_id(resp.matched_policy_id),
    }
}

pub open spec fn budget_info_of(resp: BudgetResponse) -> BudgetInfo {
    BudgetInfo {
        budget_id: resp.budget_id,
        token_limit: resp.token_limit,
        tokens_used: resp.tokens_used,
        tokens_remaining: resp.tokens_remaining,
        tool_invocations: resp.tool_invocations,
    }
}

pub open spec fn budget_check_of(resp: CheckBudgetResponse) -> BudgetCheck {
    BudgetCheck {
        allowed: resp.allowed,
        tokens_remaining: resp.tokens_remaining,
        reason: resp.reason,
    }
}

/// `tools` is the allow block for `allowed`, in order, followed by the deny block
/// for `denied`, in order.
pub open spec fn is_permission_list(
    tools: Seq<ToolPermission>,
    allowed: Seq<&str>,
    denied: Seq<&str>,
) -> bool {
    &&& tools.len() == allowed.len() + denied.len()
    &&& forall|i: int|
        0 <= i < allowed.len() ==> tools[i].tool_name@ == (#[trigger] allowed[i])@
            && tools[i].effect@ == "allow"@
    &&& forall|i: int|
        0 <= i < denied.len() ==> tools[allowed.len() + i].tool_name@ == (#[trigger] denied[i])@
            && tools[allowed.len() + i].effect@ == "deny"@
}

// --- Organizations ---

pub fn create_org_request(name: &str) -> (r: CreateOrgRequest)
    ensures
        r.name@ == name@,
{
    CreateOrgRequest { name: name.to_owned() }
}

pub fn get_org_request(org_id: &str) -> (r: GetOrgRequest)
    ensures
        r.org_id@ == org_id@,
{
    GetOrgRequest { org_id: org_id.to_owned() }
}

/// The organization that a create or get call returns.
pub fn org_outcome(outcome: Result<OrgResponse, SdkError>) -> (r: Result<Org, SdkError>)
    ensures
        r == on_success(outcome, |resp: OrgResponse| org_of(resp)),
{
    match outcome {
        Ok(resp) => Ok(Org { org_id: resp.org_id, name: resp.name }),
        Err(e) => Err(e),
    }
}

/// The organizations that a list call returns, in the service's order.
pub fn list_orgs_outcome(outcome: Result<ListOrgsResponse, SdkError>) -> (r: Result<
    Vec<Org>,
    SdkError,
>)
    ensures
        outcome is Ok <==> r is Ok,
        outcome matches Err(e) ==> r == Err::<Vec<Org>, SdkError>(e),
        outcome matches Ok(resp) ==> (r matches Ok(orgs) && orgs@ == resp.organizations@.map_values(
            |o: OrgResponse| org_of(o),
        )),
{
    match outcome {
        Ok(resp) => {
            let src = &resp.organizations;
            let mut orgs: Vec<Org> = Vec::new();
            let mut i: usize = 0;
            while i < src.len()
                invariant
                    i <= src@.len(),
                    orgs@ == src@.subrange(0, i as int).map_values(|o: OrgResponse| org_of(o)),
                decreases src@.len() - i,
            {
                let o = &src[i];
                orgs.push(Org { org_id: o.org_id.clone(), name: o.name.clone() });
                i = i + 1;
                assert(src@.subrange(0, i as int) == src@.subrange(0, i - 1 as int).push(src@[i - 1]));
            }
            assert(src@.subrange(0, i as int) == src@);
            Ok(orgs)
        },
        Err(e) => Err(e),
    }
}

pub fn delete_org_request(org_id: &str) -> (r: DeleteOrgRequest)
    ensures
        r.org_id@ == org_id@,
{
    DeleteOrgRequest { org_id: org_id.to_owned() }
}

/// Whether the service reports the organization deleted. A `false` from the
/// service stays a `false` result: it is never turned into `NotFound`.
pub fn delete_org_outcome(outcome: Result<DeleteOrgResponse, SdkError>) -> (r: Result<
    bool,
    SdkError,
>)
    ensures
        r == on_success(outcome, |resp: DeleteOrgResponse| resp.success),
{
    match outcome {
        Ok(resp) => Ok(resp.success),
        Err(e) => Err(e),
    }
}

// --- Agents ---

/// The registration request. An absent delegated user travels as the empty string.
pub fn register_agent_request(
    org_id: &str,
    name: &str,
    role: &str,
    delegated_user_id: Option<&str>,
) -> (r: RegisterAgentRequest)
    ensures
        r.org_id@ == org_id@,
        r.name@ == name@,
        r.role@ == role@,
        r.delegated_user_id@ == encoded(opt_str_view(delegated_user_id)),
{
    RegisterAgentRequest {
        org_id: org_id.to_owned(),
        name: name.to_owned(),
        role: role.to_owned(),
        delegated_user_id: encode_optional(delegated_user_id),
    }
}

/// The agent that a registration returns; an empty delegated user reads as absent.
pub fn agent_outcome(outcome: Result<AgentResponse, SdkError>) -> (r: Result<Agent, SdkError>)
    ensures
        r == on_success(outcome, |resp: AgentResponse| agent_of(resp)),
{
    match outcome {
        Ok(resp) => Ok(
            Agent {
                agent_id: resp.agent_id,
                org_id: resp.org_id,
                name: resp.name,
                role: resp.role,
                active: resp.active,
                delegated_user_id: decode_optional(resp.delegated_user_id),
            },
        ),
        Err(e) => Err(e),
    }
}

pub fn list_agents_request(org_id: &str) -> (r: ListAgentsRequest)
    ensures
        r.org_id@ == org_id@,
{
    ListAgentsRequest { org_id: org_id.to_owned() }
}

/// The agents that a list call returns, in the service's order. A listing does not
/// carry delegated users: every listed agent has none, whatever the wire holds.
pub fn list_agents_outcome(outcome: Result<ListAgentsResponse, SdkError>) -> (r: Result<
    Vec<Agent>,
    SdkError,
>)
    ensures
        outcome is Ok <==> r is Ok,
        outcome matches Err(e) ==> r == Err::<Vec<Agent>, SdkError>(e),
        outcome matches Ok(resp) ==> (r matches Ok(agents) && agents@ == resp.agents@.map_values(
            |a: AgentResponse| listed_agent_of(a),
        )),
{
    match outcome {
        Ok(resp) => {
            let src = &resp.agents;
            let mut agents: Vec<Agent> = Vec::new();
            let mut i: usize = 0;
            while i < src.len()
                invariant
                    i <= src@.len(),
                    agents@ == src@.subrange(0, i as int).map_values(
                        |a: AgentResponse| listed_agent_of(a),
                    ),
                decreases src@.len() - i,
            {
                let a = &src[i];
                agents.push(
                    Agent {
                        agent_id: a.agent_id.clone(),
                        org_id: a.org_id.clone(),
                        name: a.name.clone(),
                        role: a.role.clone(),
                        active: a.active,
                        delegated_user_id: None,
                    },
                );
                i = i + 1;
                assert(src@.subrange(0, i as int) == src@.subrange(0, i - 1 as int).push(src@[i - 1]));
            }
            assert(src@.subrange(0, i as int) == src@);
            Ok(agents)
        },
        Err(e) => Err(e),
    }
}

pub fn deactivate_agent_request(org_id: &str, agent_id: &str) -> (r: DeactivateAgentRequest)
    ensures
        r.org_id@ == org_id@,
        r.agent_id@ == agent_id@,
{
    DeactivateAgentRequest { org_id: org_id.to_owned(), agent_id: agent_id.to_owned() }
}

/// Whether the service reports the agent deactivated.
pub fn deactivate_agent_outcome(outcome: Result<DeactivateAgentResponse, SdkError>) -> (r: Result<
    bool,
    SdkError,
>)
    ensures
        r == on_success(outcome, |resp: DeactivateAgentResponse| resp.success),
{
    match outcome {
        Ok(resp) => Ok(resp.success),
        Err(e) => Err(e),
    }
}

// --- Policy ---

/// The permission list of a policy: one `"allow"` rule for each allowed tool, in
/// order, then one `"deny"` rule for each denied tool, in order. The two blocks
/// are never interleaved.
pub fn tool_permissions(allowed_tools: &[&str], denied_tools: &[&str]) -> (r: Vec<ToolPermission>)
    requires
        allowed_tools@.len() + denied_tools@.len() <= usize::MAX,
    ensures
        is_permission_list(r@, allowed_tools@, denied_tools@),
{
    let mut tools: Vec<ToolPermission> = Vec::new();
    let mut i: usize = 0;
    while i < allowed_tools.len()
        invariant
            i <= allowed_tools@.len(),
            tools@.len() == i,
            forall|k: int|
                0 <= k < i ==> tools@[k].tool_name@ == (#[trigger] allowed_tools@[k])@
                    && tools@[k].effect@ == "allow"@,
        decreases allowed_tools@.len() - i,
    {
        tools.push(
            ToolPermission {
                tool_name: allowed_tools[i].to_owned(),
                effect: String::from_str("allow"),
            },
        );
        assert(tools@[i as int].tool_name@ == allowed_tools@[i as int]@);
        i = i + 1;
    }
    let n = allowed_tools.len();
    let mut j: usize = 0;
    while j < denied_tools.len()
        invariant
            n == allowed_tools@.len(),
            n + denied_tools@.len() <= usize::MAX,
            j <= denied_tools@.len(),
            tools@.len() == n + j,
            forall|k: int|
                0 <= k < n ==> tools@[k].tool_name@ == (#[trigger] allowed_tools@[k])@
                    && tools@[k].effect@ == "allow"@,
            forall|k: int|
                0 <= k < j ==> tools@[n + k].tool_name@ == (#[trigger] denied_tools@[k])@
                    && tools@[n + k].effect@ == "deny"@,
        decreases denied_tools@.len() - j,
    {
        tools.push(
            ToolPermission {
                tool_name: denied_tools[j].to_owned(),
                effect: String::from_str("deny"),
            },
        );
        assert(tools@[n + j].tool_name@ == denied_tools@[j as int]@);
        assert(tools@[n + j].effect@ == "deny"@);
        j = j + 1;
    }
    tools
}

/// The request that stores a policy. An absent agent makes it a policy of the
/// whole organization, sent as the empty agent id.
pub fn set_policy_request(
    org_id: &str,
    agent_id: Option<&str>,
    allowed_tools: &[&str],
    denied_tools: &[&str],
    token_limit: i64,
    timeout_seconds: i32,
) -> (r: SetPolicyRequest)
    requires
        allowed_tools@.len() + denied_tools@.len() <= usize::MAX,
    ensures
        r.org_id@ == org_id@,
        r.agent_id@ == encoded(opt_str_view(agent_id)),
        is_permission_list(r.tools@, allowed_tools@, denied_tools@),
        r.token_limit == token_limit,
        r.execution_timeout_seconds == timeout_seconds,
{
    SetPolicyRequest {
        org_id: org_id.to_owned(),
        agent_id: encode_optional(agent_id),
        tools: tool_permissions(allowed_tools, denied_tools),
        token_limit,
        execution_timeout_seconds: timeout_seconds,
    }
}

/// The identifier of the stored policy.
pub fn set_policy_outcome(outcome: Result<SetPolicyResponse, SdkError>) -> (r: Result<
    String,
    SdkError,
>)
    ensures
        r == on_success(outcome, |resp: SetPolicyResponse| resp.policy_id),
{
    match outcome {
        Ok(resp) => Ok(resp.policy_id),
        Err(e) => Err(e),
    }
}

pub fn evaluate_policy_request(
    org_id: &str,
    agent_id: &str,
    tool_name: &str,
    estimated_tokens: i64,
) -> (r: EvaluatePolicyRequest)
    ensures
        r.org_id@ == org_id@,
        r.agent_id@ == agent_id@,
        r.tool_name@ == tool_name@,
        r.estimated_tokens == estimated_tokens,
{
    EvaluatePolicyRequest {
        org_id: org_id.to_owned(),
        agent_id: agent_id.to_owned(),
        tool_name: tool_name.to_owned(),
        estimated_tokens,
    }
}

/// The decision that an evaluation returns. Every answer of the service is a
/// successful result, a refusal (`allowed == false`) included; only a failed call
/// is an error.
pub fn evaluate_policy_outcome(outcome: Result<EvaluatePolicyResponse, SdkError>) -> (r: Result<
    PolicyDecision,
    SdkError,
>)
    ensures
        r == on_success(outcome, |resp: EvaluatePolicyResponse| decision_of(resp)),
        outcome matches Ok(resp) ==> (r matches Ok(d) && d.allowed == resp.allowed),
{
    match outcome {
        Ok(resp) => Ok(
            PolicyDecision {
                allowed: resp.allowed,
                reason: resp.reason,
                policy_id: decode_optional(resp.matched_policy_id),
            },
        ),
        Err(e) => Err(e),
    }
}

// --- Budget ---

/// The request that sets a budget. An absent agent makes it a budget of the whole
/// organization, sent as the empty agent id.
pub fn set_budget_request(
    org_id: &str,
    agent_id: Option<&str>,
    token_limit: i64,
    reset_period_days: i32,
) -> (r: SetBudgetRequest)
    ensures
        r.org_id@ == org_id@,
        r.agent_id@ == encoded(opt_str_view(agent_id)),
        r.token_limit == token_limit,
        r.reset_period_days == reset_period_days,
{
    SetBudgetRequest {
        org_id: org_id.to_owned(),
        agent_id: encode_optional(agent_id),
        token_limit,
        reset_period_days,
    }
}

/// The ledger snapshot that setting a budget returns.
pub fn set_budget_outcome(outcome: Result<BudgetResponse, SdkError>) -> (r: Result<
    BudgetInfo,
    SdkError,
>)
    ensures
        r == on_success(outcome, |resp: BudgetResponse| budget_info_of(resp)),
{
    match outcome {
        Ok(resp) => Ok(
            BudgetInfo {
                budget_id: resp.budget_id,
                token_limit: resp.token_limit,
                tokens_used: resp.tokens_used,
                tokens_remaining: resp.tokens_remaining,
                tool_invocations: resp.tool_invocations,
            },
        ),
        Err(e) => Err(e),
    }
}

pub fn check_budget_request(org_id: &str, agent_id: &str, estimated_tokens: i64) -> (r:
    CheckBudgetRequest)
    ensures
        r.org_id@ == org_id@,
        r.agent_id@ == agent_id@,
        r.estimated_tokens == estimated_tokens,
{
    CheckBudgetRequest {
        org_id: org_id.to_owned(),
        agent_id: agent_id.to_owned(),
        estimated_tokens,
    }
}

/// The result of a pre-flight check. Every answer of the service is a successful
/// result, an exhausted budget (`allowed == false`) included: it never becomes
/// `BudgetExhausted`, nor any other error.
pub fn check_budget_outcome(outcome: Result<CheckBudgetResponse, SdkError>) -> (r: Result<
    BudgetCheck,
    SdkError,
>)
    ensures
        r == on_success(outcome, |resp: CheckBudgetResponse| budget_check_of(resp)),
        outcome matches Ok(resp) ==> (r matches Ok(c) && c.allowed == resp.allowed
            && c.tokens_remaining == resp.tokens_remaining),
{
    match outcome {
        Ok(resp) => Ok(
            BudgetCheck {
                allowed: resp.allowed,
                tokens_remaining: resp.tokens_remaining,
                reason: resp.reason,
            },
        ),
        Err(e) => Err(e),
    }
}

/// The usage report of one execution, for the whole execution (no tool named).
pub fn report_usage_request(
    org_id: &str,
    agent_id: &str,
    execution_id: &str,
    tokens_used: i64,
    tool_invocations: i32,
    duration_ms: i64,
) -> (r: ReportUsageRequest)
    ensures
        r.org_id@ == org_id@,
        r.agent_id@ == agent_id@,
        r.execution_id@ == execution_id@,
        r.tokens_used == tokens_used,
        r.tool_invocations == tool_invocations,
        r.execution_duration_ms == duration_ms,
        r.tool_name@.len() == 0,
{
    ReportUsageRequest {
        org_id: org_id.to_owned(),
        agent_id: agent_id.to_owned(),
        execution_id: execution_id.to_owned(),
        tokens_used,
        tool_invocations,
        execution_duration_ms: duration_ms,
        tool_name: String::new(),
    }
}

/// The tokens that remain after the reported usage.
pub fn report_usage_outcome(outcome: Result<ReportUsageResponse, SdkError>) -> (r: Result<
    i64,
    SdkError,
>)
    ensures
        r == on_success(outcome, |resp: ReportUsageResponse| resp.tokens_remaining),
{
    match outcome {
        Ok(resp) => Ok(resp.tokens_remaining),
        Err(e) => Err(e),
    }
}

// --- Laws ---

/// Fetching a freshly created organization: the fetch request carries exactly the
/// id that creation returned, and the organization that the fetch returns equals
/// the created one exactly when the service answers the fetch with the record it
/// answered the creation with.
pub proof fn lemma_created_org_fetch(created: OrgResponse, fetched: OrgResponse)
    ensures
        org_of(created).org_id@ == created.org_id@,
        on_success(Ok::<OrgResponse, SdkError>(fetched), |resp: OrgResponse| org_of(resp))
            == on_success(Ok::<OrgResponse, SdkError>(created), |resp: OrgResponse| org_of(resp))
            <==> fetched == created,
{
}

/// The delegated user survives registration: when the service echoes the wire
/// value that the request carried, the registered agent has no delegated user if
/// none was given, and has `v` if a non-empty `v` was given.
pub proof fn lemma_delegation_round_trip(delegated: Option<Seq<char>>, resp: AgentResponse)
    requires
        representable(delegated),
        resp.delegated_user_id@ == encoded(delegated),
    ensures
        opt_string_view(agent_of(resp).delegated_user_id) == delegated,
{
}

/// An empty matched-policy id reads as "no policy matched", any other as that policy.
pub proof fn lemma_matched_policy_sentinel(resp: EvaluatePolicyResponse)
    ensures
        opt_string_view(decision_of(resp).policy_id) == decoded(resp.matched_policy_id@),
{
}

/// The outcome of a policy evaluation or of a budget check is an error exactly when
/// the call failed: a decision that refuses is a successful result.
pub proof fn lemma_refusal_is_no_error(
    evaluation: Result<EvaluatePolicyResponse, SdkError>,
    check: Result<CheckBudgetResponse, SdkError>,
)
    ensures
        on_success(evaluation, |resp: EvaluatePolicyResponse| decision_of(resp)) is Err
            <==> evaluation is Err,
        on_success(check, |resp: CheckBudgetResponse| budget_check_of(resp)) is Err
            <==> check is Err,
{
}

} // verus!
