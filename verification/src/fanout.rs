//! Fan-out executor logic: building one call per member for a stage,
//! the persistence step that follows a successful call, and the
//! evaluation that surfaces the first failure of a completed fan-out.

use vstd::prelude::*;

use crate::docs::{spec_prefixed_title, spec_write_body, spec_write_url, prefixed_title, write_body, write_url};
use crate::errors::CouncilError;
use crate::prompts::{
    build_chairman_message, build_member_message, build_ranking_message, spec_chairman_message,
    spec_member_message, spec_ranking_message,
};
use crate::schema::{CouncilMember, ResponseObject};

verus! {

/// One planned outbound call: the member it addresses, the full URL, the
/// stage-prefixed document title its result is persisted under, and the
/// JSON body to post.
pub struct CallPlan {
    pub member_name: String,
    pub url: String,
    pub doc_title: String,
    pub body: String,
}

/// The URL of a member call: the member's base URL followed by the
/// inbound endpoint path.
pub open spec fn spec_call_url(member_url: Seq<char>, end_point: Seq<char>) -> Seq<char> {
    member_url + end_point
}

/// The initial-stage plan: one call per member, in the given order, each
/// carrying the raw user prompt and the request's token budget, to be
/// persisted under "initial-<title>".
pub open spec fn initial_plan_ok(
    plan: Seq<CallPlan>,
    members: Seq<CouncilMember>,
    end_point: Seq<char>,
    title: Seq<char>,
    prompt: Seq<char>,
    max_tokens: nat,
) -> bool {
    &&& plan.len() == members.len()
    &&& forall|i: int|
        0 <= i < members.len() ==> {
            let p = #[trigger] plan[i];
            &&& p.member_name@ == members[i].name@
            &&& p.url@ == spec_call_url(members[i].url@, end_point)
            &&& p.doc_title@ == spec_prefixed_title("initial"@, title)
            &&& p.body@ == spec_member_message(members[i].model@, prompt, max_tokens)
        }
}

/// Builds the initial-stage fan-out plan.
pub fn plan_initial_calls(
    members: &Vec<CouncilMember>,
    end_point: &str,
    title: &str,
    prompt: &str,
    max_tokens: usize,
) -> (r: Vec<CallPlan>)
    ensures
        initial_plan_ok(r@, members@, end_point@, title@, prompt@, max_tokens as nat),
{
    let mut plan: Vec<CallPlan> = Vec::new();
    let mut i: usize = 0;
    while i < members.len()
        invariant
            i <= members@.len(),
            plan@.len() == i,
            forall|k: int|
                0 <= k < i ==> {
                    let p = #[trigger] plan@[k];
                    &&& p.member_name@ == members@[k].name@
                    &&& p.url@ == spec_call_url(members@[k].url@, end_point@)
                    &&& p.doc_title@ == spec_prefixed_title("initial"@, title@)
                    &&& p.body@ == spec_member_message(members@[k].model@, prompt@, max_tokens as nat)
                },
        decreases members@.len() - i,
    {
        let mut url = members[i].url.clone();
        url.append(end_point);
        plan.push(
            CallPlan {
                member_name: members[i].name.clone(),
                url,
                doc_title: prefixed_title("initial", title),
                body: build_member_message(members[i].model.as_str(), prompt, max_tokens),
            },
        );
        i = i + 1;
    }
    plan
}

/// The ranking-stage plan: one call per member, in the given order, each
/// carrying the fixed ranking prompt, to be persisted under
/// "ranking-<title>".
pub open spec fn ranking_plan_ok(
    plan: Seq<CallPlan>,
    members: Seq<CouncilMember>,
    end_point: Seq<char>,
    title: Seq<char>,
    stage_prompt: Seq<char>,
) -> bool {
    &&& plan.len() == members.len()
    &&& forall|i: int|
        0 <= i < members.len() ==> {
            let p = #[trigger] plan[i];
            &&& p.member_name@ == members[i].name@
            &&& p.url@ == spec_call_url(members[i].url@, end_point)
            &&& p.doc_title@ == spec_prefixed_title("ranking"@, title)
            &&& p.body@ == spec_ranking_message(members[i].model@, stage_prompt)
        }
}

/// Builds the ranking-stage fan-out plan.
pub fn plan_ranking_calls(
    members: &Vec<CouncilMember>,
    end_point: &str,
    title: &str,
    stage_prompt: &str,
) -> (r: Vec<CallPlan>)
    ensures
        ranking_plan_ok(r@, members@, end_point@, title@, stage_prompt@),
{
    let mut plan: Vec<CallPlan> = Vec::new();
    let mut i: usize = 0;
    while i < members.len()
        invariant
            i <= members@.len(),
            plan@.len() == i,
            forall|k: int|
                0 <= k < i ==> {
                    let p = #[trigger] plan@[k];
                    &&& p.member_name@ == members@[k].name@
                    &&& p.url@ == spec_call_url(members@[k].url@, end_point@)
                    &&& p.doc_title@ == spec_prefixed_title("ranking"@, title@)
                    &&& p.body@ == spec_ranking_message(members@[k].model@, stage_prompt@)
                },
        decreases members@.len() - i,
    {
        let mut url = members[i].url.clone();
        url.append(end_point);
        plan.push(
            CallPlan {
                member_name: members[i].name.clone(),
                url,
                doc_title: prefixed_title("ranking", title),
                body: build_ranking_message(members[i].model.as_str(), stage_prompt),
            },
        );
        i = i + 1;
    }
    plan
}

/// The chairman plan: a single call carrying the synthesis prompt, to be
/// persisted under "chairman-summary-<title>"; no token budget is sent.
pub open spec fn chairman_plan_ok(
    p: CallPlan,
    chairman: CouncilMember,
    end_point: Seq<char>,
    title: Seq<char>,
    stage_prompt: Seq<char>,
) -> bool {
    &&& p.member_name@ == chairman.name@
    &&& p.url@ == spec_call_url(chairman.url@, end_point)
    &&& p.doc_title@ == spec_prefixed_title("chairman-summary"@, title)
    &&& p.body@ == spec_chairman_message(chairman.model@, stage_prompt)
}

/// Builds the single chairman call.
pub fn plan_chairman_call(
    chairman: &CouncilMember,
    end_point: &str,
    title: &str,
    stage_prompt: &str,
) -> (r: CallPlan)
    ensures
        chairman_plan_ok(r, *chairman, end_point@, title@, stage_prompt@),
{
    let mut url = chairman.url.clone();
    url.append(end_point);
    CallPlan {
        member_name: chairman.name.clone(),
        url,
        doc_title: prefixed_title("chairman-summary", title),
        body: build_chairman_message(chairman.model.as_str(), stage_prompt),
    }
}

/// After a member call: a 200 response is persisted to the store, and
/// this gives the write to perform; any other status persists nothing.
pub fn post_call_followup(member: &str, doc_base: &str, title: &str, status: u16, body: &str) -> (r:
    Option<(String, String)>)
    ensures
        status == 200 ==> (r matches Some(w) && w.0@ == spec_write_url(doc_base@) && w.1@
            == spec_write_body(member@, title@, body@)),
        status != 200 ==> r is None,
{
    if status == 200 {
        Some((write_url(doc_base), write_body(member, title, body)))
    } else {
        None
    }
}

/// The outcome of one dispatched call: either the member's final
/// response record, or a transport failure that produced no response.
pub enum CallOutcome {
    Completed(ResponseObject),
    Transport { member: String, detail: String },
}

/// A call outcome counts as success exactly when it completed with
/// status 200.
pub open spec fn outcome_ok(o: CallOutcome) -> bool {
    o matches CallOutcome::Completed(r) && r.status_code == 200
}

/// Every call of the fan-out succeeded.
pub open spec fn all_ok(s: Seq<CallOutcome>) -> bool {
    forall|i: int| 0 <= i < s.len() ==> outcome_ok(#[trigger] s[i])
}

/// The error reported for one failed outcome: a remote-call failure
/// carrying the member, the status (0 when no response came back), and
/// the body or error text.
pub open spec fn failure_like(e: CouncilError, o: CallOutcome) -> bool {
    match o {
        CallOutcome::Completed(resp) => e matches CouncilError::RemoteCallFailure {
            member,
            status,
            detail,
        } && member@ == resp.process_name@ && status == resp.status_code && detail@
            == resp.contents@,
        CallOutcome::Transport { member: m, detail: d } => e
            matches CouncilError::RemoteCallFailure { member, status, detail } && member@ == m@
            && status == 0 && detail@ == d@,
    }
}

/// The error surfaced for a failed fan-out: it reports the first failed
/// outcome in the collected order.
pub open spec fn surfaced_failure(e: CouncilError, s: Seq<CallOutcome>) -> bool {
    exists|i: int|
        0 <= i < s.len() && !outcome_ok(s[i]) && (forall|j: int|
            0 <= j < i ==> outcome_ok(#[trigger] s[j])) && failure_like(e, s[i])
}

/// Evaluates a completed fan-out: success exactly when every call
/// succeeded; otherwise the first failure in the collected order is
/// surfaced and aborts the stage for the caller.
pub fn evaluate_fanout(outcomes: &Vec<CallOutcome>) -> (r: Result<(), CouncilError>)
    ensures
        r is Ok <==> all_ok(outcomes@),
        r matches Err(e) ==> surfaced_failure(e, outcomes@),
{
    let mut i: usize = 0;
    while i < outcomes.len()
        invariant
            i <= outcomes@.len(),
            forall|j: int| 0 <= j < i ==> outcome_ok(#[trigger] outcomes@[j]),
        decreases outcomes@.len() - i,
    {
        match &outcomes[i] {
            CallOutcome::Completed(resp) => {
                if resp.status_code != 200 {
                    return Err(
                        CouncilError::RemoteCallFailure {
                            member: resp.process_name.clone(),
                            status: resp.status_code,
                            detail: resp.contents.clone(),
                        },
                    );
                }
            },
            CallOutcome::Transport { member, detail } => {
                return Err(
                    CouncilError::RemoteCallFailure {
                        member: member.clone(),
                        status: 0,
                        detail: detail.clone(),
                    },
                );
            },
        }
        i = i + 1;
    }
    Ok(())
}

} // verus!
