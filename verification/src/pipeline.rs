//! Pipeline orchestrator: the state machine driving the three stages.
//! Each step consumes one completed piece of outside work (a fan-out, a
//! batch read) and decides the next action; the caller performs the
//! action and hands the result back as the next event. Cache mode skips
//! every network-issuing sub-step but keeps both read-aggregation steps.

use vstd::prelude::*;

use crate::aggregate::{
    format_initial_responses, format_ranking_responses, label_mapping_ok, merged_prompt,
    record_texts,
};
use crate::config::{get_council_chairman, get_council_members, get_document_store_url};
use crate::docs::{
    plan_document_reads, prefixed_title, read_plan_ok, sort_members_by_id, sorted_by_id,
    spec_prefixed_title,
};
use crate::errors::CouncilError;
use crate::fanout::{
    all_ok, chairman_plan_ok, evaluate_fanout, initial_plan_ok, plan_chairman_call,
    plan_initial_calls, plan_ranking_calls, ranking_plan_ok, surfaced_failure, CallOutcome,
    CallPlan,
};
use crate::gate::Gate;
use crate::prompts::{
    build_chairman_prompt, build_ranking_prompt, spec_chairman_prompt, spec_ranking_prompt,
};
use crate::schema::{member_like, members_like, ConfigStore, CouncilMember, LLMCouncilRequestSchema};

verus! {

/// The states of one pipeline run.
#[derive(Debug, Clone, Copy, PartialEq, Eq, Structural)]
pub enum PipelineState {
    Idle,
    StageInitial,
    AggregateInitial,
    StageRanking,
    AggregateRanking,
    StageChairman,
    Done,
    Failed,
}

/// One completed piece of outside work, handed back to the machine.
pub enum PipelineEvent {
    FanOutDone(Vec<CallOutcome>),
    DocumentsRead(Vec<(String, String)>),
    DocumentsReadFailed(CouncilError),
}

/// The next piece of work the caller must perform.
pub enum PipelineAction {
    FanOut(Vec<CallPlan>),
    ReadDocuments(Vec<(String, String)>),
    CallChairman(CallPlan),
    RespondSuccess,
    RespondError(CouncilError),
}

/// The shape of an event, abstracted from its payload.
#[derive(Clone, Copy, PartialEq, Eq, Structural)]
pub enum EventKind {
    FanOutOk,
    FanOutFailed,
    DocsRead,
    DocsFailed,
}

/// The shape of an action, abstracted from its payload.
#[derive(Clone, Copy, PartialEq, Eq, Structural)]
pub enum ActionKind {
    FanOut,
    ReadDocuments,
    CallChairman,
    RespondSuccess,
    RespondError,
}

/// The shape of an event.
pub open spec fn event_kind(e: PipelineEvent) -> EventKind {
    match e {
        PipelineEvent::FanOutDone(o) => if all_ok(o@) {
            EventKind::FanOutOk
        } else {
            EventKind::FanOutFailed
        },
        PipelineEvent::DocumentsRead(_) => EventKind::DocsRead,
        PipelineEvent::DocumentsReadFailed(_) => EventKind::DocsFailed,
    }
}

/// The shape of an action.
pub open spec fn action_kind(a: PipelineAction) -> ActionKind {
    match a {
        PipelineAction::FanOut(_) => ActionKind::FanOut,
        PipelineAction::ReadDocuments(_) => ActionKind::ReadDocuments,
        PipelineAction::CallChairman(_) => ActionKind::CallChairman,
        PipelineAction::RespondSuccess => ActionKind::RespondSuccess,
        PipelineAction::RespondError(_) => ActionKind::RespondError,
    }
}

/// Which events a state is prepared to consume: the network stages wait
/// for their fan-out, the aggregation states for the batch read.
pub open spec fn event_fits(state: PipelineState, event: PipelineEvent) -> bool {
    match state {
        PipelineState::StageInitial => event is FanOutDone,
        PipelineState::StageRanking => event is FanOutDone,
        PipelineState::StageChairman => event is FanOutDone,
        PipelineState::AggregateInitial => event is DocumentsRead || event is DocumentsReadFailed,
        PipelineState::AggregateRanking => event is DocumentsRead || event is DocumentsReadFailed,
        _ => false,
    }
}

/// The transition table of the machine: from state, cache mode and event
/// shape to the next state and the shape of the next action. Cache mode
/// steps from aggregation straight to the next read, never into a
/// fan-out or the chairman call.
pub open spec fn spec_step(state: PipelineState, cache: bool, e: EventKind) -> (
    PipelineState,
    ActionKind,
) {
    match (state, e) {
        (PipelineState::StageInitial, EventKind::FanOutOk) => (
            PipelineState::AggregateInitial,
            ActionKind::ReadDocuments,
        ),
        (PipelineState::StageInitial, EventKind::FanOutFailed) => (
            PipelineState::Failed,
            ActionKind::RespondError,
        ),
        (PipelineState::AggregateInitial, EventKind::DocsRead) => if cache {
            (PipelineState::AggregateRanking, ActionKind::ReadDocuments)
        } else {
            (PipelineState::StageRanking, ActionKind::FanOut)
        },
        (PipelineState::StageRanking, EventKind::FanOutOk) => (
            PipelineState::AggregateRanking,
            ActionKind::ReadDocuments,
        ),
        (PipelineState::StageRanking, EventKind::FanOutFailed) => (
            PipelineState::Failed,
            ActionKind::RespondError,
        ),
        (PipelineState::AggregateRanking, EventKind::DocsRead) => if cache {
            (PipelineState::Done, ActionKind::RespondSuccess)
        } else {
            (PipelineState::StageChairman, ActionKind::CallChairman)
        },
        (PipelineState::StageChairman, EventKind::FanOutOk) => (
            PipelineState::Done,
            ActionKind::RespondSuccess,
        ),
        (PipelineState::StageChairman, EventKind::FanOutFailed) => (
            PipelineState::Failed,
            ActionKind::RespondError,
        ),
        (_, EventKind::DocsFailed) => (PipelineState::Failed, ActionKind::RespondError),
        _ => (PipelineState::Failed, ActionKind::RespondError),
    }
}

/// The state and action shape a run begins with: cache mode starts at
/// the initial batch read, live mode at the initial fan-out.
pub open spec fn spec_begin(cache: bool) -> (PipelineState, ActionKind) {
    if cache {
        (PipelineState::AggregateInitial, ActionKind::ReadDocuments)
    } else {
        (PipelineState::StageInitial, ActionKind::FanOut)
    }
}

/// One admitted pipeline run: the fixed setup taken from request and
/// configuration, the current state, and the merged texts accumulated by
/// the aggregation steps.
pub struct PipelineRun {
    pub end_point: String,
    pub members: Vec<CouncilMember>,
    pub chairman: CouncilMember,
    pub doc_url: String,
    pub title: String,
    pub prompt: String,
    pub max_tokens: usize,
    pub cache: bool,
    pub state: PipelineState,
    pub initial_merged: String,
    pub label_mapping: Vec<(String, String)>,
    pub ranking_merged: String,
}

/// The fixed setup of a run is untouched by a step.
pub open spec fn same_setup(a: PipelineRun, b: PipelineRun) -> bool {
    &&& a.end_point == b.end_point
    &&& a.members == b.members
    &&& a.chairman == b.chairman
    &&& a.doc_url == b.doc_url
    &&& a.title == b.title
    &&& a.prompt == b.prompt
    &&& a.max_tokens == b.max_tokens
    &&& a.cache == b.cache
}

/// Admits a new run: looks the members up, attempts the single-flight
/// lock, and assembles the run with its first action. A busy lock
/// rejects the request at once, disturbing neither it nor the in-flight
/// run; missing configuration rejects the request without any lock
/// access.
pub fn begin(
    gate: &mut Gate,
    store: &ConfigStore,
    end_point: String,
    req: LLMCouncilRequestSchema,
) -> (r: Result<(PipelineRun, PipelineAction), CouncilError>)
    ensures
        store.params is None ==> (r matches Err(e) && e is ConfigurationMissing && *final(gate)
            == *old(gate)),
        store.params is Some && old(gate).held ==> (r matches Err(e) && e is GateBusy
            && *final(gate) == *old(gate)),
        store.params is Some && !old(gate).held ==> final(gate).held,
        store.params matches Some(params) ==> (!old(gate).held ==> (r matches Ok(p) && {
            let (run, action) = p;
            &&& sorted_by_id(run.members@)
            &&& exists|v0: Seq<CouncilMember>|
                members_like(v0, params.council_members@) && run.members@.to_multiset()
                    == v0.to_multiset()
            &&& member_like(run.chairman, params.council_chairman)
            &&& run.doc_url@ == params.document_service_url@
            &&& run.end_point == end_point
            &&& run.title == req.title
            &&& run.prompt == req.prompt
            &&& run.max_tokens == req.max_tokens
            &&& run.cache == req.cache
            &&& run.state == spec_begin(req.cache).0
            &&& action_kind(action) == spec_begin(req.cache).1
            &&& (req.cache ==> (action matches PipelineAction::ReadDocuments(plan) && read_plan_ok(
                plan@,
                run.members@,
                params.document_service_url@,
                spec_prefixed_title("initial"@, req.title@),
            )))
            &&& (!req.cache ==> (action matches PipelineAction::FanOut(plan) && initial_plan_ok(
                plan@,
                run.members@,
                end_point@,
                req.title@,
                req.prompt@,
                req.max_tokens as nat,
            )))
        })),
{
    let members = match get_council_members(store) {
        Ok(m) => m,
        Err(e) => {
            return Err(e);
        },
    };
    if !gate.try_acquire() {
        return Err(CouncilError::GateBusy);
    }
    let chairman = match get_council_chairman(store) {
        Ok(c) => c,
        Err(e) => {
            return Err(e);
        },
    };
    let doc_url = match get_document_store_url(store) {
        Ok(u) => u,
        Err(e) => {
            return Err(e);
        },
    };
    let ghost v0 = members@;
    let members = sort_members_by_id(members);
    proof {
        let cfg = store.params->Some_0;
        assert(members_like(v0, cfg.council_members@) && members@.to_multiset()
            == v0.to_multiset());
        assert(exists|v: Seq<CouncilMember>|
            members_like(v, cfg.council_members@) && members@.to_multiset() == v.to_multiset());
    }
    let run = PipelineRun {
        end_point,
        members,
        chairman,
        doc_url,
        title: req.title,
        prompt: req.prompt,
        max_tokens: req.max_tokens,
        cache: req.cache,
        state: if req.cache {
            PipelineState::AggregateInitial
        } else {
            PipelineState::StageInitial
        },
        initial_merged: String::new(),
        label_mapping: Vec::new(),
        ranking_merged: String::new(),
    };
    let action = if run.cache {
        let t = prefixed_title("initial", run.title.as_str());
        PipelineAction::ReadDocuments(
            plan_document_reads(&run.members, run.doc_url.as_str(), t.as_str()),
        )
    } else {
        PipelineAction::FanOut(
            plan_initial_calls(
                &run.members,
                run.end_point.as_str(),
                run.title.as_str(),
                run.prompt.as_str(),
                run.max_tokens,
            ),
        )
    };
    Ok((run, action))
}

impl PipelineRun {
    /// Consumes one completed piece of outside work and decides the next
    /// action, following the transition table. Any step that responds —
    /// success or failure — releases the single-flight lock; every other
    /// step leaves it held. A stage failure surfaces the first failed
    /// call; no already-persisted document is ever revoked (no action
    /// deletes).
    pub fn step(&mut self, gate: &mut Gate, event: PipelineEvent) -> (r: PipelineAction)
        requires
            event_fits(old(self).state, event),
        ensures
            final(self).state == spec_step(
                old(self).state,
                old(self).cache,
                event_kind(event),
            ).0,
            action_kind(r) == spec_step(old(self).state, old(self).cache, event_kind(event)).1,
            same_setup(*old(self), *final(self)),
            (action_kind(r) == ActionKind::RespondSuccess || action_kind(r)
                == ActionKind::RespondError) ==> !final(gate).held,
            (action_kind(r) != ActionKind::RespondSuccess && action_kind(r)
                != ActionKind::RespondError) ==> *final(gate) == *old(gate),
            !(old(self).state == PipelineState::AggregateInitial && event is DocumentsRead) ==> (
            final(self).initial_merged == old(self).initial_merged && final(self).label_mapping
                == old(self).label_mapping),
            !(old(self).state == PipelineState::AggregateRanking && event is DocumentsRead) ==>
                final(self).ranking_merged == old(self).ranking_merged,
            old(self).state == PipelineState::StageInitial ==> (event matches
                PipelineEvent::FanOutDone(o) ==> (all_ok(o@) ==> (r matches
                PipelineAction::ReadDocuments(plan) && read_plan_ok(
                plan@,
                old(self).members@,
                old(self).doc_url@,
                spec_prefixed_title("initial"@, old(self).title@),
            )))),
            old(self).state == PipelineState::StageRanking ==> (event matches
                PipelineEvent::FanOutDone(o) ==> (all_ok(o@) ==> (r matches
                PipelineAction::ReadDocuments(plan) && read_plan_ok(
                plan@,
                old(self).members@,
                old(self).doc_url@,
                spec_prefixed_title("ranking"@, old(self).title@),
            )))),
            (old(self).state == PipelineState::StageInitial || old(self).state
                == PipelineState::StageRanking || old(self).state == PipelineState::StageChairman)
                ==> (event matches PipelineEvent::FanOutDone(o) ==> (!all_ok(o@) ==> (r matches
                PipelineAction::RespondError(e) && surfaced_failure(e, o@)))),
            old(self).state == PipelineState::AggregateInitial ==> (event matches
                PipelineEvent::DocumentsRead(docs) ==> {
                &&& final(self).initial_merged@ == merged_prompt(record_texts(docs@))
                &&& label_mapping_ok(docs@, final(self).label_mapping@)
                &&& (old(self).cache ==> (r matches PipelineAction::ReadDocuments(plan)
                    && read_plan_ok(
                    plan@,
                    old(self).members@,
                    old(self).doc_url@,
                    spec_prefixed_title("ranking"@, old(self).title@),
                )))
                &&& (!old(self).cache ==> (r matches PipelineAction::FanOut(plan)
                    && ranking_plan_ok(
                    plan@,
                    old(self).members@,
                    old(self).end_point@,
                    old(self).title@,
                    spec_ranking_prompt(old(self).prompt@, merged_prompt(record_texts(docs@))),
                )))
            }),
            old(self).state == PipelineState::AggregateRanking ==> (event matches
                PipelineEvent::DocumentsRead(docs) ==> {
                &&& final(self).ranking_merged@ == merged_prompt(record_texts(docs@))
                &&& (!old(self).cache ==> (r matches PipelineAction::CallChairman(plan)
                    && chairman_plan_ok(
                    plan,
                    old(self).chairman,
                    old(self).end_point@,
                    old(self).title@,
                    spec_chairman_prompt(
                        old(self).prompt@,
                        old(self).initial_merged@,
                        merged_prompt(record_texts(docs@)),
                    ),
                )))
            }),
            event matches PipelineEvent::DocumentsReadFailed(err) ==> r
                == PipelineAction::RespondError(err),
    {
        match event {
            PipelineEvent::FanOutDone(outcomes) => {
                match evaluate_fanout(&outcomes) {
                    Ok(_) => {
                        match self.state {
                            PipelineState::StageInitial => {
                                self.state = PipelineState::AggregateInitial;
                                let t = prefixed_title("initial", self.title.as_str());
                                PipelineAction::ReadDocuments(
                                    plan_document_reads(
                                        &self.members,
                                        self.doc_url.as_str(),
                                        t.as_str(),
                                    ),
                                )
                            },
                            PipelineState::StageRanking => {
                                self.state = PipelineState::AggregateRanking;
                                let t = prefixed_title("ranking", self.title.as_str());
                                PipelineAction::ReadDocuments(
                                    plan_document_reads(
                                        &self.members,
                                        self.doc_url.as_str(),
                                        t.as_str(),
                                    ),
                                )
                            },
                            PipelineState::StageChairman => {
                                self.state = PipelineState::Done;
                                gate.release();
                                PipelineAction::RespondSuccess
                            },
                            _ => unreached(),
                        }
                    },
                    Err(e) => {
                        self.state = PipelineState::Failed;
                        gate.release();
                        PipelineAction::RespondError(e)
                    },
                }
            },
            PipelineEvent::DocumentsRead(docs) => {
                match self.state {
                    PipelineState::AggregateInitial => {
                        let (merged, mapping) = format_initial_responses(&docs);
                        self.initial_merged = merged;
                        self.label_mapping = mapping;
                        if self.cache {
                            self.state = PipelineState::AggregateRanking;
                            let t = prefixed_title("ranking", self.title.as_str());
                            PipelineAction::ReadDocuments(
                                plan_document_reads(
                                    &self.members,
                                    self.doc_url.as_str(),
                                    t.as_str(),
                                ),
                            )
                        } else {
                            self.state = PipelineState::StageRanking;
                            let stage_prompt = build_ranking_prompt(
                                self.prompt.as_str(),
                                self.initial_merged.as_str(),
                            );
                            PipelineAction::FanOut(
                                plan_ranking_calls(
                                    &self.members,
                                    self.end_point.as_str(),
                                    self.title.as_str(),
                                    stage_prompt.as_str(),
                                ),
                            )
                        }
                    },
                    PipelineState::AggregateRanking => {
                        let merged = format_ranking_responses(&docs);
                        self.ranking_merged = merged;
                        if self.cache {
                            self.state = PipelineState::Done;
                            gate.release();
                            PipelineAction::RespondSuccess
                        } else {
                            self.state = PipelineState::StageChairman;
                            let stage_prompt = build_chairman_prompt(
                                self.prompt.as_str(),
                                self.initial_merged.as_str(),
                                self.ranking_merged.as_str(),
                            );
                            PipelineAction::CallChairman(
                                plan_chairman_call(
                                    &self.chairman,
                                    self.end_point.as_str(),
                                    self.title.as_str(),
                                    stage_prompt.as_str(),
                                ),
                            )
                        }
                    },
                    _ => unreached(),
                }
            },
            PipelineEvent::DocumentsReadFailed(err) => {
                self.state = PipelineState::Failed;
                gate.release();
                PipelineAction::RespondError(err)
            },
        }
    }
}

/// Cache-mode law: with the cache flag set, neither the first action of
/// a run nor any step's action is ever a member fan-out or a chairman
/// call — only document reads and the final response remain.
pub proof fn lemma_cache_mode_is_network_silent()
    ensures
        spec_begin(true).1 != ActionKind::FanOut,
        spec_begin(true).1 != ActionKind::CallChairman,
        forall|s: PipelineState, e: EventKind|
            (#[trigger] spec_step(s, true, e)).1 != ActionKind::FanOut && spec_step(s, true, e).1
                != ActionKind::CallChairman,
{
}

} // verus!
