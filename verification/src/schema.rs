//! Data model: council members, the inbound request, per-call response
//! records, and the configuration supplied once at startup.

use vstd::prelude::*;

verus! {

/// A participating model back-end: `id` is the unique ordering key,
/// `name` is unique, `url` is the backend base URL, `model` the model
/// identifier sent with each call.
pub struct CouncilMember {
    pub id: usize,
    pub name: String,
    pub url: String,
    pub model: String,
}

/// Field-wise agreement of two members, strings compared by content.
pub open spec fn member_like(a: CouncilMember, b: CouncilMember) -> bool {
    &&& a.id == b.id
    &&& a.name@ == b.name@
    &&& a.url@ == b.url@
    &&& a.model@ == b.model@
}

/// Element-wise agreement of two member lists.
pub open spec fn members_like(a: Seq<CouncilMember>, b: Seq<CouncilMember>) -> bool {
    &&& a.len() == b.len()
    &&& forall|i: int| 0 <= i < a.len() ==> member_like(#[trigger] a[i], b[i])
}

impl Clone for CouncilMember {
    fn clone(&self) -> (res: Self)
        ensures
            member_like(res, *self),
    {
        CouncilMember {
            id: self.id,
            name: self.name.clone(),
            url: self.url.clone(),
            model: self.model.clone(),
        }
    }
}

/// The inbound pipeline request: `title` prefixes every document key of
/// the run, `prompt` is the user question, `cache` selects the re-entry
/// mode that skips all outbound member calls.
pub struct LLMCouncilRequestSchema {
    pub title: String,
    pub prompt: String,
    pub max_tokens: usize,
    pub cache: bool,
}

/// The response envelope kept for traceability: the run identity and the
/// member-to-label mapping of the initial stage, in ascending-id order.
pub struct LLMCouncilResponse {
    pub id: String,
    pub mapping: Vec<(String, String)>,
}

/// Outcome of one completed member call: `process_name` is the member,
/// `status_code` the final HTTP status (after persistence, when the call
/// itself succeeded), `contents` the accompanying body text.
pub struct ResponseObject {
    pub contents: String,
    pub process_name: String,
    pub status_code: u16,
}

/// A named document location on the store.
pub struct Document {
    pub name: String,
    pub url: String,
}

/// A digest of one run: the documents written, the aggregate ranking
/// totals, and the member-to-label mapping, each in deterministic order.
pub struct ResponseSummary {
    pub documents: Vec<Document>,
    pub summary_result: Vec<(String, usize)>,
    pub response_mapping: Vec<(String, String)>,
}

/// Configuration built once at startup and read-only thereafter.
pub struct Parameters {
    pub council_members: Vec<CouncilMember>,
    pub council_chairman: CouncilMember,
    pub document_service_url: String,
    pub server_port: usize,
    pub log_level: String,
}

/// The process-wide configuration slot: `None` until startup stores the
/// parameters, immutable afterwards.
pub struct ConfigStore {
    pub params: Option<Parameters>,
}

} // verus!
