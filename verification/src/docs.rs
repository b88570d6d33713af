//! Document-store client logic: key and URL construction, the write
//! body, classification of a read outcome, and the ascending-id ordering
//! that makes batch reads deterministic.

use vstd::multiset::Multiset;
use vstd::prelude::*;

use crate::errors::CouncilError;
use crate::schema::CouncilMember;
use crate::text::{dec_digits, usize_to_decimal};

verus! {

/// The key of a stage document on the store: "<member>-<title>.md".
pub open spec fn spec_document_key(member: Seq<char>, title: Seq<char>) -> Seq<char> {
    member + "-"@ + title + ".md"@
}

/// Builds the document key "<member>-<title>.md".
pub fn document_key(member: &str, title: &str) -> (r: String)
    ensures
        r@ == spec_document_key(member@, title@),
{
    let mut s = String::from_str(member);
    s.append("-");
    s.append(title);
    s.append(".md");
    s
}

/// A stage-prefixed title: "<stage>-<title>".
pub open spec fn spec_prefixed_title(stage: Seq<char>, title: Seq<char>) -> Seq<char> {
    stage + "-"@ + title
}

/// Builds the stage-prefixed title "<stage>-<title>".
pub fn prefixed_title(stage: &str, title: &str) -> (r: String)
    ensures
        r@ == spec_prefixed_title(stage@, title@),
{
    let mut s = String::from_str(stage);
    s.append("-");
    s.append(title);
    s
}

/// The read URL for one member's stage document.
pub open spec fn spec_read_url(base: Seq<char>, member: Seq<char>, title: Seq<char>) -> Seq<char> {
    base + "/read?document="@ + spec_document_key(member, title)
}

/// Builds the read URL "<base>/read?document=<member>-<title>.md".
pub fn read_url(base: &str, member: &str, title: &str) -> (r: String)
    ensures
        r@ == spec_read_url(base@, member@, title@),
{
    let mut s = String::from_str(base);
    s.append("/read?document=");
    s.append(document_key(member, title).as_str());
    s
}

/// The write endpoint of the store.
pub open spec fn spec_write_url(base: Seq<char>) -> Seq<char> {
    base + "/write"@
}

/// Builds the write URL "<base>/write".
pub fn write_url(base: &str) -> (r: String)
    ensures
        r@ == spec_write_url(base@),
{
    let mut s = String::from_str(base);
    s.append("/write");
    s
}

/// The JSON body of a store write: the content is inserted as it came
/// back from the member.
pub open spec fn spec_write_body(
    member: Seq<char>,
    title: Seq<char>,
    content: Seq<char>,
) -> Seq<char> {
    "{ \"document\": \""@ + spec_document_key(member, title) + "\", \"content\" : "@ + content
        + " }"@
}

/// Builds the JSON body of a store write.
pub fn write_body(member: &str, title: &str, content: &str) -> (r: String)
    ensures
        r@ == spec_write_body(member@, title@, content@),
{
    let mut s = String::from_str("{ \"document\": \"");
    s.append(document_key(member, title).as_str());
    s.append("\", \"content\" : ");
    s.append(content);
    s.append(" }");
    s
}

/// Classifies the outcome of a GET: a 200 yields the body, anything else
/// is a persistence failure naming the status.
pub fn classify_get(status: u16, body: String) -> (r: Result<String, CouncilError>)
    ensures
        status == 200 ==> r == Ok::<String, CouncilError>(body),
        status != 200 ==> (r matches Err(e) && (e matches CouncilError::PersistenceFailure {
            detail,
        } && detail@ == "error status code "@ + dec_digits(status as nat))),
{
    if status == 200 {
        Ok(body)
    } else {
        let mut detail = String::from_str("error status code ");
        detail.append(usize_to_decimal(status as usize).as_str());
        Err(CouncilError::PersistenceFailure { detail })
    }
}

/// The member list is in ascending-id order.
pub open spec fn sorted_by_id(s: Seq<CouncilMember>) -> bool {
    forall|i: int, j: int| 0 <= i < j < s.len() ==> s[i].id <= s[j].id
}

/// Sorts the members into ascending-id order; the collection of members
/// is preserved exactly.
pub fn sort_members_by_id(members: Vec<CouncilMember>) -> (r: Vec<CouncilMember>)
    ensures
        sorted_by_id(r@),
        r@.to_multiset() == members@.to_multiset(),
{
    broadcast use vstd::seq_lib::group_to_multiset_ensures;

    let ghost orig = members@;
    let mut rest = members;
    let mut out: Vec<CouncilMember> = Vec::new();
    while rest.len() > 0
        invariant
            out@.to_multiset().add(rest@.to_multiset()) == orig.to_multiset(),
            sorted_by_id(out@),
            forall|i: int, j: int|
                0 <= i < out@.len() && 0 <= j < rest@.len() ==> out@[i].id <= rest@[j].id,
        decreases rest@.len(),
    {
        let mut min_idx: usize = 0;
        let mut k: usize = 1;
        while k < rest.len()
            invariant
                min_idx < k <= rest@.len(),
                rest@.len() > 0,
                forall|t: int| 0 <= t < k ==> rest@[min_idx as int].id <= rest@[t].id,
            decreases rest@.len() - k,
        {
            if rest[k].id < rest[min_idx].id {
                min_idx = k;
            }
            k = k + 1;
        }
        let ghost rest_before = rest@;
        let x = rest.remove(min_idx);
        proof {
            assert(rest@ == rest_before.remove(min_idx as int));
            vstd::seq_lib::to_multiset_remove::<CouncilMember>(rest_before, min_idx as int);
            assert(rest@.to_multiset() =~= rest_before.to_multiset().remove(x));
            assert forall|j: int| 0 <= j < rest@.len() implies x.id <= rest@[j].id by {
                if j < min_idx {
                    assert(rest@[j] == rest_before[j]);
                } else {
                    assert(rest@[j] == rest_before[j + 1]);
                }
            }
        }
        let ghost out_before = out@;
        out.push(x);
        proof {
            assert(out@ == out_before.push(x));
            vstd::seq_lib::to_multiset_build::<CouncilMember>(out_before, x);
            assert(out@.to_multiset() =~= out_before.to_multiset().insert(x));
            assert(rest_before.to_multiset().count(x) > 0) by {
                assert(rest_before.contains(x)) by {
                    assert(rest_before[min_idx as int] == x);
                }
                vstd::seq_lib::to_multiset_contains::<CouncilMember>(rest_before, x);
            }
            assert(out@.to_multiset().add(rest@.to_multiset()) =~= out_before.to_multiset().add(
                rest_before.to_multiset(),
            ));
            assert forall|i: int, j: int| 0 <= i < j < out@.len() implies out@[i].id
                <= out@[j].id by {
                if j < out@.len() - 1 {
                    assert(out@[i] == out_before[i] && out@[j] == out_before[j]);
                }
            }
        }
    }
    proof {
        assert(rest@.to_multiset() =~= Multiset::empty());
        assert(out@.to_multiset().add(rest@.to_multiset()) =~= out@.to_multiset());
    }
    out
}

/// The read plan pairs each member, in the given order, with its name and
/// the read URL of its stage document.
pub open spec fn read_plan_ok(
    plan: Seq<(String, String)>,
    members: Seq<CouncilMember>,
    base: Seq<char>,
    title: Seq<char>,
) -> bool {
    &&& plan.len() == members.len()
    &&& forall|i: int|
        0 <= i < members.len() ==> (#[trigger] plan[i]).0@ == members[i].name@ && plan[i].1@
            == spec_read_url(base, members[i].name@, title)
}

/// Builds the batch-read plan for one stage: one (member name, read URL)
/// pair per member, in the order given (ascending id for aggregation).
pub fn plan_document_reads(members: &Vec<CouncilMember>, base: &str, title: &str) -> (r: Vec<
    (String, String),
>)
    ensures
        read_plan_ok(r@, members@, base@, title@),
{
    let mut plan: Vec<(String, String)> = Vec::new();
    let mut i: usize = 0;
    while i < members.len()
        invariant
            i <= members@.len(),
            plan@.len() == i,
            forall|k: int|
                0 <= k < i ==> (#[trigger] plan@[k]).0@ == members@[k].name@ && plan@[k].1@
                    == spec_read_url(base@, members@[k].name@, title@),
        decreases members@.len() - i,
    {
        let name = members[i].name.clone();
        let url = read_url(base, members[i].name.as_str(), title);
        plan.push((name, url));
        i = i + 1;
    }
    plan
}

} // verus!
