//! Health prober logic: the probe URL per member, and the exhaustive
//! report that captures every member's outcome — a failing member never
//! hides the others.

use vstd::prelude::*;

use crate::schema::CouncilMember;
use crate::text::{contains_seq, is_match_at, lemma_concat_contains};

verus! {

/// The health endpoint of one member.
pub open spec fn spec_health_url(base: Seq<char>) -> Seq<char> {
    base + "/v1/health"@
}

/// Builds the health-probe URL "<base>/v1/health".
pub fn health_url(base: &str) -> (r: String)
    ensures
        r@ == spec_health_url(base@),
{
    let mut s = String::from_str(base);
    s.append("/v1/health");
    s
}

/// The probe plan: each member, in configuration order, paired with its
/// health URL.
pub open spec fn health_plan_ok(plan: Seq<(String, String)>, members: Seq<CouncilMember>) -> bool {
    &&& plan.len() == members.len()
    &&& forall|i: int|
        0 <= i < members.len() ==> (#[trigger] plan[i]).0@ == members[i].name@ && plan[i].1@
            == spec_health_url(members[i].url@)
}

/// Builds the probe plan: one (member name, health URL) pair per member.
pub fn plan_health_calls(members: &Vec<CouncilMember>) -> (r: Vec<(String, String)>)
    ensures
        health_plan_ok(r@, members@),
{
    let mut plan: Vec<(String, String)> = Vec::new();
    let mut i: usize = 0;
    while i < members.len()
        invariant
            i <= members@.len(),
            plan@.len() == i,
            forall|k: int|
                0 <= k < i ==> (#[trigger] plan@[k]).0@ == members@[k].name@ && plan@[k].1@
                    == spec_health_url(members@[k].url@),
        decreases members@.len() - i,
    {
        plan.push((members[i].name.clone(), health_url(members[i].url.as_str())));
        i = i + 1;
    }
    plan
}

/// The combined report over (member name, outcome text) entries: each
/// entry contributes "<name>: <outcome>", in order.
pub open spec fn report_of(entries: Seq<(String, String)>) -> Seq<char>
    decreases entries.len(),
{
    if entries.len() == 0 {
        Seq::empty()
    } else {
        report_of(entries.drop_last()) + entries.last().0@ + ": "@ + entries.last().1@
    }
}

/// Combines every member's probe outcome — the payload of a reachable
/// member or the error text of an unreachable one — into one report.
pub fn build_health_report(entries: &Vec<(String, String)>) -> (r: String)
    ensures
        r@ == report_of(entries@),
{
    let mut report = String::new();
    let mut i: usize = 0;
    while i < entries.len()
        invariant
            i <= entries@.len(),
            report@ == report_of(entries@.take(i as int)),
        decreases entries@.len() - i,
    {
        report.append(entries[i].0.as_str());
        report.append(": ");
        report.append(entries[i].1.as_str());
        proof {
            assert(entries@.take(i + 1).drop_last() =~= entries@.take(i as int));
            assert(entries@.take(i + 1).last() == entries@[i as int]);
        }
        i = i + 1;
    }
    proof {
        assert(entries@.take(entries@.len() as int) =~= entries@);
    }
    report
}

/// Exhaustive-probe law: the report contains every entry's member name
/// and every entry's outcome text — no member's failure hides another
/// member's result.
pub proof fn lemma_report_is_exhaustive(entries: Seq<(String, String)>, i: int)
    requires
        0 <= i < entries.len(),
    ensures
        contains_seq(report_of(entries), entries[i].0@),
        contains_seq(report_of(entries), entries[i].1@),
    decreases entries.len(),
{
    let pre = report_of(entries.drop_last());
    let last = entries.last();
    if i == entries.len() - 1 {
        assert(report_of(entries) == pre + last.0@ + ": "@ + last.1@);
        assert(pre + last.0@ + ": "@ + last.1@ =~= pre + last.0@ + (": "@ + last.1@));
        lemma_concat_contains(pre, last.0@, ": "@ + last.1@);
        assert(pre + last.0@ + ": "@ + last.1@ =~= (pre + last.0@ + ": "@) + last.1@
            + Seq::<char>::empty());
        lemma_concat_contains(pre + last.0@ + ": "@, last.1@, Seq::<char>::empty());
    } else {
        lemma_report_is_exhaustive(entries.drop_last(), i);
        assert(entries.drop_last()[i] == entries[i]);
        lemma_contains_extends(pre, last.0@ + ": "@ + last.1@, entries[i].0@);
        lemma_contains_extends(pre, last.0@ + ": "@ + last.1@, entries[i].1@);
        assert(pre + (last.0@ + ": "@ + last.1@) =~= report_of(entries));
    }
}

/// A text that contains a needle still contains it after more text is
/// appended.
proof fn lemma_contains_extends(hay: Seq<char>, ext: Seq<char>, needle: Seq<char>)
    requires
        contains_seq(hay, needle),
    ensures
        contains_seq(hay + ext, needle),
{
    let i = choose|i: int| is_match_at(hay, needle, i);
    assert((hay + ext).subrange(i, i + needle.len() as int) =~= hay.subrange(
        i,
        i + needle.len() as int,
    ));
    assert(is_match_at(hay + ext, needle, i));
}

} // verus!
