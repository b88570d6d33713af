//! Response aggregation: merges the key-ordered member responses of one
//! stage into a single labeled prompt fragment, assigning anonymized
//! labels in iteration order (ascending member id).

use vstd::prelude::*;

use crate::text::push_char;

verus! {

/// The code point of the label letter for position `i`: successive
/// letters starting at 'A', with byte wrap-around beyond the range.
pub open spec fn label_byte(i: nat) -> u8 {
    (((65 + i % 256) % 256) as u8)
}

/// The label letter for position `i`.
pub open spec fn label_char(i: nat) -> char {
    label_byte(i) as char
}

/// The full label for position `i`: "Response " followed by the letter.
pub open spec fn label_of(i: nat) -> Seq<char> {
    "Response "@ + seq![label_char(i)]
}

/// The texts of a record list, in order.
pub open spec fn record_texts(records: Seq<(String, String)>) -> Seq<Seq<char>> {
    records.map(|i: int, r: (String, String)| r.1@)
}

/// The merged prompt over ordered texts: the fragments
/// "<label>:<text>" concatenated with no delimiter between entries.
pub open spec fn merged_prompt(texts: Seq<Seq<char>>) -> Seq<char>
    decreases texts.len(),
{
    if texts.len() == 0 {
        Seq::empty()
    } else {
        merged_prompt(texts.drop_last()) + label_of((texts.len() - 1) as nat) + ":"@
            + texts.last()
    }
}

/// The mapping pairs each member name, in iteration order, with the label
/// of its position.
pub open spec fn label_mapping_ok(
    records: Seq<(String, String)>,
    mapping: Seq<(String, String)>,
) -> bool {
    &&& mapping.len() == records.len()
    &&& forall|i: int|
        0 <= i < records.len() ==> (#[trigger] mapping[i]).0@ == records[i].0@ && mapping[i].1@
            == label_of(i as nat)
}

/// Builds the label for position `i`.
pub fn make_label(i: usize) -> (r: String)
    ensures
        r@ == label_of(i as nat),
{
    let mut s = String::from_str("Response ");
    let t: u8 = (i % 256) as u8;
    let b: u8 = 65u8.wrapping_add(t);
    proof {
        assert(t as nat == (i as nat) % 256);
        if 65 + (t as nat) > 255 {
            assert((65 + (t as nat)) % 256 == 65 + (t as nat) - 256) by (nonlinear_arith)
                requires
                    256 <= 65 + (t as nat) < 512,
            ;
        } else {
            assert((65 + (t as nat)) % 256 == 65 + (t as nat)) by (nonlinear_arith)
                requires
                    65 + (t as nat) <= 255,
            ;
        }
        assert(b == label_byte(i as nat));
    }
    push_char(&mut s, b as char);
    s
}

/// Merges ordered (member, text) records of the initial stage into one
/// labeled prompt and the member-to-label mapping. Records must arrive in
/// ascending member-id order; labels depend only on that order.
pub fn format_initial_responses(records: &Vec<(String, String)>) -> (r: (
    String,
    Vec<(String, String)>,
))
    ensures
        r.0@ == merged_prompt(record_texts(records@)),
        label_mapping_ok(records@, r.1@),
{
    let ghost texts = record_texts(records@);
    let mut stage_prompt = String::new();
    let mut label_model: Vec<(String, String)> = Vec::new();
    let mut idx: usize = 0;
    while idx < records.len()
        invariant
            idx <= records@.len(),
            texts == record_texts(records@),
            stage_prompt@ == merged_prompt(texts.take(idx as int)),
            label_model@.len() == idx,
            forall|i: int|
                0 <= i < idx ==> (#[trigger] label_model@[i]).0@ == records@[i].0@
                    && label_model@[i].1@ == label_of(i as nat),
        decreases records@.len() - idx,
    {
        let label = make_label(idx);
        stage_prompt.append(label.as_str());
        stage_prompt.append(":");
        stage_prompt.append(records[idx].1.as_str());
        label_model.push((records[idx].0.clone(), label));
        proof {
            assert(texts.take(idx + 1).drop_last() =~= texts.take(idx as int));
            assert(texts.take(idx + 1).last() == texts[idx as int]);
            assert(texts[idx as int] == records@[idx as int].1@);
        }
        idx = idx + 1;
    }
    proof {
        assert(texts.take(records@.len() as int) =~= texts);
    }
    (stage_prompt, label_model)
}

/// Merges ordered (member, text) records of the ranking stage into one
/// labeled prompt; the mapping is not retained for this stage.
pub fn format_ranking_responses(records: &Vec<(String, String)>) -> (r: String)
    ensures
        r@ == merged_prompt(record_texts(records@)),
{
    let ghost texts = record_texts(records@);
    let mut stage_prompt = String::new();
    let mut idx: usize = 0;
    while idx < records.len()
        invariant
            idx <= records@.len(),
            texts == record_texts(records@),
            stage_prompt@ == merged_prompt(texts.take(idx as int)),
        decreases records@.len() - idx,
    {
        let label = make_label(idx);
        stage_prompt.append(label.as_str());
        stage_prompt.append(":");
        stage_prompt.append(records[idx].1.as_str());
        proof {
            assert(texts.take(idx + 1).drop_last() =~= texts.take(idx as int));
            assert(texts.take(idx + 1).last() == texts[idx as int]);
            assert(texts[idx as int] == records@[idx as int].1@);
        }
        idx = idx + 1;
    }
    proof {
        assert(texts.take(records@.len() as int) =~= texts);
    }
    stage_prompt
}

/// Determinism law: on one record list, the merged text is a fixed
/// function of the records, and any two mappings are identical pair by
/// pair — labeling never depends on call arrival order or repetition.
pub proof fn lemma_labeled_prompt_deterministic(
    records: Seq<(String, String)>,
    m1: Seq<(String, String)>,
    m2: Seq<(String, String)>,
)
    requires
        label_mapping_ok(records, m1),
        label_mapping_ok(records, m2),
    ensures
        m1.len() == m2.len(),
        forall|i: int|
            0 <= i < m1.len() ==> (#[trigger] m1[i]).0@ == m2[i].0@ && m1[i].1@ == m2[i].1@,
{
}

/// Ascending-label law: for up to 26 records the labels start at
/// "Response A" and strictly ascend with position. (Beyond 26 the letter
/// leaves the alphabet; beyond the byte range it wraps.)
pub proof fn lemma_labels_ascending(n: nat)
    requires
        n <= 26,
    ensures
        label_of(0) == "Response "@ + seq!['A'],
        forall|i: nat, j: nat| i < j < n ==> label_byte(i) < label_byte(j),
{
    assert(label_char(0) == 'A');
    assert forall|i: nat, j: nat| i < j < n implies label_byte(i) < label_byte(j) by {
        assert(label_byte(i) == 65 + i);
        assert(label_byte(j) == 65 + j);
    }
}

} // verus!
