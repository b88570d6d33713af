use std::collections::BTreeMap;

use llm_council::aggregate::make_label;

#[test]
fn calculate_aggregate_rankings() {
    println!();
    let mut bt_result: BTreeMap<usize, &str> = BTreeMap::new();
    let mut vec_all: Vec<Vec<&str>> = Vec::new();
    let vec_lookup = ["Response A", "Response B", "Response C", "Response D"];
    vec_all.push(vec!["Response C", "Response A", "Response B", "Response D"]);
    vec_all.push(vec!["Response C", "Response B", "Response D", "Response A"]);
    vec_all.push(vec!["Response D", "Response A", "Response B", "Response C"]);
    vec_all.push(vec!["Response C", "Response A", "Response B", "Response D"]);
    for k in vec_lookup.iter() {
        let mut total = 1;
        for item in vec_all.iter() {
            total = total + item.iter().position(|x| x == k).map_or(100, |x| x) + 1;
        }
        bt_result.insert(total, k);
    }
    println!("result {:?}", bt_result);
}

#[test]
fn labels_match_the_lookup_table() {
    assert_eq!(make_label(0), "Response A");
    assert_eq!(make_label(1), "Response B");
    assert_eq!(make_label(2), "Response C");
    assert_eq!(make_label(3), "Response D");
    assert_eq!(make_label(25), "Response Z");
    // Past the alphabet the letter continues through the byte range.
    assert_eq!(make_label(26), "Response [");
}
