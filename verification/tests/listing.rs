use pgauthz::listing::{candidate_page, collect_allowed, paginate_ids, sorted_unique_ids};

fn strings(v: &[&str]) -> Vec<String> {
    v.iter().map(|s| s.to_string()).collect()
}

#[test]
fn candidates_are_sorted_and_distinct() {
    let ids = strings(&["doc3", "doc1", "doc2", "doc1", "doc10", "doc3"]);
    assert_eq!(
        sorted_unique_ids(&ids),
        strings(&["doc1", "doc10", "doc2", "doc3"])
    );
    assert_eq!(sorted_unique_ids(&Vec::new()), Vec::<String>::new());
    // code-point order, as String compares
    assert_eq!(
        sorted_unique_ids(&strings(&["b", "B", "é", "a", "Z"])),
        strings(&["B", "Z", "a", "b", "é"])
    );
}

#[test]
fn pages_follow_the_continuation_token() {
    let ids = strings(&["a", "b", "c", "d", "e"]);
    assert_eq!(paginate_ids(&ids, 2, None), strings(&["a", "b"]));
    assert_eq!(paginate_ids(&ids, 2, Some("b")), strings(&["c", "d"]));
    assert_eq!(paginate_ids(&ids, 2, Some("d")), strings(&["e"]));
    assert_eq!(paginate_ids(&ids, 2, Some("e")), Vec::<String>::new());
    // an unknown token restarts from the beginning
    assert_eq!(paginate_ids(&ids, 2, Some("bb")), strings(&["a", "b"]));
    // page sizes below one still give one id
    assert_eq!(paginate_ids(&ids, 0, None), strings(&["a"]));
    assert_eq!(paginate_ids(&ids, -7, Some("a")), strings(&["b"]));
    assert_eq!(paginate_ids(&ids, 100, None), ids);
}

#[test]
fn candidate_page_combines_both_steps() {
    let raw = strings(&["doc2", "doc1", "doc2", "doc3"]);
    assert_eq!(candidate_page(&raw, 100, None), strings(&["doc1", "doc2", "doc3"]));
    assert_eq!(candidate_page(&raw, 1, Some("doc1")), strings(&["doc2"]));
}

#[test]
fn allowed_ids_keep_their_order() {
    let ids = strings(&["doc1", "doc2", "doc3", "doc4"]);
    assert_eq!(
        collect_allowed(&ids, &vec![true, false, true, false]),
        strings(&["doc1", "doc3"])
    );
    assert_eq!(collect_allowed(&ids, &vec![false; 4]), Vec::<String>::new());
}
