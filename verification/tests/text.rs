use cargo_lockstep::text::contains_text;
use cargo_lockstep::text::copy_texts;

fn listed(items: &[&str]) -> Vec<String> {
    items.iter().map(|w| w.to_string()).collect()
}

#[test]
fn a_copy_holds_the_same_texts_in_the_same_order() {
    assert_eq!(copy_texts(&listed(&["b", "a", "b"])), listed(&["b", "a", "b"]));
    assert_eq!(copy_texts(&listed(&[])), listed(&[]));
}

#[test]
fn a_text_is_found_by_its_whole_self() {
    let list = listed(&["serde", "anyhow"]);
    assert!(contains_text(&list, &"serde".to_string()));
    assert!(contains_text(&list, &"anyhow".to_string()));
    assert!(!contains_text(&list, &"serd".to_string()));
    assert!(!contains_text(&list, &"Serde".to_string()));
    assert!(!contains_text(&listed(&[]), &"serde".to_string()));
}
