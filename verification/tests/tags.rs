use trovochat::tags::TagIndices;

#[test]
fn build_indices_parses_pairs() {
    let input = "@k1=v1;k2=v2";
    let tags = TagIndices::build_indices(input);
    assert_eq!(tags.len(), 2);
    assert!(!tags.is_empty());
    assert_eq!(tags.get("k1", input), Some("v1"));
    assert_eq!(tags.get("k2", input), Some("v2"));
    assert_eq!(tags.get("k3", input), None);
}

#[test]
fn build_indices_needs_the_marker() {
    let tags = TagIndices::build_indices("k1=v1;k2=v2");
    assert!(tags.is_empty());
    assert_eq!(tags.len(), 0);
}

#[test]
fn empty_values_are_legal_empty_keys_are_dropped() {
    let input = "@k1=;=v2;k3";
    let tags = TagIndices::build_indices(input);
    assert_eq!(tags.len(), 2);
    assert_eq!(tags.get("k1", input), Some(""));
    assert_eq!(tags.get("k3", input), Some(""));
}

#[test]
fn duplicate_keys_first_match_wins() {
    let input = "@k=a;k=b";
    let tags = TagIndices::build_indices(input);
    assert_eq!(tags.get("k", input), Some("a"));
}

#[test]
fn value_is_after_the_last_equals() {
    let input = "@k=a=b";
    let tags = TagIndices::build_indices(input);
    assert_eq!(tags.get("k", input), Some("b"));
}

#[test]
fn iter_yields_pairs_in_order() {
    let input = "@b=2;a=1";
    let tags = TagIndices::build_indices(input);
    let pairs = tags.iter(input);
    assert_eq!(
        pairs,
        vec![
            ("b".to_string(), "2".to_string()),
            ("a".to_string(), "1".to_string())
        ]
    );
}

// Tag parse idempotence: rendering what a parse yielded and parsing the
// rendering yields the same pairs.
#[test]
fn tag_parse_idempotence() {
    for input in [
        "@k1=v1;k2=v2",
        "@badge-info=subscriber/13;badges=subscriber/12;color=#0000FF",
        "@a=;b;=dropped;c=x=y",
        "plain text without marker",
        "@",
        "",
    ] {
        let parsed = TagIndices::build_indices(input);
        let rendered = parsed.render(input);
        let reparsed = TagIndices::build_indices(&rendered);
        assert_eq!(parsed.iter(input), reparsed.iter(&rendered));
    }
}

#[test]
fn render_of_no_tags_is_empty() {
    let tags = TagIndices::build_indices("");
    assert_eq!(tags.render(""), "");
}

#[test]
fn render_wire_form() {
    let input = "@k1=v1;k2=v2";
    let tags = TagIndices::build_indices(input);
    assert_eq!(tags.render(input), "@k1=v1;k2=v2");
}
