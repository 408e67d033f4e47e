use mabi_core::tags::{parse_tag_string, parse_tags, Tags, TagsBuilder};

#[test]
fn test_tags_creation() {
    let tags = Tags::new()
        .with_tag("location", "building-a")
        .with_tag("floor", "3")
        .with_label("hvac")
        .with_label("critical");

    assert_eq!(tags.get("location"), Some("building-a"));
    assert_eq!(tags.get("floor"), Some("3"));
    assert!(tags.has_label("hvac"));
    assert!(tags.has_label("critical"));
    assert!(!tags.has_label("nonexistent"));
}

#[test]
fn test_tags_from_pairs() {
    let tags = Tags::from_pairs(&[("key1", "value1"), ("key2", "value2")]);
    assert_eq!(tags.get("key1"), Some("value1"));
    assert_eq!(tags.get("key2"), Some("value2"));
}

#[test]
fn test_tags_merge() {
    let mut tags1 = Tags::new().with_tag("a", "1").with_label("x");

    let tags2 = Tags::new()
        .with_tag("b", "2")
        .with_tag("a", "overwritten")
        .with_label("y");

    tags1.merge(tags2);

    assert_eq!(tags1.get("a"), Some("overwritten"));
    assert_eq!(tags1.get("b"), Some("2"));
    assert!(tags1.has_label("x"));
    assert!(tags1.has_label("y"));
}

#[test]
fn test_tags_selector() {
    let tags = Tags::new()
        .with_tag("location", "building-a")
        .with_tag("floor", "3")
        .with_tag("zone", "hvac");

    assert!(tags.matches_selector(&[("location", "building-a")]));
    assert!(tags.matches_selector(&[("location", "building-a"), ("floor", "3")]));
    assert!(!tags.matches_selector(&[("location", "building-b")]));
    assert!(!tags.matches_selector(&[("nonexistent", "value")]));
}

#[test]
fn test_tags_label_queries() {
    let tags = Tags::new()
        .with_label("production")
        .with_label("critical")
        .with_label("hvac");

    assert!(tags.has_any_label(&["production", "test"]));
    assert!(!tags.has_any_label(&["test", "dev"]));
    assert!(tags.has_all_labels(&["production", "critical"]));
    assert!(!tags.has_all_labels(&["production", "test"]));
}

#[test]
fn test_parse_tag_string() {
    assert_eq!(
        parse_tag_string("location=building-a"),
        Ok(("location".to_string(), Some("building-a".to_string())))
    );
    assert_eq!(parse_tag_string("critical"), Ok(("critical".to_string(), None)));
    assert_eq!(parse_tag_string("key="), Ok(("key".to_string(), Some("".to_string()))));
    assert!(parse_tag_string("").is_err());
    assert!(parse_tag_string("=value").is_err());
}

#[test]
fn test_parse_tags() {
    let tags = parse_tags(&["location=building-a", "floor=3", "critical", "production"]).unwrap();

    assert_eq!(tags.get("location"), Some("building-a"));
    assert_eq!(tags.get("floor"), Some("3"));
    assert!(tags.has_label("critical"));
    assert!(tags.has_label("production"));
}

#[test]
fn test_tags_builder() {
    let tags = TagsBuilder::new()
        .tag("env", "prod")
        .tag("region", "us-west")
        .label("monitored")
        .build();

    assert_eq!(tags.get("env"), Some("prod"));
    assert!(tags.has_label("monitored"));
}

#[test]
fn parse_tag_string_trims_both_sides() {
    assert_eq!(parse_tag_string("  zone = hvac  "), Ok(("zone".to_string(), Some("hvac".to_string()))));
    assert_eq!(parse_tag_string("a=b=c"), Ok(("a".to_string(), Some("b=c".to_string()))));
    assert_eq!(parse_tag_string("   "), Err("Empty tag string".to_string()));
    assert_eq!(parse_tag_string(" = x"), Err("Empty tag key".to_string()));
}

#[test]
fn parse_tags_reports_first_error() {
    assert_eq!(parse_tags(&["a=1", "=bad", ""]).unwrap_err(), "Empty tag key".to_string());
}

#[test]
fn tags_remove_and_len() {
    let mut tags = Tags::new().with_tag("a", "1").with_tag("b", "2").with_label("x");
    assert_eq!(tags.len(), 3);
    assert_eq!(tags.remove("a"), Some("1".to_string()));
    assert_eq!(tags.remove("a"), None);
    assert!(tags.remove_label("x"));
    assert!(!tags.remove_label("x"));
    assert_eq!(tags.len(), 1);
    assert!(!tags.is_empty());
    assert!(Tags::new().is_empty());
    let copy = tags.clone();
    assert_eq!(copy.get("b"), Some("2"));
    assert_eq!(copy.iter(), vec![("b".to_string(), "2".to_string())]);
}

#[test]
fn tags_later_pair_wins() {
    let tags = Tags::from_pairs(&[("k", "1"), ("k", "2")]);
    assert_eq!(tags.get("k"), Some("2"));
    assert_eq!(tags.len(), 1);
    let more = tags.with_tags(&[("k", "3"), ("j", "4")]).with_labels(&["l1", "l2", "l1"]);
    assert_eq!(more.get("k"), Some("3"));
    assert_eq!(more.iter_labels().len(), 2);
}

#[test]
fn parse_tags_last_value_wins_and_bare_keys_are_labels() {
    let tags = parse_tags(&["env=dev", "critical", "env=prod"]).unwrap();
    assert_eq!(tags.get("env"), Some("prod"));
    assert!(tags.has_label("critical"));
    assert!(!tags.has_label("env"));
    assert!(parse_tags(&["ok=1", "=bad"]).is_err());
}
