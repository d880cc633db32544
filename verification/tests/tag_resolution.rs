use rustdoc_gen::tags::candidate_tags;
use rustdoc_gen::tags::resolve_tag;
use rustdoc_gen::tags::tags_contain;

fn strings(xs: &[&str]) -> Vec<String> {
    xs.iter().map(|s| s.to_string()).collect()
}

#[test]
fn candidates_are_in_fixed_priority_order() {
    let cands = candidate_tags("foo", "1.2.3");
    assert_eq!(cands, strings(&["1.2.3", "v1.2.3", "foo-1.2.3", "foo-v1.2.3"]));
}

#[test]
fn resolves_v_prefixed_tag() {
    let tags = strings(&["v2.0.0"]);
    let r = resolve_tag(&tags, "foo", "2.0.0");
    assert_eq!(r, Some("v2.0.0".to_string()));
}

#[test]
fn bare_version_has_priority_over_v_prefix() {
    let tags = strings(&["v2.0.0", "2.0.0", "foo-2.0.0", "foo-v2.0.0"]);
    let r = resolve_tag(&tags, "foo", "2.0.0");
    assert_eq!(r, Some("2.0.0".to_string()));
}

#[test]
fn name_version_tag_is_third_choice() {
    let tags = strings(&["foo-1.2.3", "foo-v1.2.3"]);
    let r = resolve_tag(&tags, "foo", "1.2.3");
    assert_eq!(r, Some("foo-1.2.3".to_string()));
}

#[test]
fn name_v_version_tag_is_last_choice() {
    let tags = strings(&["foo-v1.2.3", "unrelated"]);
    let r = resolve_tag(&tags, "foo", "1.2.3");
    assert_eq!(r, Some("foo-v1.2.3".to_string()));
}

#[test]
fn superstring_tag_is_not_matched() {
    let tags = strings(&["1.2.30"]);
    let r = resolve_tag(&tags, "foo", "1.2.3");
    assert_eq!(r, None);
}

#[test]
fn tag_containing_candidate_as_substring_is_not_matched() {
    let tags = strings(&["xv1.0.0", "v1.0.0-rc1"]);
    let r = resolve_tag(&tags, "foo", "1.0.0");
    assert_eq!(r, None);
}

#[test]
fn no_candidate_matches_empty_listing() {
    let tags: Vec<String> = Vec::new();
    let r = resolve_tag(&tags, "foo", "1.0.0");
    assert_eq!(r, None);
}

#[test]
fn listing_membership_is_whole_name_equality() {
    let tags = strings(&["alpha", "beta"]);
    assert!(tags_contain(&tags, &"alpha".to_string()));
    assert!(tags_contain(&tags, &"beta".to_string()));
    assert!(!tags_contain(&tags, &"alph".to_string()));
    assert!(!tags_contain(&tags, &"alphaa".to_string()));
}
