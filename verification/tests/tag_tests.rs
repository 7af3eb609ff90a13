use project_tracker::factories::tag_factory::{sample_tag, sample_tags_list};
use project_tracker::HasId;

#[test]
fn create_tag() {
    let tag = sample_tag();
    assert_eq!(tag.name(), "SampleTag");
}

#[test]
fn tag_tests_create_tag_id() {
    let tag = sample_tag();
    let tag_id = tag.id().to_string();
    assert!(tag_id.starts_with("tag-"));
}

#[test]
fn rename_tag() {
    let mut tag = sample_tag();
    let new_name = "NewTagName";
    tag.rename(new_name);
    assert_eq!(tag.name(), new_name);
}

#[test]
fn set_description() {
    let mut tag = sample_tag();
    tag.set_description("Sample Description");
    assert!(tag.has_description());
    assert_eq!(tag.description(), "Sample Description");
}

#[test]
fn clear_description() {
    let mut tag = sample_tag();
    tag.clear_description();
    assert!(!tag.has_description());
    assert_eq!(tag.description(), "");
}

#[test]
fn add_parent() {
    let mut tag = sample_tag();
    let parent = sample_tag();
    assert!(!tag.has_parents());
    tag.add_parent(parent.id());
    assert!(tag.has_parents());
    assert!(tag.parents().contains(&parent.id()));
}

#[test]
fn add_parents() {
    let mut tag = sample_tag();
    let parents = sample_tags_list();
    assert!(!tag.has_parents());
    tag.add_parents(parents);
    assert!(tag.has_parents());
    assert_eq!(tag.parents().len(), 3);
}

#[test]
fn remove_parent() {
    let mut tag = sample_tag();
    let parent = sample_tag();
    assert!(!tag.has_parents());
    tag.add_parent(parent.id());
    assert!(tag.has_parents());
    assert!(tag.parents().contains(&parent.id()));
    tag.remove_parent(parent.id());
    assert!(!tag.has_parents());
}

#[test]
fn remove_parents() {
    let mut tag = sample_tag();
    let parents = sample_tags_list();
    assert!(!tag.has_parents());
    tag.add_parents(parents.clone());
    assert!(tag.has_parents());
    assert_eq!(tag.parents().len(), 3);
    tag.remove_parents(parents);
    assert!(!tag.has_parents());
}

#[test]
fn remove_all_parents() {
    let mut tag = sample_tag();
    let parents = sample_tags_list();
    assert!(!tag.has_parents());
    tag.add_parents(parents.clone());
    assert!(tag.has_parents());
    assert_eq!(tag.parents().len(), 3);
    tag.remove_all_parents();
    assert!(!tag.has_parents());
}

#[test]
fn tag_rejects_itself_as_parent() {
    let mut tag = sample_tag();
    let own = tag.id();
    assert!(!tag.is_valid_parent(&own));
    tag.add_parent(own);
    assert!(!tag.has_parents());
}

#[test]
fn tag_name_with_whitespace_is_invalid() {
    let mut tag = sample_tag();
    tag.rename("has space");
    assert_eq!(tag.name(), "SampleTag");
}

#[test]
fn tag_name_with_unicode_whitespace_is_invalid() {
    let mut tag = sample_tag();
    tag.rename("non\u{a0}breaking");
    assert_eq!(tag.name(), "SampleTag");
    tag.rename("em\u{2003}space");
    assert_eq!(tag.name(), "SampleTag");
    tag.rename("vertical\u{b}tab");
    assert_eq!(tag.name(), "SampleTag");
}
