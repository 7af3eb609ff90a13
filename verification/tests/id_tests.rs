use project_tracker::id::{Id, ParseIdError};
use project_tracker::{PersonKind, ProjectKind, TagKind, TaskKind};

#[test]
fn id_round_trips_through_its_string_form() {
    let person_id = Id::<PersonKind>::new();
    assert_eq!(Id::<PersonKind>::parse(&person_id.to_string()), Ok(person_id));
    let tag_id = Id::<TagKind>::new();
    assert_eq!(Id::<TagKind>::parse(&tag_id.to_string()), Ok(tag_id));
    let project_id = Id::<ProjectKind>::new();
    assert_eq!(Id::<ProjectKind>::parse(&project_id.to_string()), Ok(project_id));
    let task_id = Id::<TaskKind>::new();
    assert_eq!(Id::<TaskKind>::parse(&task_id.to_string()), Ok(task_id));
}

#[test]
fn id_string_form_has_the_kind_prefix() {
    let id = Id::<ProjectKind>::new();
    let s = id.to_string();
    assert!(s.starts_with("project-"));
    assert_eq!(s.len(), "project-".len() + 26);
}

#[test]
fn parsing_under_the_wrong_kind_fails_with_wrong_prefix() {
    let project_id = Id::<ProjectKind>::new();
    let s = project_id.to_string();
    assert_eq!(Id::<TaskKind>::parse(&s), Err(ParseIdError::WrongPrefix));
    assert_eq!(Id::<PersonKind>::parse(&s), Err(ParseIdError::WrongPrefix));
    assert_eq!(Id::<TagKind>::parse(&s), Err(ParseIdError::WrongPrefix));

    let task_id = Id::<TaskKind>::new();
    assert_eq!(Id::<ProjectKind>::parse(&task_id.to_string()), Err(ParseIdError::WrongPrefix));
}

#[test]
fn parsing_without_a_separator_fails_with_invalid_format() {
    assert_eq!(Id::<ProjectKind>::parse("project"), Err(ParseIdError::InvalidFormat));
    assert_eq!(Id::<ProjectKind>::parse(""), Err(ParseIdError::InvalidFormat));
}

#[test]
fn parsing_a_bad_token_fails_with_invalid_ulid() {
    assert_eq!(Id::<ProjectKind>::parse("project-nottoken"), Err(ParseIdError::InvalidUlid));
    assert_eq!(
        Id::<ProjectKind>::parse("project-!!!!!!!!!!!!!!!!!!!!!!!!!!"),
        Err(ParseIdError::InvalidUlid)
    );
}

#[test]
fn parsing_a_known_token_gives_its_value_back() {
    // The canonical encoding of token 0 is 26 zeros.
    let id = Id::<TagKind>::parse("tag-00000000000000000000000000").unwrap();
    assert_eq!(id.token, 0u128);
    let rendered = id.to_string();
    assert_eq!(rendered, "tag-00000000000000000000000000");
}

#[test]
fn fresh_ids_differ() {
    let a = Id::<ProjectKind>::new();
    let b = Id::<ProjectKind>::new();
    assert_ne!(a, b);
}
