use simplenote::{Note, Timestamp};

#[test]
fn new_note_is_blank_draft() {
    let n = Note::new();
    assert!(!n.has_key());
    assert_eq!(n.key(), None);
    assert_eq!(n.deleted, 0);
    assert_eq!(n.content, None);
    assert!(n.tags().is_empty());
    assert!(n.systemtags.is_empty());
    assert_eq!(n.version, None);
    assert_eq!(n.modifydate, None);
}

#[test]
fn from_text_sets_content() {
    let n = Note::from_text("hello world".to_string());
    assert_eq!(n.content.as_deref(), Some("hello world"));
    assert!(!n.has_key());
    assert_eq!(n.deleted, 0);
}

#[test]
fn content_replaces_body_only() {
    let mut n = Note::new().add_tag("a");
    n.key = Some("k".to_string());
    let m = n.clone().content("Another body");
    assert_eq!(m.content.as_deref(), Some("Another body"));
    assert_eq!(m.key(), Some(&"k".to_string()));
    assert_eq!(m.tags(), n.tags());
}

#[test]
fn add_tag_twice_same_as_once() {
    let once = Note::new().add_tag("work");
    let twice = Note::new().add_tag("work").add_tag("work");
    assert_eq!(once.tags(), twice.tags());
    assert_eq!(twice.tags(), &["work".to_string()][..]);
}

#[test]
fn add_tag_keeps_insertion_order() {
    let n = Note::new().add_tag("b").add_tag("a").add_tag("b").add_tag("c");
    let expected: Vec<String> = vec!["b".to_string(), "a".to_string(), "c".to_string()];
    assert_eq!(n.tags(), &expected[..]);
}

#[test]
fn delete_marks_trashed() {
    let mut n = Note::from_text("x".to_string());
    assert!(n.delete().is_ok());
    assert_eq!(n.deleted, 1);
    assert_eq!(n.content.as_deref(), Some("x"));
}

#[test]
fn set_modified_at_stamps_whole_seconds() {
    let mut n = Note::new();
    n.set_modified_at(1_500_000_000);
    assert_eq!(n.modifydate, Some(Timestamp { secs: 1_500_000_000, micros: 0 }));
}

#[test]
fn set_modified_reads_clock() {
    let mut n = Note::new();
    assert!(n.set_modified().is_ok());
    let t = n.modifydate.expect("stamped");
    assert!(t.secs > 1_600_000_000);
    assert_eq!(t.micros, 0);
}
