use simplenote::{
    accept_note, accept_removal, note_url, Body, Error, Method, Note, Operation, Reply, Simplenote,
};

#[test]
fn note_url_without_and_with_version() {
    assert_eq!(
        note_url("abc", None, "T", "me@x.org"),
        "https://app.simplenote.com/api2/data/abc?auth=T&email=me@x.org"
    );
    assert_eq!(
        note_url("abc", Some(1207), "T", "me@x.org"),
        "https://app.simplenote.com/api2/data/abc/1207?auth=T&email=me@x.org"
    );
    assert_eq!(
        note_url("abc", Some(0), "T", "u"),
        "https://app.simplenote.com/api2/data/abc/0?auth=T&email=u"
    );
}

#[test]
fn get_note_requests() {
    let s = Simplenote::new("u", "p");
    let r = s.get_note("k1", "T");
    assert_eq!(r.method, Method::Get);
    assert_eq!(r.url, "https://app.simplenote.com/api2/data/k1?auth=T&email=u");
    let r = s.get_note_with_version("k1", Some(3), "T");
    assert_eq!(r.url, "https://app.simplenote.com/api2/data/k1/3?auth=T&email=u");
}

#[test]
fn update_without_key_creates_in_collection() {
    let s = Simplenote::new("u", "p");
    let note = Note::from_text("hello world".to_string());
    let r = s.add_note(note.clone(), "T").expect("no clock needed");
    assert_eq!(r.method, Method::Post);
    assert_eq!(r.url, "https://app.simplenote.com/api2/data?auth=T&email=u");
    match r.body {
        Body::Json(sent) => assert_eq!(sent, note),
        other => panic!("unexpected body {:?}", other),
    }
}

#[test]
fn update_with_key_posts_to_note_and_stamps_time() {
    let s = Simplenote::new("u", "p");
    let mut note = Note::from_text("body".to_string());
    note.key = Some("k9".to_string());
    let r = s.update_note(note.clone(), "T").expect("clock readable");
    assert_eq!(r.url, "https://app.simplenote.com/api2/data/k9?auth=T&email=u");
    match r.body {
        Body::Json(sent) => {
            assert!(sent.modifydate.is_some());
            assert_eq!(sent.content, note.content);
            assert_eq!(sent.key, note.key);
        }
        other => panic!("unexpected body {:?}", other),
    }
}

#[test]
fn trash_request_marks_deleted() {
    let s = Simplenote::new("u", "p");
    let mut note = Note::from_text("body".to_string());
    note.key = Some("k9".to_string());
    let r = s.trash_request(note, "T").expect("clock readable");
    assert_eq!(r.method, Method::Post);
    match r.body {
        Body::Json(sent) => assert_eq!(sent.deleted, 1),
        other => panic!("unexpected body {:?}", other),
    }
}

#[test]
fn remove_request_is_delete() {
    let s = Simplenote::new("u", "p");
    let r = s.remove_note("k9", "T");
    assert_eq!(r.method, Method::Delete);
    assert_eq!(r.url, "https://app.simplenote.com/api2/data/k9?auth=T&email=u");
}

#[test]
fn note_replies_are_classified() {
    let n = Note::from_text("x".to_string());
    let op = Operation::FetchNote;
    assert_eq!(accept_note(op, Reply::Received { status: 200, content: Some(n.clone()) }), Ok(n));
    assert_eq!(
        accept_note(op, Reply::Received { status: 404, content: None }),
        Err(Error::NotFound { op })
    );
    assert_eq!(
        accept_note(op, Reply::Received { status: 500, content: None }),
        Err(Error::Network { op })
    );
    assert_eq!(
        accept_note(op, Reply::Received { status: 200, content: None }),
        Err(Error::Decode { op })
    );
    assert_eq!(accept_note(op, Reply::Unreachable), Err(Error::Network { op }));
}

#[test]
fn removal_replies_are_classified() {
    let op = Operation::RemoveNote;
    assert_eq!(accept_removal(Reply::Received { status: 200, content: () }), Ok(()));
    assert_eq!(
        accept_removal(Reply::Received { status: 404, content: () }),
        Err(Error::NotFound { op })
    );
    assert_eq!(accept_removal(Reply::Unreachable), Err(Error::Network { op }));
}
