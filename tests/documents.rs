use firestore_db::document::Document;
use firestore_db::value::FieldValue;
use firestore_db::wire::{QueryResponseEntry, WireDocument, documents_from_list, documents_from_response};

fn sample() -> Document {
    Document::builder()
        .name("projects/p/databases/(default)/documents/test/Doc1")
        .field("n", FieldValue::from_i64(42))
        .field("s", FieldValue::from_str("hi"))
        .build()
}

#[test]
fn last_write_wins() {
    let d = Document::builder()
        .name("c/d")
        .field("k", FieldValue::from_i64(1))
        .field("k", FieldValue::from_i64(2))
        .build();
    assert_eq!(d.get("k"), Ok(&FieldValue::from_i64(2)));
    assert_eq!(d.fields().len(), 1);
}

#[test]
fn missing_field() {
    let d = sample();
    assert_eq!(
        d.get("zz"),
        Err("Document projects/p/databases/(default)/documents/test/Doc1 does not have field \"zz\"".to_string())
    );
}

#[test]
fn name_and_id() {
    let d = sample();
    assert_eq!(d.name(), "Doc1");
    assert_eq!(d.id(), "projects/p/databases/(default)/documents/test/Doc1");
    let plain = Document::builder().name("plain").build();
    assert_eq!(plain.name(), "plain");
    let trailing = Document::builder().name("a/").build();
    assert_eq!(trailing.name(), "");
}

#[test]
fn equality_ignores_times_and_order() {
    let a = Document::builder().name("c/d")
        .field("x", FieldValue::from_bool(true))
        .field("y", FieldValue::from_i64(3))
        .build();
    let b = Document::from_parts(
        "c/d".to_string(),
        vec![("y".to_string(), FieldValue::from_i64(3)), ("x".to_string(), FieldValue::from_bool(true))],
        Some("2020-01-01T00:00:00Z".to_string()),
        None,
    );
    assert_eq!(a, b);
    assert_eq!(b.create_time(), Some("2020-01-01T00:00:00Z".to_string()));
    assert_eq!(a.create_time(), None);
    let c = Document::builder().name("c/d").field("x", FieldValue::from_bool(false)).build();
    assert_ne!(a, c);
}

#[test]
fn wire_round_trip() {
    let d = sample();
    let expected = sample();
    let w = d.to_wire();
    assert_eq!(w.name.as_deref(), Some("projects/p/databases/(default)/documents/test/Doc1"));
    assert_eq!(w.fields.as_ref().map(|f| f.len()), Some(2));
    assert_eq!(Document::from_wire(w), expected);
}

#[test]
fn absent_wire_parts() {
    let d = Document::from_wire(WireDocument { name: None, fields: None, create_time: None, update_time: None });
    assert_eq!(d.id(), "");
    assert_eq!(d.fields().len(), 0);
    assert_eq!(d.update_time(), None);
}

#[test]
fn response_skips_entries_without_document() {
    let entries = vec![
        QueryResponseEntry { document: None },
        QueryResponseEntry { document: Some(sample().to_wire()) },
        QueryResponseEntry { document: None },
    ];
    let docs = documents_from_response(entries);
    assert_eq!(docs, vec![sample()]);
}

#[test]
fn listing() {
    assert_eq!(documents_from_list(None).len(), 0);
    let docs = documents_from_list(Some(vec![sample().to_wire()]));
    assert_eq!(docs, vec![sample()]);
}
