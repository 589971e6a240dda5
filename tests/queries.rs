use firestore_db::database::{collection_path, document_path, Firestore};
use firestore_db::document::Document;
use firestore_db::filter::{FilterOp, FilterTree};
use firestore_db::query::{CollectionSelector, FirestoreQuery, Ordering};
use firestore_db::value::FieldValue;
use firestore_db::wire::{documents_from_response, QueryResponseEntry, WireDocument};
use firestore_db::{collection, init, Access};

fn test_collection() -> Vec<CollectionSelector> {
    vec![CollectionSelector::new("test")]
}

#[test]
fn authentication() {
    let access = Access::from_key(Some("proj".to_string()), ()).unwrap();
    let db = init(&access);
    assert_eq!(db.get_path(), "projects/proj/databases/(default)/documents");
}

#[test]
fn access_collection() {
    let db = init(&Access { project_id: "proj".to_string(), access: () });
    let c = collection(&db, "test");
    assert_eq!(c.get_path(), "projects/proj/databases/(default)/documents/test");
    assert_eq!(c.document_path("Doc1"), "projects/proj/databases/(default)/documents/test/Doc1");
}

#[test]
fn key_without_project() {
    assert!(Access::from_key(None, ()).is_none());
}

#[test]
fn path_composition() {
    assert_eq!(collection_path("db", "c"), "db/c");
    assert_eq!(document_path("db", "c", "doc"), "db/c/doc");
}

#[test]
fn operator_names() {
    assert_eq!(FilterOp::EQUAL(FieldValue::from_i64(1)).to_string(), "EQUAL");
    assert_eq!(FilterOp::LESS_THAN(FieldValue::from_i64(1)).to_string(), "LESS_THAN");
    assert_eq!(FilterOp::LESS_THAN_OR_EQUAL(FieldValue::from_i64(1)).to_string(), "LESS_THAN_OR_EQUAL");
    assert_eq!(FilterOp::GREATER_THAN(FieldValue::from_i64(1)).to_string(), "GREATER_THAN");
    assert_eq!(FilterOp::GREATER_THAN_OR_EQUAL(FieldValue::from_i64(1)).to_string(), "GREATER_THAN_OR_EQUAL");
    assert_eq!(FilterOp::ARRAY_CONTAINS(FieldValue::from_i64(1)).to_string(), "ARRAY_CONTAINS");
    assert_eq!(FilterOp::IS_NULL.to_string(), "IS_NULL");
    assert_eq!(FilterOp::IS_NAN.to_string(), "IS_NAN");
    assert_eq!(Ordering::ASCENDING.to_string(), "ASCENDING");
    assert_eq!(Ordering::DESCENDING.to_string(), "DESCENDING");
}

#[test]
fn leaf_filters() {
    let q = FirestoreQuery::new().filter("integer", FilterOp::GREATER_THAN(FieldValue::from_i64(5)));
    match q.filter {
        FilterTree::Field { path, op, value } => {
            assert_eq!(path, "integer");
            assert_eq!(op, "GREATER_THAN");
            assert_eq!(value, FieldValue::from_i64(5));
        }
        other => panic!("unexpected filter {:?}", other),
    }
    let u = FirestoreQuery::new().filter("test_null", FilterOp::IS_NULL);
    match u.filter {
        FilterTree::Unary { path, op } => {
            assert_eq!(path, "test_null");
            assert_eq!(op, "IS_NULL");
        }
        other => panic!("unexpected filter {:?}", other),
    }
}

#[test]
fn and_or_structure() {
    let f1 = || FirestoreQuery::new().filter("a", FilterOp::EQUAL(FieldValue::from_i64(1)));
    let f2 = || FirestoreQuery::new().filter("b", FilterOp::IS_NAN);
    for (joined, name) in [(f1().and(f2()), "AND"), (f1().or(f2()), "OR")] {
        match joined.filter {
            FilterTree::Composite { op, filters } => {
                assert_eq!(op, name);
                assert_eq!(filters.len(), 2);
                assert!(matches!(&filters[0], FilterTree::Field { path, .. } if path == "a"));
                assert!(matches!(&filters[1], FilterTree::Unary { path, .. } if path == "b"));
            }
            other => panic!("unexpected filter {:?}", other),
        }
    }
}

#[test]
fn limit_and_skip_encoding() {
    let none = FirestoreQuery::new().limit(0).skip(0).compile();
    assert_eq!(none.limit, None);
    assert_eq!(none.offset, None);
    let some = FirestoreQuery::new().limit(5).skip(3).compile();
    assert_eq!(some.limit, Some(5));
    assert_eq!(some.offset, Some(3));
}

#[test]
fn builder_snapshots_branch() {
    let base = FirestoreQuery::new().collections(test_collection()).order_by("integer", Ordering::ASCENDING);
    let q = base.collections(vec![CollectionSelector::new("other")]).limit(2);
    assert_eq!(q.collections.len(), 2);
    assert_eq!(q.collections[1].collection_id, "other");
    assert_eq!(q.orders.len(), 1);
    assert_eq!(q.orders[0].field, "integer");
    assert_eq!(q.orders[0].direction, Ordering::ASCENDING);
    let mut sel = CollectionSelector::new("test");
    sel.set_all_descendants(true);
    assert_eq!(sel.all_descendants, Some(true));
}

#[test]
fn greater_than_query_request() {
    let db = Firestore::new("proj");
    let q = db.query()
        .collections(test_collection())
        .filter("integer", FilterOp::GREATER_THAN(FieldValue::from_i64(5)))
        .order_by("integer", Ordering::DESCENDING);
    let req = db.run_request(q);
    assert_eq!(req.parent, "projects/proj/databases/(default)/documents");
    assert_eq!(req.structured_query.from[0].collection_id, "test");
    assert_eq!(req.structured_query.order_by[0].direction, Ordering::DESCENDING);
    let name = db.get_path() + "/test/" + "GreaterThan";
    let found = Document::builder().name(&name).field("integer", FieldValue::from_i64(6)).build();
    let docs = documents_from_response(vec![
        QueryResponseEntry { document: None },
        QueryResponseEntry { document: Some(found.to_wire()) },
    ]);
    let expected = vec![Document::builder().name(&name).field("integer", FieldValue::from_i64(6)).build()];
    assert_eq!(docs, expected);
    assert_eq!(docs[0].get("integer"), Ok(&FieldValue::from_i64(6)));
}

#[test]
fn create_request_for_document() {
    let db = Firestore::new("proj");
    let c = db.collection("test");
    let doc = Document::builder()
        .name(&c.document_path("Doc1"))
        .field("n", FieldValue::from_i64(42))
        .field("s", FieldValue::from_str("hi"))
        .build();
    let req = c.create_request(doc);
    assert_eq!(req.parent, "projects/proj/databases/(default)/documents");
    assert_eq!(req.collection_id, "test");
    assert_eq!(req.document_id, "Doc1");
    assert!(req.document.name.is_none());
    assert_eq!(req.document.fields.as_ref().map(|f| f.len()), Some(2));
    assert_eq!(c.list_request().collection_id, "test");
    // what the store hands back for the created document reads as the same document
    let stored = WireDocument {
        name: Some(c.document_path(&req.document_id)),
        fields: req.document.fields,
        create_time: Some("2020-01-01T00:00:00Z".to_string()),
        update_time: Some("2020-01-01T00:00:00Z".to_string()),
    };
    let expected = Document::builder()
        .name(&c.document_path("Doc1"))
        .field("s", FieldValue::from_str("hi"))
        .field("n", FieldValue::from_i64(42))
        .build();
    assert_eq!(Document::from_wire(stored), expected);
}
