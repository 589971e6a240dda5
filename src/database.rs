//! The database: path composition, collections bound to it, and the requests
//! it sends to the store for each operation.
use vstd::prelude::*;
use crate::document::{Document, last_segment};
use crate::wire::WireDocument;
use crate::query::{FirestoreQuery, StructuredQuery};

verus! {

pub open spec fn collection_path_of(database_path: Seq<char>, collection_id: Seq<char>) -> Seq<char> {
    database_path + "/"@ + collection_id
}

pub open spec fn document_path_of(
    database_path: Seq<char>,
    collection_id: Seq<char>,
    document_id: Seq<char>,
) -> Seq<char> {
    collection_path_of(database_path, collection_id) + "/"@ + document_id
}

/// The root path of a project's default database.
pub open spec fn database_path_of(project_id: Seq<char>) -> Seq<char> {
    "projects/"@ + project_id + "/databases/(default)/documents"@
}

/// The path of a collection: the database path, `/`, the collection id.
pub fn collection_path(database_path: &str, collection_id: &str) -> (r: String)
    ensures
        r@ == collection_path_of(database_path@, collection_id@),
{
    let mut p = database_path.to_string();
    p.append("/");
    p.append(collection_id);
    p
}

/// The path of a document: the collection path, `/`, the document id.
pub fn document_path(database_path: &str, collection_id: &str, document_id: &str) -> (r: String)
    ensures
        r@ == document_path_of(database_path@, collection_id@, document_id@),
{
    let mut p = collection_path(database_path, collection_id);
    p.append("/");
    p.append(document_id);
    p
}

/// A document path is its collection's path, `/`, and the document id.
pub proof fn lemma_document_path(db: Seq<char>, collection_id: Seq<char>, document_id: Seq<char>)
    ensures
        document_path_of(db, collection_id, document_id)
            == db + "/"@ + collection_id + "/"@ + document_id,
        document_path_of(db, collection_id, document_id).subrange(
            0,
            collection_path_of(db, collection_id).len() as int,
        ) == collection_path_of(db, collection_id),
{
    let c = collection_path_of(db, collection_id);
    let d = document_path_of(db, collection_id, document_id);
    assert(d.subrange(0, c.len() as int) =~= c);
}

/// The request that creates a document: where, under which id, and what.
#[derive(Debug)]
pub struct CreateDocumentRequest {
    pub parent: String,
    pub collection_id: String,
    pub document_id: String,
    pub document: WireDocument,
}

/// The request that lists the documents of a collection.
#[derive(Debug)]
pub struct ListDocumentsRequest {
    pub parent: String,
    pub collection_id: String,
}

/// The request that runs a structured query from the database root.
#[derive(Debug)]
pub struct RunQueryRequest {
    pub parent: String,
    pub structured_query: StructuredQuery,
}

/// A database of the store, identified by its project.
#[derive(Debug)]
pub struct Firestore {
    pub project_id: String,
}

impl Firestore {
    pub fn new(project_id: &str) -> (r: Firestore)
        ensures
            r.project_id@ == project_id@,
    {
        Firestore { project_id: project_id.to_string() }
    }

    /// The root path of the database's documents.
    pub fn get_path(&self) -> (r: String)
        ensures
            r@ == database_path_of(self.project_id@),
    {
        let mut p = String::from_str("projects/");
        p.append(self.project_id.as_str());
        p.append("/databases/(default)/documents");
        p
    }

    pub fn collection_path(&self, collection_id: &str) -> (r: String)
        ensures
            r@ == collection_path_of(database_path_of(self.project_id@), collection_id@),
    {
        let root = self.get_path();
        collection_path(root.as_str(), collection_id)
    }

    pub fn document_path(&self, collection_id: &str, document_id: &str) -> (r: String)
        ensures
            r@ == document_path_of(database_path_of(self.project_id@), collection_id@, document_id@),
    {
        let root = self.get_path();
        document_path(root.as_str(), collection_id, document_id)
    }

    /// The collection `collection_id` of this database.
    pub fn collection<'a>(&'a self, collection_id: &str) -> (r: FirestoreCollection<'a>)
        ensures
            r.firestore == self,
            r.collection_id@ == collection_id@,
    {
        FirestoreCollection { firestore: self, collection_id: collection_id.to_string() }
    }

    /// A new, empty query.
    pub fn query(&self) -> (r: FirestoreQuery)
        ensures
            r.collections@.len() == 0,
            r.filter is Unset,
            r.orders@.len() == 0,
            r.limit == 0,
            r.skip == 0,
    {
        FirestoreQuery::new()
    }

    /// Creating `document` in `collection_id`: the document goes under the
    /// last segment of its path, and its name is left for the store to set.
    pub fn create_request(&self, collection_id: &str, document: Document) -> (r: CreateDocumentRequest)
        ensures
            r.parent@ == database_path_of(self.project_id@),
            r.collection_id@ == collection_id@,
            r.document_id@ == last_segment(document@.id),
            r.document.name is None,
            r.document.fields is Some,
            crate::document::keys_unique(r.document.fields->0@),
            crate::document::entries_map(r.document.fields->0@) == document@.fields,
            crate::document::opt_text(r.document.create_time) == document@.create_time,
            crate::document::opt_text(r.document.update_time) == document@.update_time,
    {
        let document_id = document.name().to_string();
        let w = document.to_wire();
        let WireDocument { name: _, fields, create_time, update_time } = w;
        CreateDocumentRequest {
            parent: self.get_path(),
            collection_id: collection_id.to_string(),
            document_id,
            document: WireDocument { name: None, fields, create_time, update_time },
        }
    }

    /// Listing the documents directly in `collection_id`.
    pub fn list_request(&self, collection_id: &str) -> (r: ListDocumentsRequest)
        ensures
            r.parent@ == database_path_of(self.project_id@),
            r.collection_id@ == collection_id@,
    {
        ListDocumentsRequest { parent: self.get_path(), collection_id: collection_id.to_string() }
    }

    /// Running `query` from the database root.
    pub fn run_request(&self, query: FirestoreQuery) -> (r: RunQueryRequest)
        ensures
            r.parent@ == database_path_of(self.project_id@),
            r.structured_query.from == query.collections,
            r.structured_query.where_ == query.filter,
            r.structured_query.order_by == query.orders,
            r.structured_query.limit == crate::query::unset_if_zero(query.limit),
            r.structured_query.offset == crate::query::unset_if_zero(query.skip),
    {
        RunQueryRequest { parent: self.get_path(), structured_query: query.compile() }
    }
}

/// A collection of a database; it borrows the database and delegates to it
/// with its own id filled in.
#[derive(Debug)]
pub struct FirestoreCollection<'a> {
    pub firestore: &'a Firestore,
    pub collection_id: String,
}

impl<'a> FirestoreCollection<'a> {
    pub fn new(firestore: &'a Firestore, collection_id: &str) -> (r: FirestoreCollection<'a>)
        ensures
            r.firestore == firestore,
            r.collection_id@ == collection_id@,
    {
        firestore.collection(collection_id)
    }

    pub fn get_path(&self) -> (r: String)
        ensures
            r@ == collection_path_of(database_path_of(self.firestore.project_id@), self.collection_id@),
    {
        self.firestore.collection_path(self.collection_id.as_str())
    }

    pub fn document_path(&self, document_id: &str) -> (r: String)
        ensures
            r@ == document_path_of(
                database_path_of(self.firestore.project_id@),
                self.collection_id@,
                document_id@,
            ),
    {
        self.firestore.document_path(self.collection_id.as_str(), document_id)
    }

    pub fn create_request(&self, document: Document) -> (r: CreateDocumentRequest)
        ensures
            r.parent@ == database_path_of(self.firestore.project_id@),
            r.collection_id@ == self.collection_id@,
            r.document_id@ == last_segment(document@.id),
            r.document.name is None,
            r.document.fields is Some,
            crate::document::keys_unique(r.document.fields->0@),
            crate::document::entries_map(r.document.fields->0@) == document@.fields,
            crate::document::opt_text(r.document.create_time) == document@.create_time,
            crate::document::opt_text(r.document.update_time) == document@.update_time,
    {
        self.firestore.create_request(self.collection_id.as_str(), document)
    }

    pub fn list_request(&self) -> (r: ListDocumentsRequest)
        ensures
            r.parent@ == database_path_of(self.firestore.project_id@),
            r.collection_id@ == self.collection_id@,
    {
        self.firestore.list_request(self.collection_id.as_str())
    }
}

} // verus!
