//! Typed documents, field values and structured queries for a
//! collection-oriented document store.
use vstd::prelude::*;

pub mod decimal;
pub mod value;
pub mod document;
pub mod wire;
pub mod filter;
pub mod query;
pub mod database;

use crate::database::{Firestore, FirestoreCollection};

verus! {

/// What lets a database handle talk to the store: the project it belongs to
/// and an already authorised credential handle.
pub struct Access<A> {
    pub project_id: String,
    pub access: A,
}

impl<A> Access<A> {
    /// Pairs a credential handle with the project named by its key; a key
    /// without a project gives nothing.
    pub fn from_key(project_id: Option<String>, access: A) -> (r: Option<Access<A>>)
        ensures
            r is Some <==> project_id is Some,
            r is Some ==> r->0.project_id == project_id->0 && r->0.access == access,
    {
        match project_id {
            Some(p) => Some(Access { project_id: p, access }),
            None => None,
        }
    }
}

/// The database handle for the project of `access`, made once at start and
/// passed to whatever needs it.
pub fn init<A>(access: &Access<A>) -> (db: Firestore)
    ensures
        db.project_id@ == access.project_id@,
{
    Firestore::new(access.project_id.as_str())
}

/// The collection `id` of `db`.
pub fn collection<'a>(db: &'a Firestore, id: &str) -> (r: FirestoreCollection<'a>)
    ensures
        r.firestore == db,
        r.collection_id@ == id@,
{
    db.collection(id)
}

} // verus!
