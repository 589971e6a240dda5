//! Documents in the shape the store's wire schema gives them: every part
//! optional. Values keep their tagged form; the transport layer maps each
//! variant to the schema's field of the same name.
use vstd::prelude::*;
use crate::value::{FieldValue, ValueModel};
use crate::document::{Document, DocumentModel, entries_map, fold_entries, keys_unique, opt_text, lemma_fold_unique};

verus! {

/// A document as the store sends and receives it.
#[derive(Debug)]
pub struct WireDocument {
    pub name: Option<String>,
    pub fields: Option<Vec<(String, FieldValue)>>,
    pub create_time: Option<String>,
    pub update_time: Option<String>,
}

/// One entry of a query's response stream; entries that only report a read
/// time carry no document.
#[derive(Debug)]
pub struct QueryResponseEntry {
    pub document: Option<WireDocument>,
}

/// What decoding a wire document gives: an absent name is the empty path,
/// absent fields are no fields, and a later entry replaces an earlier one of
/// the same name.
pub open spec fn decoded(w: WireDocument) -> DocumentModel {
    DocumentModel {
        id: match w.name {
            Some(n) => n@,
            None => Seq::empty(),
        },
        fields: match w.fields {
            Some(e) => fold_entries(e@),
            None => Map::empty(),
        },
        create_time: opt_text(w.create_time),
        update_time: opt_text(w.update_time),
    }
}

/// `w` is a full encoding of a document with model `m`: name and fields
/// present, one entry per field.
pub open spec fn encodes(w: WireDocument, m: DocumentModel) -> bool {
    &&& w.name is Some
    &&& w.name->0@ == m.id
    &&& w.fields is Some
    &&& keys_unique(w.fields->0@)
    &&& entries_map(w.fields->0@) == m.fields
    &&& opt_text(w.create_time) == m.create_time
    &&& opt_text(w.update_time) == m.update_time
}

impl Document {
    /// Decodes a document the store sent.
    pub fn from_wire(w: WireDocument) -> (r: Document)
        ensures
            r@ == decoded(w),
    {
        let WireDocument { name, fields, create_time, update_time } = w;
        let id = match name {
            Some(n) => n,
            None => String::new(),
        };
        let entries = match fields {
            Some(e) => e,
            None => Vec::new(),
        };
        proof {
            assert(fold_entries(Seq::<(String, FieldValue)>::empty()) == Map::<Seq<char>, ValueModel>::empty());
        }
        Document::from_parts(id, entries, create_time, update_time)
    }

    /// Encodes the document for the store, with its name and all its fields.
    pub fn to_wire(self) -> (r: WireDocument)
        ensures
            encodes(r, self@),
    {
        let (id, fields, create_time, update_time) = self.into_parts();
        WireDocument { name: Some(id), fields: Some(fields), create_time, update_time }
    }
}

/// Decoding the encoding of a document gives back its path, its fields and
/// its times.
pub proof fn lemma_wire_round_trip(m: DocumentModel, w: WireDocument)
    requires
        encodes(w, m),
    ensures
        decoded(w) == m,
{
    lemma_fold_unique(w.fields->0@);
}

/// The documents of a query's response, in order, leaving out the entries
/// without one.
pub open spec fn response_documents(entries: Seq<QueryResponseEntry>) -> Seq<DocumentModel>
    decreases entries.len(),
{
    if entries.len() == 0 {
        Seq::empty()
    } else {
        let rest = response_documents(entries.drop_last());
        match entries.last().document {
            Some(w) => rest.push(decoded(w)),
            None => rest,
        }
    }
}

pub open spec fn models(docs: Seq<Document>) -> Seq<DocumentModel> {
    docs.map_values(|d: Document| d@)
}

/// Decodes the documents of a query's response.
pub fn documents_from_response(entries: Vec<QueryResponseEntry>) -> (r: Vec<Document>)
    ensures
        models(r@) == response_documents(entries@),
{
    let mut out: Vec<Document> = Vec::new();
    let mut rest = entries;
    let ghost all = rest@;
    proof {
        assert(all.take(0) =~= Seq::<QueryResponseEntry>::empty());
        assert(all.skip(0) =~= all);
        assert(models(out@) =~= Seq::empty());
    }
    while rest.len() > 0
        invariant
            rest.len() <= all.len(),
            rest@ == all.skip(all.len() - rest.len()),
            models(out@) == response_documents(all.take(all.len() - rest.len())),
        decreases rest.len(),
    {
        let ghost c = all.len() - rest.len();
        let entry = rest.remove(0);
        proof {
            assert(all[c] == entry);
            assert(all.take(c + 1).drop_last() =~= all.take(c));
            assert(rest@ =~= all.skip(c + 1));
        }
        match entry.document {
            Some(w) => {
                let d = Document::from_wire(w);
                out.push(d);
                proof {
                    assert(models(out@) =~= response_documents(all.take(c)).push(d@));
                }
            },
            None => {},
        }
    }
    proof {
        assert(all.take(all.len() as int) =~= all);
    }
    out
}

/// Decodes the documents of a listing; an absent list is no documents.
pub fn documents_from_list(docs: Option<Vec<WireDocument>>) -> (r: Vec<Document>)
    ensures
        docs is None ==> r@.len() == 0,
        docs is Some ==> models(r@) == docs->0@.map_values(|w: WireDocument| decoded(w)),
{
    let mut out: Vec<Document> = Vec::new();
    match docs {
        None => out,
        Some(list) => {
            let mut rest = list;
            let ghost all = rest@;
            proof {
                assert(all.skip(0) =~= all);
                assert(models(out@) =~= all.take(0).map_values(|w: WireDocument| decoded(w)));
            }
            while rest.len() > 0
                invariant
                    rest.len() <= all.len(),
                    rest@ == all.skip(all.len() - rest.len()),
                    models(out@) == all.take(all.len() - rest.len()).map_values(|w: WireDocument| decoded(w)),
                decreases rest.len(),
            {
                let ghost c = all.len() - rest.len();
                let w = rest.remove(0);
                proof {
                    assert(all[c] == w);
                    assert(rest@ =~= all.skip(c + 1));
                }
                let d = Document::from_wire(w);
                let ghost before = out@;
                out.push(d);
                proof {
                    assert(models(out@) =~= models(before).push(d@));
                    assert(all.take(c + 1) =~= all.take(c).push(all[c]));
                    assert(all.take(c + 1).map_values(|w: WireDocument| decoded(w))
                        =~= all.take(c).map_values(|w: WireDocument| decoded(w)).push(decoded(all[c])));
                }
            }
            proof {
                assert(all.take(all.len() as int) =~= all);
            }
            out
        },
    }
}

} // verus!
