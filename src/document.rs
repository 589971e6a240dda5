//! Documents: an identifier path and a mapping from field names to values.
use vstd::prelude::*;
use vstd::string::StrSliceExecFns;
use crate::value::{FieldValue, ValueModel};

verus! {

broadcast use vstd::std_specs::vec::group_vec_axioms;

/// No two entries share a key.
pub open spec fn keys_unique(e: Seq<(String, FieldValue)>) -> bool {
    forall|i: int, j: int| 0 <= i < j < e.len() ==> #[trigger] e[i].0@ != #[trigger] e[j].0@
}

pub open spec fn has_key(e: Seq<(String, FieldValue)>, k: Seq<char>) -> bool {
    exists|i: int| 0 <= i < e.len() && #[trigger] e[i].0@ == k
}

/// The mapping that a list of entries with distinct keys denotes.
pub open spec fn entries_map(e: Seq<(String, FieldValue)>) -> Map<Seq<char>, ValueModel> {
    Map::new(
        |k: Seq<char>| has_key(e, k),
        |k: Seq<char>| e[choose|i: int| 0 <= i < e.len() && #[trigger] e[i].0@ == k].1.model(),
    )
}

/// The mapping a list of entries denotes when a later entry replaces an
/// earlier one of the same key.
pub open spec fn fold_entries(e: Seq<(String, FieldValue)>) -> Map<Seq<char>, ValueModel>
    decreases e.len(),
{
    if e.len() == 0 {
        Map::empty()
    } else {
        fold_entries(e.drop_last()).insert(e.last().0@, e.last().1.model())
    }
}

/// The part of a path after its last `/`; the whole path when it has none.
pub open spec fn last_segment(s: Seq<char>) -> Seq<char>
    decreases s.len(),
{
    if s.len() == 0 {
        s
    } else if s.last() == '/' {
        Seq::empty()
    } else {
        last_segment(s.drop_last()).push(s.last())
    }
}

pub proof fn lemma_entries_map_index(e: Seq<(String, FieldValue)>, j: int)
    requires
        keys_unique(e),
        0 <= j < e.len(),
    ensures
        entries_map(e).contains_key(e[j].0@),
        entries_map(e)[e[j].0@] == e[j].1.model(),
{
    let k = e[j].0@;
    assert(has_key(e, k));
    let i = choose|i: int| 0 <= i < e.len() && #[trigger] e[i].0@ == k;
    assert(i == j);
}

proof fn lemma_entries_map_push(e: Seq<(String, FieldValue)>, entry: (String, FieldValue))
    requires
        keys_unique(e),
        !has_key(e, entry.0@),
    ensures
        keys_unique(e.push(entry)),
        entries_map(e.push(entry)) == entries_map(e).insert(entry.0@, entry.1.model()),
{
    let n = e.push(entry);
    assert forall|i: int, j: int| 0 <= i < j < n.len() implies #[trigger] n[i].0@ != #[trigger] n[j].0@ by {
        if j == e.len() {
            if n[i].0@ == entry.0@ {
                assert(e[i].0@ == entry.0@);
            }
        } else {
            assert(n[i] == e[i] && n[j] == e[j]);
        }
    }
    let m = entries_map(e).insert(entry.0@, entry.1.model());
    assert forall|k: Seq<char>| #[trigger] has_key(n, k) == m.contains_key(k) by {
        if has_key(n, k) {
            let i = choose|i: int| 0 <= i < n.len() && #[trigger] n[i].0@ == k;
            if i < e.len() {
                assert(e[i].0@ == k);
            }
        }
        if has_key(e, k) {
            let i = choose|i: int| 0 <= i < e.len() && #[trigger] e[i].0@ == k;
            assert(n[i].0@ == k);
        }
        if k == entry.0@ {
            assert(n[e.len() as int].0@ == k);
        }
    }
    assert forall|k: Seq<char>| #[trigger] m.contains_key(k) implies entries_map(n)[k] == m[k] by {
        if k == entry.0@ {
            lemma_entries_map_index(n, e.len() as int);
        } else {
            let i = choose|i: int| 0 <= i < e.len() && #[trigger] e[i].0@ == k;
            lemma_entries_map_index(e, i);
            assert(n[i] == e[i]);
            lemma_entries_map_index(n, i);
        }
    }
    assert(entries_map(n) =~= m);
}

proof fn lemma_entries_map_update(e: Seq<(String, FieldValue)>, j: int, entry: (String, FieldValue))
    requires
        keys_unique(e),
        0 <= j < e.len(),
        e[j].0@ == entry.0@,
    ensures
        keys_unique(e.update(j, entry)),
        entries_map(e.update(j, entry)) == entries_map(e).insert(entry.0@, entry.1.model()),
{
    let n = e.update(j, entry);
    assert forall|a: int, b: int| 0 <= a < b < n.len() implies #[trigger] n[a].0@ != #[trigger] n[b].0@ by {
        assert(n[a].0@ == e[a].0@ && n[b].0@ == e[b].0@);
    }
    let m = entries_map(e).insert(entry.0@, entry.1.model());
    assert forall|k: Seq<char>| #[trigger] has_key(n, k) == m.contains_key(k) by {
        if has_key(n, k) {
            let i = choose|i: int| 0 <= i < n.len() && #[trigger] n[i].0@ == k;
            assert(e[i].0@ == k);
        }
        if has_key(e, k) {
            let i = choose|i: int| 0 <= i < e.len() && #[trigger] e[i].0@ == k;
            assert(n[i].0@ == k);
        }
        if k == entry.0@ {
            assert(n[j].0@ == k);
        }
    }
    assert forall|k: Seq<char>| #[trigger] m.contains_key(k) implies entries_map(n)[k] == m[k] by {
        if k == entry.0@ {
            lemma_entries_map_index(n, j);
        } else {
            let i = choose|i: int| 0 <= i < e.len() && #[trigger] e[i].0@ == k;
            lemma_entries_map_index(e, i);
            assert(n[i] == e[i]);
            lemma_entries_map_index(n, i);
        }
    }
    assert(entries_map(n) =~= m);
}

/// Finds the entry with the given key.
pub fn find_entry(entries: &Vec<(String, FieldValue)>, key: &String) -> (r: Option<usize>)
    requires
        keys_unique(entries@),
    ensures
        r is Some ==> r->0 < entries.len() && entries@[r->0 as int].0@ == key@,
        r is None <==> !has_key(entries@, key@),
{
    let mut i: usize = 0;
    while i < entries.len()
        invariant
            0 <= i <= entries.len(),
            forall|j: int| 0 <= j < i ==> entries@[j].0@ != key@,
        decreases entries.len() - i,
    {
        if entries[i].0 == *key {
            return Some(i);
        }
        i += 1;
    }
    None
}

/// Inserts an entry into a list with distinct keys: an entry with the same
/// key is replaced, otherwise the entry is appended.
pub fn insert_entry(entries: &mut Vec<(String, FieldValue)>, key: String, value: FieldValue)
    requires
        keys_unique(old(entries)@),
    ensures
        keys_unique(final(entries)@),
        entries_map(final(entries)@) == entries_map(old(entries)@).insert(key@, value.model()),
{
    match find_entry(entries, &key) {
        Some(i) => {
            proof {
                lemma_entries_map_update(entries@, i as int, (key, value));
            }
            entries.set(i, (key, value));
        },
        None => {
            proof {
                lemma_entries_map_push(entries@, (key, value));
            }
            entries.push((key, value));
        },
    }
}


proof fn lemma_last_segment(s: Seq<char>, i: int)
    requires
        0 <= i <= s.len(),
        i == 0 || s[i - 1] == '/',
        forall|j: int| i <= j < s.len() ==> s[j] != '/',
    ensures
        last_segment(s) == s.subrange(i, s.len() as int),
    decreases s.len(),
{
    if s.len() == i {
        if i > 0 {
            assert(s.last() == '/');
        }
        assert(s.subrange(i, s.len() as int) =~= Seq::empty());
    } else {
        let d = s.drop_last();
        assert forall|j: int| i <= j < d.len() implies d[j] != '/' by {
            assert(d[j] == s[j]);
        }
        lemma_last_segment(d, i);
        assert(s.subrange(i, s.len() as int) =~= d.subrange(i, d.len() as int).push(s.last()));
    }
}

/// What a document holds: its full path, its fields and the times the store
/// recorded for it.
pub struct DocumentModel {
    pub id: Seq<char>,
    pub fields: Map<Seq<char>, ValueModel>,
    pub create_time: Option<Seq<char>>,
    pub update_time: Option<Seq<char>>,
}

pub open spec fn opt_text(o: Option<String>) -> Option<Seq<char>> {
    match o {
        Some(s) => Some(s@),
        None => None,
    }
}

/// A document: its full path (collection segments included), and its fields
/// with distinct names. The times are set by the store only.
#[derive(Debug)]
pub struct Document {
    id: String,
    fields: Vec<(String, FieldValue)>,
    create_time: Option<String>,
    update_time: Option<String>,
}

impl View for Document {
    type V = DocumentModel;

    closed spec fn view(&self) -> DocumentModel {
        DocumentModel {
            id: self.id@,
            fields: entries_map(self.fields@),
            create_time: opt_text(self.create_time),
            update_time: opt_text(self.update_time),
        }
    }
}

impl Document {
    #[verifier::type_invariant]
    spec fn wf(&self) -> bool {
        keys_unique(self.fields@)
    }

    /// A document from its parts, as the store hands them back; of entries
    /// with the same name, the last one counts.
    pub fn from_parts(
        id: String,
        entries: Vec<(String, FieldValue)>,
        create_time: Option<String>,
        update_time: Option<String>,
    ) -> (r: Document)
        ensures
            r@.id == id@,
            r@.fields == fold_entries(entries@),
            r@.create_time == opt_text(create_time),
            r@.update_time == opt_text(update_time),
    {
        let mut fields: Vec<(String, FieldValue)> = Vec::new();
        let mut rest = entries;
        let ghost all = rest@;
        proof {
            assert(entries_map(fields@) =~= Map::empty());
            assert(all.take(0) =~= Seq::<(String, FieldValue)>::empty());
            assert(all.skip(0) =~= all);
        }
        while rest.len() > 0
            invariant
                keys_unique(fields@),
                rest.len() <= all.len(),
                rest@ == all.skip(all.len() - rest.len()),
                entries_map(fields@) == fold_entries(all.take(all.len() - rest.len())),
            decreases rest.len(),
        {
            let ghost c = all.len() - rest.len();
            let (k, v) = rest.remove(0);
            proof {
                assert(all[c] == (k, v));
                assert(all.take(c + 1).drop_last() =~= all.take(c));
                assert(rest@ =~= all.skip(c + 1));
            }
            insert_entry(&mut fields, k, v);
        }
        proof {
            assert(all.take(all.len() as int) =~= all);
        }
        Document { id, fields, create_time, update_time }
    }

    pub fn builder() -> (r: DocumentBuilder)
        ensures
            r@.id == Seq::<char>::empty(),
            r@.fields == Map::<Seq<char>, ValueModel>::empty(),
            r@.create_time is None,
            r@.update_time is None,
    {
        let d = Document {
            id: String::new(),
            fields: Vec::new(),
            create_time: None,
            update_time: None,
        };
        proof {
            assert(d@.fields =~= Map::empty());
        }
        DocumentBuilder(d)
    }

    /// The last segment of the document's path.
    pub fn name(&self) -> (r: &str)
        ensures
            r@ == last_segment(self@.id),
    {
        let s = self.id.as_str();
        let n: usize = s.unicode_len();
        let mut i: usize = n;
        while i > 0 && s.get_char(i - 1) != '/'
            invariant
                0 <= i <= n,
                n == s@.len(),
                forall|j: int| i <= j < n ==> s@[j] != '/',
            decreases i,
        {
            i -= 1;
        }
        proof {
            lemma_last_segment(s@, i as int);
        }
        s.substring_char(i, n)
    }

    /// The full path of the document.
    pub fn id(&self) -> (r: &str)
        ensures
            r@ == self@.id,
    {
        self.id.as_str()
    }

    /// The fields, one entry per name, in no particular order.
    pub fn fields(&self) -> (r: &Vec<(String, FieldValue)>)
        ensures
            keys_unique(r@),
            entries_map(r@) == self@.fields,
    {
        proof {
            use_type_invariant(self);
        }
        &self.fields
    }

    /// The value of a field, or an error naming the document and the field.
    pub fn get(&self, key: &str) -> (r: Result<&FieldValue, String>)
        ensures
            r is Ok <==> self@.fields.contains_key(key@),
            r is Ok ==> r->Ok_0.model() == self@.fields[key@],
            r is Err ==> r->Err_0@ == missing_field_message(self@.id, key@),
    {
        proof {
            use_type_invariant(self);
        }
        let k = key.to_string();
        match find_entry(&self.fields, &k) {
            Some(i) => {
                proof {
                    lemma_entries_map_index(self.fields@, i as int);
                }
                Ok(&self.fields[i].1)
            },
            None => {
                let mut m = String::from_str("Document ");
                m.append(self.id.as_str());
                m.append(" does not have field \"");
                m.append(key);
                m.append("\"");
                Err(m)
            },
        }
    }

    pub fn create_time(&self) -> (r: Option<String>)
        ensures
            opt_text(r) == self@.create_time,
    {
        match &self.create_time {
            Some(t) => Some(t.clone()),
            None => None,
        }
    }

    pub fn update_time(&self) -> (r: Option<String>)
        ensures
            opt_text(r) == self@.update_time,
    {
        match &self.update_time {
            Some(t) => Some(t.clone()),
            None => None,
        }
    }
}

pub open spec fn missing_field_message(id: Seq<char>, key: Seq<char>) -> Seq<char> {
    "Document "@ + id + " does not have field \""@ + key + "\""@
}

/// Builds a document: a path, then fields one at a time.
pub struct DocumentBuilder(Document);

impl View for DocumentBuilder {
    type V = DocumentModel;

    closed spec fn view(&self) -> DocumentModel {
        self.0@
    }
}

impl DocumentBuilder {
    /// Sets the full path of the document.
    pub fn name(self, name: &str) -> (r: DocumentBuilder)
        ensures
            r@ == (DocumentModel { id: name@, ..self@ }),
    {
        proof {
            use_type_invariant(&self.0);
        }
        let Document { id: _, fields, create_time, update_time } = self.0;
        DocumentBuilder(Document { id: name.to_string(), fields, create_time, update_time })
    }

    /// Sets a field; a field of the same name set earlier is replaced.
    pub fn field(self, key: &str, value: FieldValue) -> (r: DocumentBuilder)
        ensures
            r@ == (DocumentModel { fields: self@.fields.insert(key@, value.model()), ..self@ }),
    {
        proof {
            use_type_invariant(&self.0);
        }
        let Document { id, mut fields, create_time, update_time } = self.0;
        insert_entry(&mut fields, key.to_string(), value);
        DocumentBuilder(Document { id, fields, create_time, update_time })
    }

    pub fn build(self) -> (r: Document)
        ensures
            r@ == self@,
    {
        self.0
    }
}


impl Document {
    /// Whether two documents have the same path and the same fields; the
    /// times the store recorded are not compared.
    pub fn same(&self, other: &Document) -> (r: bool)
        ensures
            r == (self@.id == other@.id && self@.fields == other@.fields),
    {
        proof {
            use_type_invariant(self);
            use_type_invariant(other);
        }
        if self.id != other.id {
            return false;
        }
        let a = &self.fields;
        let b = &other.fields;
        let mut i: usize = 0;
        while i < a.len()
            invariant
                keys_unique(a@),
                keys_unique(b@),
                *a == self.fields,
                *b == other.fields,
                0 <= i <= a.len(),
                forall|j: int|
                    0 <= j < i ==> entries_map(b@).contains_key(#[trigger] a@[j].0@)
                        && entries_map(b@)[a@[j].0@] == a@[j].1.model(),
            decreases a.len() - i,
        {
            match find_entry(b, &a[i].0) {
                Some(j) => {
                    proof {
                        lemma_entries_map_index(b@, j as int);
                        lemma_entries_map_index(a@, i as int);
                    }
                    if !a[i].1.same(&b[j].1) {
                        proof {
                            assert(self@.fields[a@[i as int].0@] != other@.fields[a@[i as int].0@]);
                        }
                        return false;
                    }
                },
                None => {
                    proof {
                        lemma_entries_map_index(a@, i as int);
                        assert(!other@.fields.contains_key(a@[i as int].0@));
                    }
                    return false;
                },
            }
            i += 1;
        }
        let mut j: usize = 0;
        while j < b.len()
            invariant
                keys_unique(a@),
                keys_unique(b@),
                *a == self.fields,
                *b == other.fields,
                0 <= j <= b.len(),
                forall|x: int| 0 <= x < j ==> entries_map(a@).contains_key(#[trigger] b@[x].0@),
            decreases b.len() - j,
        {
            match find_entry(a, &b[j].0) {
                Some(x) => {
                    proof {
                        lemma_entries_map_index(a@, x as int);
                    }
                },
                None => {
                    proof {
                        lemma_entries_map_index(b@, j as int);
                        assert(!self@.fields.contains_key(b@[j as int].0@));
                    }
                    return false;
                },
            }
            j += 1;
        }
        proof {
            let ma = entries_map(a@);
            let mb = entries_map(b@);
            assert forall|k: Seq<char>| ma.contains_key(k) implies mb.contains_key(k) && mb[k] == ma[k] by {
                let x = choose|x: int| 0 <= x < a@.len() && #[trigger] a@[x].0@ == k;
                lemma_entries_map_index(a@, x);
            }
            assert forall|k: Seq<char>| mb.contains_key(k) implies ma.contains_key(k) by {
                let x = choose|x: int| 0 <= x < b@.len() && #[trigger] b@[x].0@ == k;
            }
            assert(ma =~= mb);
        }
        true
    }
}

impl PartialEq for Document {
    fn eq(&self, other: &Document) -> (r: bool) {
        self.same(other)
    }
}

impl vstd::std_specs::cmp::PartialEqSpecImpl for Document {
    open spec fn obeys_eq_spec() -> bool {
        true
    }

    open spec fn eq_spec(&self, other: &Document) -> bool {
        self@.id == other@.id && self@.fields == other@.fields
    }
}

/// Of entries with distinct keys, the last-wins reading and the plain reading
/// agree.
pub proof fn lemma_fold_unique(e: Seq<(String, FieldValue)>)
    requires
        keys_unique(e),
    ensures
        fold_entries(e) == entries_map(e),
    decreases e.len(),
{
    if e.len() == 0 {
        assert(entries_map(e) =~= Map::empty());
    } else {
        let d = e.drop_last();
        assert(keys_unique(d));
        lemma_fold_unique(d);
        assert(!has_key(d, e.last().0@)) by {
            if has_key(d, e.last().0@) {
                let i = choose|i: int| 0 <= i < d.len() && #[trigger] d[i].0@ == e.last().0@;
                assert(e[i].0@ == e[e.len() - 1].0@);
            }
        }
        lemma_entries_map_push(d, e.last());
        assert(d.push(e.last()) =~= e);
    }
}


impl Document {
    /// The path, the fields with distinct names, and the two times.
    pub fn into_parts(self) -> (r: (String, Vec<(String, FieldValue)>, Option<String>, Option<String>))
        ensures
            r.0@ == self@.id,
            keys_unique(r.1@),
            entries_map(r.1@) == self@.fields,
            opt_text(r.2) == self@.create_time,
            opt_text(r.3) == self@.update_time,
    {
        proof {
            use_type_invariant(&self);
        }
        let Document { id, fields, create_time, update_time } = self;
        (id, fields, create_time, update_time)
    }
}


/// Setting the same field twice keeps the second value: the builder's fields
/// after both calls are those after the second call alone.
pub proof fn lemma_last_write_wins(
    fields: Map<Seq<char>, ValueModel>,
    key: Seq<char>,
    first: ValueModel,
    second: ValueModel,
)
    ensures
        fields.insert(key, first).insert(key, second).contains_key(key),
        fields.insert(key, first).insert(key, second)[key] == second,
        fields.insert(key, first).insert(key, second) == fields.insert(key, second),
{
    assert(fields.insert(key, first).insert(key, second) =~= fields.insert(key, second));
}

} // verus!
