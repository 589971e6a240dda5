//! The tagged union of values a document field can hold.
use vstd::prelude::*;
use vstd::utf8::{decode_utf8, valid_utf8};
use crate::decimal::{decimal_of, parsed_i64, i64_text, parse_i64};

verus! {

broadcast use vstd::std_specs::vec::group_vec_axioms;

/// What a field value denotes: text as characters, floating-point numbers as
/// their IEEE-754 bit patterns, integers as the decimal text the store carries.
pub enum ValueModel {
    Null,
    Boolean(bool),
    Integer(Seq<char>),
    Double(u64),
    Text(Seq<char>),
    Bytes(Seq<char>),
    Timestamp(Seq<char>),
    Reference(Seq<char>),
    GeoPoint(u64, u64),
    Array(Seq<ValueModel>),
    Mapping(Map<Seq<char>, ValueModel>),
}

/// A value stored in a document field. Exactly one variant is populated.
///
/// `Integer` holds decimal text, the form in which the store transports
/// integers; `Double` and `GeoPoint` hold IEEE-754 bit patterns
/// (`f64::to_bits`); `Bytes` holds the bytes decoded as UTF-8 text.
/// `Mapping` is read as a map: order does not matter, and of entries with the
/// same key the last one counts.
#[derive(Debug)]
pub enum FieldValue {
    Null,
    Boolean(bool),
    Integer(String),
    Double(u64),
    String(String),
    Bytes(String),
    Timestamp(String),
    Reference(String),
    GeoPoint(u64, u64),
    Array(Vec<FieldValue>),
    Mapping(Vec<(String, FieldValue)>),
}

pub open spec fn as_bool(m: ValueModel) -> Option<bool> {
    match m {
        ValueModel::Boolean(b) => Some(b),
        _ => None,
    }
}

pub open spec fn as_i64(m: ValueModel) -> Option<i64> {
    match m {
        ValueModel::Integer(t) => parsed_i64(t),
        _ => None,
    }
}

pub open spec fn as_double_bits(m: ValueModel) -> Option<u64> {
    match m {
        ValueModel::Double(d) => Some(d),
        _ => None,
    }
}

pub open spec fn as_text(m: ValueModel) -> Option<Seq<char>> {
    match m {
        ValueModel::Text(t) => Some(t),
        _ => None,
    }
}

pub open spec fn as_geo_bits(m: ValueModel) -> Option<(u64, u64)> {
    match m {
        ValueModel::GeoPoint(lat, lng) => Some((lat, lng)),
        _ => None,
    }
}

/// The text that bytes are stored as: their UTF-8 decoding, or empty text
/// when they are not valid UTF-8.
pub open spec fn bytes_text(b: Seq<u8>) -> Seq<char> {
    if valid_utf8(b) {
        decode_utf8(b)
    } else {
        Seq::empty()
    }
}

/// `i` is the last entry of `e` with key `k`.
pub open spec fn is_last(e: Seq<(String, FieldValue)>, k: Seq<char>, i: int) -> bool {
    &&& 0 <= i < e.len()
    &&& e[i].0@ == k
    &&& forall|j: int| i < j < e.len() ==> #[trigger] e[j].0@ != k
}

impl FieldValue {
    pub open spec fn model(&self) -> ValueModel
        decreases self,
    {
        match self {
            FieldValue::Null => ValueModel::Null,
            FieldValue::Boolean(b) => ValueModel::Boolean(*b),
            FieldValue::Integer(t) => ValueModel::Integer(t@),
            FieldValue::Double(d) => ValueModel::Double(*d),
            FieldValue::String(s) => ValueModel::Text(s@),
            FieldValue::Bytes(s) => ValueModel::Bytes(s@),
            FieldValue::Timestamp(s) => ValueModel::Timestamp(s@),
            FieldValue::Reference(s) => ValueModel::Reference(s@),
            FieldValue::GeoPoint(lat, lng) => ValueModel::GeoPoint(*lat, *lng),
            FieldValue::Array(v) => ValueModel::Array(
                Seq::new(
                    v.len() as nat,
                    |i: int|
                        if 0 <= i < v.len() {
                            v[i].model()
                        } else {
                            ValueModel::Null
                        },
                ),
            ),
            FieldValue::Mapping(v) => ValueModel::Mapping(
                Map::new(
                    |k: Seq<char>| exists|i: int| 0 <= i < v.len() && #[trigger] v[i].0@ == k,
                    |k: Seq<char>|
                        {
                            let i = choose|i: int| is_last(v@, k, i);
                            if 0 <= i < v.len() {
                                v[i].1.model()
                            } else {
                                ValueModel::Null
                            }
                        },
                ),
            ),
        }
    }
}


/// Relies on `std::str::from_utf8`: it succeeds exactly on valid UTF-8, and
/// then the text is the decoding of the bytes.
#[verifier::external_body]
fn utf8_text(b: &[u8]) -> (r: Option<String>)
    ensures
        r is Some <==> valid_utf8(b@),
        r is Some ==> r->0@ == decode_utf8(b@),
{
    std::str::from_utf8(b).ok().map(|t| t.to_string())
}

impl FieldValue {
    pub fn null_value() -> (r: FieldValue)
        ensures
            r.model() == ValueModel::Null,
    {
        FieldValue::Null
    }

    pub fn timestamp_value(v: &str) -> (r: FieldValue)
        ensures
            r.model() == ValueModel::Timestamp(v@),
    {
        FieldValue::Timestamp(v.to_string())
    }

    pub fn reference_value(v: &str) -> (r: FieldValue)
        ensures
            r.model() == ValueModel::Reference(v@),
    {
        FieldValue::Reference(v.to_string())
    }

    /// A map value with the given entries; of entries with the same key the
    /// last one counts.
    pub fn map_value(entries: Vec<(String, FieldValue)>) -> (r: FieldValue)
        ensures
            r == FieldValue::Mapping(entries),
    {
        FieldValue::Mapping(entries)
    }

    pub fn from_bool(v: bool) -> (r: FieldValue)
        ensures
            r.model() == ValueModel::Boolean(v),
    {
        FieldValue::Boolean(v)
    }

    /// An integer, held as its decimal text.
    pub fn from_i64(v: i64) -> (r: FieldValue)
        ensures
            r.model() == ValueModel::Integer(decimal_of(v as int)),
    {
        FieldValue::Integer(i64_text(v))
    }

    pub fn from_i32(v: i32) -> (r: FieldValue)
        ensures
            r.model() == ValueModel::Integer(decimal_of(v as int)),
    {
        FieldValue::from_i64(v as i64)
    }

    pub fn from_u32(v: u32) -> (r: FieldValue)
        ensures
            r.model() == ValueModel::Integer(decimal_of(v as int)),
    {
        FieldValue::from_i64(v as i64)
    }

    /// A floating-point number, given by its IEEE-754 bit pattern.
    pub fn from_double_bits(bits: u64) -> (r: FieldValue)
        ensures
            r.model() == ValueModel::Double(bits),
    {
        FieldValue::Double(bits)
    }

    pub fn from_str(v: &str) -> (r: FieldValue)
        ensures
            r.model() == ValueModel::Text(v@),
    {
        FieldValue::String(v.to_string())
    }

    pub fn from_string(v: String) -> (r: FieldValue)
        ensures
            r == FieldValue::String(v),
            r.model() == ValueModel::Text(v@),
    {
        FieldValue::String(v)
    }

    /// A geographic point, latitude and longitude given by their IEEE-754 bit
    /// patterns.
    pub fn from_geo_bits(lat: u64, lng: u64) -> (r: FieldValue)
        ensures
            r.model() == ValueModel::GeoPoint(lat, lng),
    {
        FieldValue::GeoPoint(lat, lng)
    }

    /// Bytes are stored as their UTF-8 text; bytes that are not valid UTF-8
    /// are stored as empty text.
    pub fn from_bytes(b: &[u8]) -> (r: FieldValue)
        ensures
            r.model() == ValueModel::Bytes(bytes_text(b@)),
    {
        match utf8_text(b) {
            Some(t) => FieldValue::Bytes(t),
            None => FieldValue::Bytes(String::new()),
        }
    }

    pub fn from_vec(v: Vec<FieldValue>) -> (r: FieldValue)
        ensures
            r == FieldValue::Array(v),
    {
        FieldValue::Array(v)
    }

    pub fn try_bool(self) -> (r: Result<bool, &'static str>)
        ensures
            r is Ok <==> as_bool(self.model()) is Some,
            r is Ok ==> r->Ok_0 == as_bool(self.model())->0,
            r is Err ==> r->Err_0 == "Failed to read FieldValue as bool.",
    {
        match self {
            FieldValue::Boolean(b) => Ok(b),
            _ => Err("Failed to read FieldValue as bool."),
        }
    }

    /// Reads an integer: the variant must be `Integer` and its text must parse
    /// as an `i64`.
    pub fn try_i64(self) -> (r: Result<i64, &'static str>)
        ensures
            r is Ok <==> as_i64(self.model()) is Some,
            r is Ok ==> r->Ok_0 == as_i64(self.model())->0,
            r is Err ==> r->Err_0 == "Failed to read FieldValue as long int(i64).",
    {
        match self {
            FieldValue::Integer(t) => match parse_i64(t.as_str()) {
                Some(v) => Ok(v),
                None => Err("Failed to read FieldValue as long int(i64)."),
            },
            _ => Err("Failed to read FieldValue as long int(i64)."),
        }
    }

    /// Reads an integer and keeps its low 32 bits, as an `as u32` cast does.
    pub fn try_u32(self) -> (r: Result<u32, &'static str>)
        ensures
            r is Ok <==> as_i64(self.model()) is Some,
            r is Ok ==> r->Ok_0 == #[verifier::truncate] (as_i64(self.model())->0 as u32),
            r is Err ==> r->Err_0 == "Failed to read FieldValue as long int(i64).",
    {
        match self.try_i64() {
            Ok(v) => Ok(#[verifier::truncate] (v as u32)),
            Err(e) => Err(e),
        }
    }

    pub fn try_double_bits(self) -> (r: Result<u64, &'static str>)
        ensures
            r is Ok <==> as_double_bits(self.model()) is Some,
            r is Ok ==> r->Ok_0 == as_double_bits(self.model())->0,
            r is Err ==> r->Err_0 == "Failed to read FieldValue as double(f64).",
    {
        match self {
            FieldValue::Double(d) => Ok(d),
            _ => Err("Failed to read FieldValue as double(f64)."),
        }
    }

    pub fn try_string(self) -> (r: Result<String, &'static str>)
        ensures
            r is Ok <==> as_text(self.model()) is Some,
            r is Ok ==> r->Ok_0@ == as_text(self.model())->0,
            r is Err ==> r->Err_0 == "Failed to read FieldValue as String.",
    {
        match self {
            FieldValue::String(s) => Ok(s),
            _ => Err("Failed to read FieldValue as String."),
        }
    }

    pub fn try_geo_bits(self) -> (r: Result<(u64, u64), &'static str>)
        ensures
            r is Ok <==> as_geo_bits(self.model()) is Some,
            r is Ok ==> r->Ok_0 == as_geo_bits(self.model())->0,
            r is Err ==> r->Err_0 == "Failed to read FieldValue as (f64, f64).",
    {
        match self {
            FieldValue::GeoPoint(lat, lng) => Ok((lat, lng)),
            _ => Err("Failed to read FieldValue as (f64, f64)."),
        }
    }
}

/// Reading a value back as the native type it was made from gives that
/// value back: booleans, integers, floating-point numbers (by bit pattern),
/// text and geographic points.
pub proof fn lemma_native_round_trip(b: bool, x: i64, d: u64, t: Seq<char>, lat: u64, lng: u64)
    ensures
        as_bool(ValueModel::Boolean(b)) == Some(b),
        as_i64(ValueModel::Integer(decimal_of(x as int))) == Some(x),
        as_double_bits(ValueModel::Double(d)) == Some(d),
        as_text(ValueModel::Text(t)) == Some(t),
        as_geo_bits(ValueModel::GeoPoint(lat, lng)) == Some((lat, lng)),
{
    crate::decimal::lemma_parse_decimal(x);
}


impl FieldValue {
    /// Whether two values denote the same thing: same variant, same contents.
    pub fn same(&self, other: &FieldValue) -> (r: bool)
        ensures
            r == (self.model() == other.model()),
        decreases self,
    {
        match (self, other) {
            (FieldValue::Null, FieldValue::Null) => true,
            (FieldValue::Boolean(a), FieldValue::Boolean(b)) => *a == *b,
            (FieldValue::Integer(a), FieldValue::Integer(b)) => *a == *b,
            (FieldValue::Double(a), FieldValue::Double(b)) => *a == *b,
            (FieldValue::String(a), FieldValue::String(b)) => *a == *b,
            (FieldValue::Bytes(a), FieldValue::Bytes(b)) => *a == *b,
            (FieldValue::Timestamp(a), FieldValue::Timestamp(b)) => *a == *b,
            (FieldValue::Reference(a), FieldValue::Reference(b)) => *a == *b,
            (FieldValue::GeoPoint(a1, a2), FieldValue::GeoPoint(b1, b2)) => *a1 == *b1 && *a2 == *b2,
            (FieldValue::Array(a), FieldValue::Array(b)) => {
                if a.len() != b.len() {
                    proof {
                        assert(self.model()->Array_0.len() != other.model()->Array_0.len());
                    }
                    return false;
                }
                let mut i: usize = 0;
                while i < a.len()
                    invariant
                        a.len() == b.len(),
                        0 <= i <= a.len(),
                        *self == FieldValue::Array(*a),
                        *other == FieldValue::Array(*b),
                        forall|j: int| 0 <= j < i ==> a[j].model() == b[j].model(),
                    decreases a.len() - i,
                {
                    proof {
                        assert(decreases_to!(*self => *a));
                        assert(decreases_to!(*a => a[i as int]));
                    }
                    if !a[i].same(&b[i]) {
                        proof {
                            assert(self.model()->Array_0[i as int] != other.model()->Array_0[i as int]);
                        }
                        return false;
                    }
                    i += 1;
                }
                proof {
                    assert(self.model()->Array_0 =~= other.model()->Array_0);
                }
                true
            },
            (FieldValue::Mapping(a), FieldValue::Mapping(b)) => {
                let ghost ma = self.model()->Mapping_0;
                let ghost mb = other.model()->Mapping_0;
                let mut i: usize = 0;
                while i < a.len()
                    invariant
                        0 <= i <= a.len(),
                        *self == FieldValue::Mapping(*a),
                        *other == FieldValue::Mapping(*b),
                        ma == self.model()->Mapping_0,
                        mb == other.model()->Mapping_0,
                        forall|j: int|
                            0 <= j < i ==> mb.contains_key(#[trigger] a[j].0@) && ma[a[j].0@] == mb[a[j].0@],
                    decreases a.len() - i,
                {
                    let ia = find_last(a, &a[i].0);
                    let ghost k = a[i as int].0@;
                    proof {
                        lemma_last_value(*a, k, i as int, ia.unwrap() as int);
                    }
                    match find_last(b, &a[i].0) {
                        None => {
                            return false;
                        },
                        Some(ib) => {
                            proof {
                                lemma_last_value(*b, k, ib as int, ib as int);
                                assert(decreases_to!(*self => *a));
                                assert(decreases_to!(*a => a[ia.unwrap() as int]));
                            }
                            let ja = ia.unwrap();
                            if !a[ja].1.same(&b[ib].1) {
                                return false;
                            }
                        },
                    }
                    i += 1;
                }
                let mut j: usize = 0;
                while j < b.len()
                    invariant
                        0 <= j <= b.len(),
                        *self == FieldValue::Mapping(*a),
                        *other == FieldValue::Mapping(*b),
                        ma == self.model()->Mapping_0,
                        mb == other.model()->Mapping_0,
                        forall|x: int| 0 <= x < j ==> ma.contains_key(#[trigger] b[x].0@),
                    decreases b.len() - j,
                {
                    if find_last(a, &b[j].0).is_none() {
                        proof {
                            assert(mb.contains_key(b[j as int].0@));
                        }
                        return false;
                    }
                    j += 1;
                }
                proof {
                    assert forall|k: Seq<char>| ma.contains_key(k) implies mb.contains_key(k) && ma[k] == mb[k] by {
                        let x = choose|x: int| 0 <= x < a.len() && #[trigger] a[x].0@ == k;
                    }
                    assert forall|k: Seq<char>| mb.contains_key(k) implies ma.contains_key(k) by {
                        let x = choose|x: int| 0 <= x < b.len() && #[trigger] b[x].0@ == k;
                    }
                    assert(ma =~= mb);
                }
                true
            },
            _ => false,
        }
    }
}

/// The last entry with a given key.
fn find_last(entries: &Vec<(String, FieldValue)>, key: &String) -> (r: Option<usize>)
    ensures
        r is Some ==> is_last(entries@, key@, r->0 as int),
        r is None ==> forall|j: int| 0 <= j < entries.len() ==> #[trigger] entries@[j].0@ != key@,
{
    let mut i: usize = entries.len();
    while i > 0
        invariant
            0 <= i <= entries.len(),
            forall|j: int| i <= j < entries.len() ==> #[trigger] entries@[j].0@ != key@,
        decreases i,
    {
        if entries[i - 1].0 == *key {
            return Some(i - 1);
        }
        i -= 1;
    }
    None
}

/// The mapping a map value denotes gives each key the value of its last entry.
proof fn lemma_last_value(v: Vec<(String, FieldValue)>, k: Seq<char>, i: int, last: int)
    requires
        0 <= i < v.len(),
        v[i].0@ == k,
        is_last(v@, k, last),
    ensures
        FieldValue::Mapping(v).model()->Mapping_0.contains_key(k),
        FieldValue::Mapping(v).model()->Mapping_0[k] == v[last].1.model(),
{
    let m = FieldValue::Mapping(v).model()->Mapping_0;
    assert(v@[i].0@ == k);
    let c = choose|c: int| is_last(v@, k, c);
    assert(is_last(v@, k, c));
    if c < last {
        assert(v@[last].0@ != k);
    } else if c > last {
        assert(v@[c].0@ != k);
    }
}

impl PartialEq for FieldValue {
    fn eq(&self, other: &FieldValue) -> (r: bool) {
        self.same(other)
    }
}

impl vstd::std_specs::cmp::PartialEqSpecImpl for FieldValue {
    open spec fn obeys_eq_spec() -> bool {
        true
    }

    open spec fn eq_spec(&self, other: &FieldValue) -> bool {
        self.model() == other.model()
    }
}

impl From<bool> for FieldValue {
    fn from(v: bool) -> (r: FieldValue) {
        FieldValue::Boolean(v)
    }
}

impl vstd::std_specs::convert::FromSpecImpl<bool> for FieldValue {
    open spec fn obeys_from_spec() -> bool {
        true
    }

    open spec fn from_spec(v: bool) -> FieldValue {
        FieldValue::Boolean(v)
    }
}

impl From<String> for FieldValue {
    fn from(v: String) -> (r: FieldValue) {
        FieldValue::String(v)
    }
}

impl vstd::std_specs::convert::FromSpecImpl<String> for FieldValue {
    open spec fn obeys_from_spec() -> bool {
        true
    }

    open spec fn from_spec(v: String) -> FieldValue {
        FieldValue::String(v)
    }
}

impl From<Vec<FieldValue>> for FieldValue {
    fn from(v: Vec<FieldValue>) -> (r: FieldValue) {
        FieldValue::Array(v)
    }
}

impl vstd::std_specs::convert::FromSpecImpl<Vec<FieldValue>> for FieldValue {
    open spec fn obeys_from_spec() -> bool {
        true
    }

    open spec fn from_spec(v: Vec<FieldValue>) -> FieldValue {
        FieldValue::Array(v)
    }
}

impl From<()> for FieldValue {
    fn from(v: ()) -> (r: FieldValue) {
        FieldValue::Null
    }
}

impl vstd::std_specs::convert::FromSpecImpl<()> for FieldValue {
    open spec fn obeys_from_spec() -> bool {
        true
    }

    open spec fn from_spec(v: ()) -> FieldValue {
        FieldValue::Null
    }
}

} // verus!
