//! Structured queries: collections to scan, a filter tree, orderings and
//! pagination, built by value so that any partial query can be reused.
use vstd::prelude::*;
use crate::filter::{FilterOp, FilterTree, is_join, is_leaf};

verus! {

/// Sort direction of an ordering clause.
#[derive(Debug, Clone, Copy, PartialEq, Eq, Structural)]
pub enum Ordering {
    ASCENDING,
    DESCENDING,
}

pub open spec fn ordering_name(o: Ordering) -> Seq<char> {
    match o {
        Ordering::ASCENDING => "ASCENDING"@,
        Ordering::DESCENDING => "DESCENDING"@,
    }
}

impl Ordering {
    /// The direction's name in the store's vocabulary.
    pub fn to_string(&self) -> (r: String)
        ensures
            r@ == ordering_name(*self),
    {
        match self {
            Ordering::ASCENDING => String::from_str("ASCENDING"),
            Ordering::DESCENDING => String::from_str("DESCENDING"),
        }
    }
}

/// A collection to scan, optionally with all collections below it.
#[derive(Debug)]
pub struct CollectionSelector {
    pub collection_id: String,
    pub all_descendants: Option<bool>,
}

impl CollectionSelector {
    /// Selects the collection `collection_id` alone.
    pub fn new(collection_id: &str) -> (r: CollectionSelector)
        ensures
            r.collection_id@ == collection_id@,
            r.all_descendants is None,
    {
        CollectionSelector { collection_id: collection_id.to_string(), all_descendants: None }
    }

    pub fn set_all_descendants(&mut self, all_descendants: bool)
        ensures
            final(self).collection_id == old(self).collection_id,
            final(self).all_descendants == Some(all_descendants),
    {
        self.all_descendants = Some(all_descendants);
    }
}

/// An ordering clause: a field path and a direction.
#[derive(Debug)]
pub struct Order {
    pub field: String,
    pub direction: Ordering,
}

/// A query under construction. Every builder method takes the query by value
/// and returns the new one. A limit or skip of 0 means none.
#[derive(Debug)]
pub struct FirestoreQuery {
    pub collections: Vec<CollectionSelector>,
    pub filter: FilterTree,
    pub orders: Vec<Order>,
    pub limit: u32,
    pub skip: u32,
}

/// A query in the form the store runs: limit and offset are absent when not
/// set.
#[derive(Debug)]
pub struct StructuredQuery {
    pub from: Vec<CollectionSelector>,
    pub where_: FilterTree,
    pub order_by: Vec<Order>,
    pub limit: Option<u32>,
    pub offset: Option<u32>,
}

/// The optional field that a count compiles to: absent for 0, else the count.
pub open spec fn unset_if_zero(n: u32) -> Option<u32> {
    if n == 0 {
        None
    } else {
        Some(n)
    }
}

impl FirestoreQuery {
    pub fn new() -> (r: FirestoreQuery)
        ensures
            r.collections@.len() == 0,
            r.filter is Unset,
            r.orders@.len() == 0,
            r.limit == 0,
            r.skip == 0,
    {
        FirestoreQuery {
            collections: Vec::new(),
            filter: FilterTree::Unset,
            orders: Vec::new(),
            limit: 0,
            skip: 0,
        }
    }

    /// Adds collections to scan, after those already chosen.
    pub fn collections(self, collections: Vec<CollectionSelector>) -> (r: FirestoreQuery)
        ensures
            r.collections@ == self.collections@ + collections@,
            r.filter == self.filter,
            r.orders == self.orders,
            r.limit == self.limit,
            r.skip == self.skip,
    {
        let FirestoreQuery { collections: mut all, filter, orders, limit, skip } = self;
        let mut more = collections;
        all.append(&mut more);
        FirestoreQuery { collections: all, filter, orders, limit, skip }
    }

    /// Adds an ordering clause after those already given.
    pub fn order_by(self, field: &str, direction: Ordering) -> (r: FirestoreQuery)
        ensures
            r.orders@.len() == self.orders@.len() + 1,
            r.orders@.drop_last() == self.orders@,
            r.orders@.last().field@ == field@,
            r.orders@.last().direction == direction,
            r.collections == self.collections,
            r.filter == self.filter,
            r.limit == self.limit,
            r.skip == self.skip,
    {
        let FirestoreQuery { collections, filter, mut orders, limit, skip } = self;
        let ghost before = orders@;
        orders.push(Order { field: field.to_string(), direction });
        proof {
            assert(orders@.drop_last() =~= before);
        }
        FirestoreQuery { collections, filter, orders, limit, skip }
    }

    /// The largest number of results to return; 0 for no bound.
    pub fn limit(self, limit: u32) -> (r: FirestoreQuery)
        ensures
            r.limit == limit,
            r.collections == self.collections,
            r.filter == self.filter,
            r.orders == self.orders,
            r.skip == self.skip,
    {
        FirestoreQuery { limit, ..self }
    }

    /// The number of results to skip; 0 for none.
    pub fn skip(self, skip: u32) -> (r: FirestoreQuery)
        ensures
            r.skip == skip,
            r.collections == self.collections,
            r.filter == self.filter,
            r.orders == self.orders,
            r.limit == self.limit,
    {
        FirestoreQuery { skip, ..self }
    }

    /// Replaces the filter with the single predicate `op` on `field`.
    pub fn filter(self, field: &str, op: FilterOp) -> (r: FirestoreQuery)
        ensures
            is_leaf(r.filter, field@, op),
            r.collections == self.collections,
            r.orders == self.orders,
            r.limit == self.limit,
            r.skip == self.skip,
    {
        FirestoreQuery { filter: FilterTree::leaf(field, op), ..self }
    }

    /// Joins this query's filter and `other`'s under AND; everything else is
    /// this query's.
    pub fn and(self, other: FirestoreQuery) -> (r: FirestoreQuery)
        ensures
            is_join(r.filter, "AND"@, self.filter, other.filter),
            r.collections == self.collections,
            r.orders == self.orders,
            r.limit == self.limit,
            r.skip == self.skip,
    {
        let FirestoreQuery { collections, filter, orders, limit, skip } = self;
        FirestoreQuery { collections, filter: FilterTree::and(filter, other.filter), orders, limit, skip }
    }

    /// Joins this query's filter and `other`'s under OR; everything else is
    /// this query's.
    pub fn or(self, other: FirestoreQuery) -> (r: FirestoreQuery)
        ensures
            is_join(r.filter, "OR"@, self.filter, other.filter),
            r.collections == self.collections,
            r.orders == self.orders,
            r.limit == self.limit,
            r.skip == self.skip,
    {
        let FirestoreQuery { collections, filter, orders, limit, skip } = self;
        FirestoreQuery { collections, filter: FilterTree::or(filter, other.filter), orders, limit, skip }
    }

    /// The structured query the store runs for this query.
    pub fn compile(self) -> (r: StructuredQuery)
        ensures
            r.from == self.collections,
            r.where_ == self.filter,
            r.order_by == self.orders,
            r.limit == unset_if_zero(self.limit),
            r.offset == unset_if_zero(self.skip),
    {
        let FirestoreQuery { collections, filter, orders, limit, skip } = self;
        StructuredQuery {
            from: collections,
            where_: filter,
            order_by: orders,
            limit: if limit == 0 { None } else { Some(limit) },
            offset: if skip == 0 { None } else { Some(skip) },
        }
    }
}

/// Joining two queries keeps both filters, in order, as the two children of
/// one node named after the operator.
pub proof fn lemma_join_structure(t: FilterTree, name: Seq<char>, a: FilterTree, b: FilterTree)
    requires
        is_join(t, name, a, b),
    ensures
        t is Composite,
        t->Composite_op@ == name,
        t->Composite_filters@.len() == 2,
        t->Composite_filters@[0] == a,
        t->Composite_filters@[1] == b,
{
}

/// A limit or skip of 0 compiles to an absent field; any other count compiles
/// to itself.
pub proof fn lemma_pagination_encoding(n: u32)
    ensures
        n == 0 ==> unset_if_zero(n) is None,
        n != 0 ==> unset_if_zero(n) == Some(n),
{
}

} // verus!
