//! Predicates on document fields, and trees of them joined by AND / OR.
use vstd::prelude::*;
use crate::value::FieldValue;

verus! {

/// A predicate kind. The binary kinds compare a field with a value; `IS_NULL`
/// and `IS_NAN` take none.
#[allow(non_camel_case_types)]
#[derive(Debug)]
pub enum FilterOp {
    EQUAL(FieldValue),
    LESS_THAN(FieldValue),
    LESS_THAN_OR_EQUAL(FieldValue),
    GREATER_THAN(FieldValue),
    GREATER_THAN_OR_EQUAL(FieldValue),
    ARRAY_CONTAINS(FieldValue),
    IS_NULL,
    IS_NAN,
}

/// The operator's name in the store's vocabulary.
pub open spec fn op_name(op: FilterOp) -> Seq<char> {
    match op {
        FilterOp::EQUAL(_) => "EQUAL"@,
        FilterOp::LESS_THAN(_) => "LESS_THAN"@,
        FilterOp::LESS_THAN_OR_EQUAL(_) => "LESS_THAN_OR_EQUAL"@,
        FilterOp::GREATER_THAN(_) => "GREATER_THAN"@,
        FilterOp::GREATER_THAN_OR_EQUAL(_) => "GREATER_THAN_OR_EQUAL"@,
        FilterOp::ARRAY_CONTAINS(_) => "ARRAY_CONTAINS"@,
        FilterOp::IS_NULL => "IS_NULL"@,
        FilterOp::IS_NAN => "IS_NAN"@,
    }
}

/// The value a binary operator compares with; none for a unary one.
pub open spec fn op_operand(op: FilterOp) -> Option<FieldValue> {
    match op {
        FilterOp::EQUAL(v) => Some(v),
        FilterOp::LESS_THAN(v) => Some(v),
        FilterOp::LESS_THAN_OR_EQUAL(v) => Some(v),
        FilterOp::GREATER_THAN(v) => Some(v),
        FilterOp::GREATER_THAN_OR_EQUAL(v) => Some(v),
        FilterOp::ARRAY_CONTAINS(v) => Some(v),
        FilterOp::IS_NULL => None,
        FilterOp::IS_NAN => None,
    }
}

impl FilterOp {
    /// The operator's name in the store's vocabulary.
    pub fn to_string(&self) -> (r: String)
        ensures
            r@ == op_name(*self),
    {
        match self {
            FilterOp::EQUAL(_) => String::from_str("EQUAL"),
            FilterOp::LESS_THAN(_) => String::from_str("LESS_THAN"),
            FilterOp::LESS_THAN_OR_EQUAL(_) => String::from_str("LESS_THAN_OR_EQUAL"),
            FilterOp::GREATER_THAN(_) => String::from_str("GREATER_THAN"),
            FilterOp::GREATER_THAN_OR_EQUAL(_) => String::from_str("GREATER_THAN_OR_EQUAL"),
            FilterOp::ARRAY_CONTAINS(_) => String::from_str("ARRAY_CONTAINS"),
            FilterOp::IS_NULL => String::from_str("IS_NULL"),
            FilterOp::IS_NAN => String::from_str("IS_NAN"),
        }
    }
}

/// A compiled predicate: none, a comparison of a field with a value, a test
/// on a field alone, or an AND / OR of child predicates.
#[derive(Debug)]
pub enum FilterTree {
    Unset,
    Field { path: String, op: String, value: FieldValue },
    Unary { path: String, op: String },
    Composite { op: String, filters: Vec<FilterTree> },
}

/// `t` is the leaf that `op` on the field `field` compiles to.
pub open spec fn is_leaf(t: FilterTree, field: Seq<char>, op: FilterOp) -> bool {
    match op_operand(op) {
        Some(v) => t matches FilterTree::Field { path, op: name, value }
            && path@ == field && name@ == op_name(op) && value == v,
        None => t matches FilterTree::Unary { path, op: name }
            && path@ == field && name@ == op_name(op),
    }
}

/// `t` joins exactly `a` and `b`, in that order, under the operator `name`.
pub open spec fn is_join(t: FilterTree, name: Seq<char>, a: FilterTree, b: FilterTree) -> bool {
    t matches FilterTree::Composite { op, filters } && op@ == name && filters@ == seq![a, b]
}

impl FilterTree {
    /// The leaf predicate of `op` on the field `field`.
    pub fn leaf(field: &str, op: FilterOp) -> (r: FilterTree)
        ensures
            is_leaf(r, field@, op),
    {
        let name = op.to_string();
        let path = field.to_string();
        match op {
            FilterOp::EQUAL(v) | FilterOp::LESS_THAN(v) | FilterOp::LESS_THAN_OR_EQUAL(v)
            | FilterOp::GREATER_THAN(v) | FilterOp::GREATER_THAN_OR_EQUAL(v)
            | FilterOp::ARRAY_CONTAINS(v) => FilterTree::Field { path, op: name, value: v },
            FilterOp::IS_NULL | FilterOp::IS_NAN => FilterTree::Unary { path, op: name },
        }
    }

    /// Both predicates must hold.
    pub fn and(a: FilterTree, b: FilterTree) -> (r: FilterTree)
        ensures
            is_join(r, "AND"@, a, b),
    {
        FilterTree::Composite { op: String::from_str("AND"), filters: vec![a, b] }
    }

    /// Either predicate must hold.
    pub fn or(a: FilterTree, b: FilterTree) -> (r: FilterTree)
        ensures
            is_join(r, "OR"@, a, b),
    {
        FilterTree::Composite { op: String::from_str("OR"), filters: vec![a, b] }
    }
}

} // verus!
