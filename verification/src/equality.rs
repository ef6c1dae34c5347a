//! Structural equality on the entities that hold text.
//!
//! The kinds, the operations and the numbers are compared field by field by
//! their derived `==`. An entity that holds a `String` is compared through its
//! view: two values are equal exactly when their views are.

use vstd::prelude::*;
use vstd::std_specs::cmp::PartialEqSpec;
use crate::types::{Error, Expr, InfixOperation, Number, RepData, Token};

verus! {

impl PartialEq for Error {
    fn eq(&self, other: &Self) -> (equal: bool)
        ensures
            equal == (self@ == other@),
    {
        match (self, other) {
            (Error::ConsistentScopeError(a), Error::ConsistentScopeError(b)) => *a == *b,
        }
    }
}

impl vstd::std_specs::cmp::PartialEqSpecImpl for Error {
    open spec fn obeys_eq_spec() -> bool {
        true
    }

    open spec fn eq_spec(&self, other: &Self) -> bool {
        self@ == other@
    }
}

impl PartialEq for RepData {
    fn eq(&self, other: &Self) -> (equal: bool)
        ensures
            equal == (self@ == other@),
    {
        match (self, other) {
            (RepData::STRING(a), RepData::STRING(b)) => *a == *b,
            (RepData::NUMBER(a), RepData::NUMBER(b)) => *a == *b,
            (RepData::TWONUMBER(a, b), RepData::TWONUMBER(c, d)) => *a == *c && *b == *d,
            _ => false,
        }
    }
}

impl vstd::std_specs::cmp::PartialEqSpecImpl for RepData {
    open spec fn obeys_eq_spec() -> bool {
        true
    }

    open spec fn eq_spec(&self, other: &Self) -> bool {
        self@ == other@
    }
}

impl PartialEq for Token {
    fn eq(&self, other: &Self) -> (equal: bool)
        ensures
            equal == (self@ == other@),
    {
        self.kind == other.kind && self.value == other.value
    }
}

impl vstd::std_specs::cmp::PartialEqSpecImpl for Token {
    open spec fn obeys_eq_spec() -> bool {
        true
    }

    open spec fn eq_spec(&self, other: &Self) -> bool {
        self@ == other@
    }
}

impl PartialEq for Expr {
    fn eq(&self, other: &Self) -> (equal: bool)
        ensures
            equal == (self@ == other@),
    {
        self.0 == other.0 && self.1 == other.1 && self.2 == other.2
    }
}

impl vstd::std_specs::cmp::PartialEqSpecImpl for Expr {
    open spec fn obeys_eq_spec() -> bool {
        true
    }

    open spec fn eq_spec(&self, other: &Self) -> bool {
        self@ == other@
    }
}

/// Two tokens are equal exactly when their kinds are equal and their payloads
/// are: both absent, or both present and equal.
pub proof fn lemma_token_equality_is_structural(a: Token, b: Token)
    ensures
        a.eq_spec(&b) <==> a.kind == b.kind && a.value.eq_spec(&b.value),
{
}

/// Numbers of different variants are never equal, whatever they hold: an
/// unsigned zero is not a signed zero.
pub proof fn lemma_number_variants_differ(unsigned: usize, signed: isize)
    ensures
        Number::UINT(unsigned) != Number::IINT(signed),
{
}

/// Two expressions are equal exactly when their left operands, their operators
/// and their right operands are, each with its counterpart.
pub proof fn lemma_expr_equality_is_pairwise(a: Expr, b: Expr)
    ensures
        a.eq_spec(&b) <==> a.0.eq_spec(&b.0) && a.1 == b.1 && a.2.eq_spec(&b.2),
{
}

/// The order of the operands matters: an expression equals the one with its
/// operands exchanged only where the two operands are equal.
pub proof fn lemma_expr_operand_order_matters(left: RepData, op: InfixOperation, right: RepData)
    ensures
        Expr(left, op, right).eq_spec(&Expr(right, op, left)) <==> left.eq_spec(&right),
{
}

} // verus!
