//! Method guards: predicates over the HTTP method of a request, as a closed
//! tagged-variant type evaluated by a pure function.
//!
//! `Any` accepts every method, `Exactly` one method by case-sensitive
//! equality; `Not` inverts a guard, and `Both` / `Either` compose two guards
//! conjunctively or disjunctively.

use vstd::prelude::*;
use crate::text::bytes_eq;

verus! {

/// A predicate over an HTTP method.
pub enum MethodGuard {
    /// Accepts every method.
    Any,
    /// Accepts exactly this method, byte-for-byte.
    Exactly(Vec<u8>),
    /// Accepts what the inner guard rejects.
    Not(Box<MethodGuard>),
    /// Accepts what both guards accept.
    Both(Box<MethodGuard>, Box<MethodGuard>),
    /// Accepts what at least one guard accepts.
    Either(Box<MethodGuard>, Box<MethodGuard>),
}

/// What a guard accepts.
pub open spec fn guard_accepts(g: MethodGuard, m: Seq<u8>) -> bool
    decreases g,
{
    match g {
        MethodGuard::Any => true,
        MethodGuard::Exactly(e) => e@ == m,
        MethodGuard::Not(inner) => !guard_accepts(*inner, m),
        MethodGuard::Both(a, b) => guard_accepts(*a, m) && guard_accepts(*b, m),
        MethodGuard::Either(a, b) => guard_accepts(*a, m) || guard_accepts(*b, m),
    }
}

/// Evaluates a guard on a method.
pub fn eval_guard(g: &MethodGuard, m: &Vec<u8>) -> (r: bool)
    ensures
        r == guard_accepts(*g, m@),
    decreases *g,
{
    match g {
        MethodGuard::Any => true,
        MethodGuard::Exactly(e) => bytes_eq(e, m),
        MethodGuard::Not(inner) => !eval_guard(inner, m),
        MethodGuard::Both(a, b) => eval_guard(a, m) && eval_guard(b, m),
        MethodGuard::Either(a, b) => eval_guard(a, m) || eval_guard(b, m),
    }
}

} // verus!
