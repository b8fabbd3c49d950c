//! The route table: an ordered list of entries (pattern, method guard,
//! handler), built at startup and read-only afterwards, and the matcher that
//! resolves a request against it.
//!
//! First match wins: registration order is precedence. No conflict detection
//! is performed — an earlier, more general pattern shadows a later, more
//! specific one by design. An entry whose pattern matches but whose guard
//! rejects the method does not end the search: a later entry may accept the
//! same path with that method. Only after the whole table is exhausted does
//! the matcher report no match, together with whether some pattern matched
//! the path while its guard rejected the method (the difference between a
//! "not found" and a "method not allowed" fallback).

use vstd::prelude::*;
use crate::guard::{eval_guard, guard_accepts, MethodGuard};
use crate::handler::Handler;
use crate::pattern::{bindings, captures_unique, match_pattern, pattern_matches, PathPattern};
use crate::text::{pairs_view, seqs_view};

verus! {

/// One registered route.
pub struct RouteEntry {
    pub pattern: PathPattern,
    pub guard: MethodGuard,
    pub handler: Handler,
}

/// Whether an entry accepts a request: its pattern matches the path segments
/// and its guard accepts the method.
pub open spec fn entry_matches(e: RouteEntry, segs: Seq<Seq<u8>>, method: Seq<u8>) -> bool {
    pattern_matches(e.pattern@, segs) && guard_accepts(e.guard, method)
}

/// Whether `i` is the first entry that accepts the request.
pub open spec fn is_first_match(
    entries: Seq<RouteEntry>,
    segs: Seq<Seq<u8>>,
    method: Seq<u8>,
    i: int,
) -> bool {
    &&& 0 <= i < entries.len()
    &&& entry_matches(entries[i], segs, method)
    &&& forall|j: int| 0 <= j < i ==> !entry_matches(entries[j], segs, method)
}

/// Whether no entry accepts the request.
pub open spec fn no_entry_matches(
    entries: Seq<RouteEntry>,
    segs: Seq<Seq<u8>>,
    method: Seq<u8>,
) -> bool {
    forall|j: int| 0 <= j < entries.len() ==> !entry_matches(entries[j], segs, method)
}

/// Whether some entry's pattern matches the path, whatever its guard says.
pub open spec fn some_pattern_matches(entries: Seq<RouteEntry>, segs: Seq<Seq<u8>>) -> bool {
    exists|j: int| 0 <= j < entries.len() && pattern_matches(entries[j].pattern@, segs)
}

/// The matcher's verdict on one request.
pub enum MatchOutcome {
    /// The first entry that accepts the request, and the captures its
    /// pattern bound.
    Matched { index: usize, params: Vec<(Vec<u8>, Vec<u8>)> },
    /// No entry accepts; `method_rejected` says whether some pattern matched
    /// the path while every such entry's guard rejected the method.
    NoMatch { method_rejected: bool },
}

/// The ordered route table.
pub struct RouteTable {
    pub entries: Vec<RouteEntry>,
}

impl RouteTable {
    /// An empty table.
    pub fn new() -> (t: RouteTable)
        ensures
            t.entries@.len() == 0,
    {
        RouteTable { entries: Vec::new() }
    }

    /// Appends a route; registration order is preserved and is the matching
    /// precedence.
    pub fn register(&mut self, pattern: PathPattern, guard: MethodGuard, handler: Handler)
        requires
            captures_unique(pattern@),
        ensures
            final(self).entries@ == old(self).entries@.push(
                (RouteEntry { pattern, guard, handler }),
            ),
    {
        self.entries.push(RouteEntry { pattern, guard, handler });
    }

    /// Resolves a request to the first entry whose pattern matches the path
    /// and whose guard accepts the method, with the captures the pattern
    /// bound; else reports no match, and whether only a method guard stood
    /// in the way.
    pub fn match_request(&self, segs: &Vec<Vec<u8>>, method: &Vec<u8>) -> (r: MatchOutcome)
        ensures
            (match r {
                MatchOutcome::Matched { index, params } => {
                    &&& is_first_match(self.entries@, seqs_view(segs@), method@, index as int)
                    &&& pairs_view(params@) == bindings(
                        self.entries@[index as int].pattern@,
                        seqs_view(segs@),
                    )
                },
                MatchOutcome::NoMatch { method_rejected } => {
                    &&& no_entry_matches(self.entries@, seqs_view(segs@), method@)
                    &&& method_rejected == some_pattern_matches(self.entries@, seqs_view(segs@))
                },
            }),
    {
        let ghost sv = seqs_view(segs@);
        let n = self.entries.len();
        let mut rejected = false;
        let mut i: usize = 0;
        while i < n
            invariant
                i <= n,
                n == self.entries@.len(),
                sv == seqs_view(segs@),
                forall|j: int| 0 <= j < i ==> !entry_matches(self.entries@[j], sv, method@),
                rejected == (exists|j: int|
                    0 <= j < i && pattern_matches(self.entries@[j].pattern@, sv)),
            decreases n - i,
        {
            match match_pattern(&self.entries[i].pattern, segs) {
                Some(params) => {
                    if eval_guard(&self.entries[i].guard, method) {
                        return MatchOutcome::Matched { index: i, params };
                    }
                    assert(pattern_matches(self.entries@[i as int].pattern@, sv));
                    rejected = true;
                },
                None => {
                    assert(!entry_matches(self.entries@[i as int], sv, method@));
                    assert(forall|j: int|
                        0 <= j < i + 1 && pattern_matches(#[trigger] self.entries@[j].pattern@, sv)
                            ==> j < i);
                },
            }
            i = i + 1;
        }
        MatchOutcome::NoMatch { method_rejected: rejected }
    }
}

} // verus!
