//! Path patterns: ordered segments, each a literal or a named capture, and
//! the segment-wise matcher that binds capture values.
//!
//! A request path is split on `/` into segments. A pattern matches when the
//! segment counts are equal, every literal equals its request segment
//! byte-for-byte, and every capture faces a non-empty segment; the capture
//! then binds that segment under its name. No pattern consumes a variable
//! number of segments.

use vstd::prelude::*;
use crate::text::{bytes_eq, clone_bytes, copy_range, pairs_view, seqs_view};

verus! {

/// The path separator byte, `/`.
pub const SLASH: u8 = 47;

/// One pattern segment.
pub enum Segment {
    /// Matches exactly this byte string.
    Literal(Vec<u8>),
    /// Matches any single non-empty segment and binds it under this name.
    Capture(Vec<u8>),
}

/// The name a segment binds, if it is a capture.
pub open spec fn capture_name(s: Segment) -> Option<Seq<u8>> {
    match s {
        Segment::Capture(n) => Some(n@),
        Segment::Literal(_) => None,
    }
}

/// Whether one pattern segment accepts one request segment.
pub open spec fn seg_matches(s: Segment, seg: Seq<u8>) -> bool {
    match s {
        Segment::Literal(l) => l@ == seg,
        Segment::Capture(_) => seg.len() > 0,
    }
}

/// Whether a whole pattern accepts a whole segment list: equal counts and a
/// segment-wise match.
pub open spec fn pattern_matches(p: Seq<Segment>, segs: Seq<Seq<u8>>) -> bool {
    &&& p.len() == segs.len()
    &&& forall|i: int| 0 <= i < p.len() ==> seg_matches(p[i], segs[i])
}

/// The capture bindings a match produces, in pattern order.
pub open spec fn bindings(p: Seq<Segment>, segs: Seq<Seq<u8>>) -> Seq<(Seq<u8>, Seq<u8>)>
    decreases p.len(),
{
    if p.len() == 0 {
        Seq::empty()
    } else {
        let rest = bindings(p.skip(1), segs.skip(1));
        match p[0] {
            Segment::Capture(n) => seq![(n@, segs[0])] + rest,
            Segment::Literal(_) => rest,
        }
    }
}

/// Extending a match by one segment extends its bindings by at most one pair.
pub proof fn lemma_bindings_push(p: Seq<Segment>, segs: Seq<Seq<u8>>, s: Segment, v: Seq<u8>)
    requires
        p.len() == segs.len(),
    ensures
        bindings(p.push(s), segs.push(v)) == (match s {
            Segment::Capture(n) => bindings(p, segs).push((n@, v)),
            Segment::Literal(_) => bindings(p, segs),
        }),
    decreases p.len(),
{
    if p.len() == 0 {
        assert(p.push(s).skip(1) =~= Seq::<Segment>::empty());
        assert(segs.push(v).skip(1) =~= Seq::<Seq<u8>>::empty());
        assert(bindings(Seq::<Segment>::empty(), Seq::<Seq<u8>>::empty())
            =~= Seq::<(Seq<u8>, Seq<u8>)>::empty());
        assert(p.push(s)[0] == s);
        assert(segs.push(v)[0] == v);
        match s {
            Segment::Capture(n) => {
                assert(bindings(p.push(s), segs.push(v)) =~= bindings(p, segs).push((n@, v)));
            },
            Segment::Literal(_) => {
                assert(bindings(p.push(s), segs.push(v)) =~= bindings(p, segs));
            },
        }
    } else {
        lemma_bindings_push(p.skip(1), segs.skip(1), s, v);
        assert(p.push(s).skip(1) =~= p.skip(1).push(s));
        assert(segs.push(v).skip(1) =~= segs.skip(1).push(v));
        assert(p.push(s)[0] == p[0]);
        assert(segs.push(v)[0] == segs[0]);
        match p[0] {
            Segment::Capture(n) => {
                match s {
                    Segment::Capture(m) => {
                        assert(seq![(n@, segs[0])] + bindings(p.skip(1), segs.skip(1)).push((m@, v))
                            =~= (seq![(n@, segs[0])] + bindings(p.skip(1), segs.skip(1))).push((
                            m@,
                            v,
                        )));
                    },
                    Segment::Literal(_) => {},
                }
            },
            Segment::Literal(_) => {},
        }
    }
}

/// A path pattern: an ordered segment list whose capture names are unique.
pub struct PathPattern {
    pub segments: Vec<Segment>,
}

impl View for PathPattern {
    type V = Seq<Segment>;

    open spec fn view(&self) -> Seq<Segment> {
        self.segments@
    }
}

/// The pattern invariant: no two captures share a name.
pub open spec fn captures_unique(p: Seq<Segment>) -> bool {
    forall|i: int, j: int|
        0 <= i < j < p.len() ==> (capture_name(p[i]) is None || capture_name(p[i])
            != capture_name(p[j]))
}

impl PathPattern {
    /// Builds a pattern from its segments; rejects duplicate capture names.
    pub fn new(segments: Vec<Segment>) -> (r: Option<PathPattern>)
        ensures
            (match r {
                Some(p) => p@ == segments@ && captures_unique(segments@),
                None => !captures_unique(segments@),
            }),
    {
        let n = segments.len();
        let mut i: usize = 0;
        while i < n
            invariant
                i <= n,
                n == segments@.len(),
                forall|a: int, b: int|
                    0 <= a < b < n && a < i ==> (capture_name(segments@[a]) is None
                        || capture_name(segments@[a]) != capture_name(segments@[b])),
            decreases n - i,
        {
            let is_capture = match &segments[i] {
                Segment::Capture(_) => true,
                Segment::Literal(_) => false,
            };
            if is_capture {
                let mut j: usize = i + 1;
                while j < n
                    invariant
                        i < j <= n,
                        n == segments@.len(),
                        capture_name(segments@[i as int]) is Some,
                        forall|b: int|
                            i < b < j ==> capture_name(segments@[i as int])
                                != capture_name(segments@[b]),
                    decreases n - j,
                {
                    let dup = match (&segments[i], &segments[j]) {
                        (Segment::Capture(a), Segment::Capture(b)) => bytes_eq(a, b),
                        _ => false,
                    };
                    if dup {
                        return None;
                    }
                    j = j + 1;
                }
            }
            i = i + 1;
        }
        Some(PathPattern { segments })
    }
}

/// Splits a byte string on `/`: one more part than there are separators;
/// adjacent separators, a leading or a trailing separator yield empty parts.
pub open spec fn split_on_slash(s: Seq<u8>) -> Seq<Seq<u8>>
    decreases s.len(),
{
    if s.len() == 0 {
        seq![Seq::<u8>::empty()]
    } else if s[0] == SLASH {
        seq![Seq::<u8>::empty()] + split_on_slash(s.skip(1))
    } else {
        let rest = split_on_slash(s.skip(1));
        seq![seq![s[0]] + rest[0]] + rest.skip(1)
    }
}

/// A split is never empty.
pub proof fn lemma_split_len(s: Seq<u8>)
    ensures
        split_on_slash(s).len() >= 1,
    decreases s.len(),
{
    if s.len() > 0 {
        lemma_split_len(s.skip(1));
    }
}

/// If the bytes before `j` hold no separator and `j` is a separator or the
/// end, the split starts with exactly the bytes before `j`.
pub proof fn lemma_split_step(s: Seq<u8>, j: int)
    requires
        0 <= j <= s.len(),
        forall|k: int| 0 <= k < j ==> s[k] != SLASH,
        j == s.len() || s[j] == SLASH,
    ensures
        split_on_slash(s) == (if j == s.len() {
            seq![s.subrange(0, j)]
        } else {
            seq![s.subrange(0, j)] + split_on_slash(s.skip(j + 1))
        }),
    decreases j,
{
    lemma_split_len(s);
    if j == 0 {
        assert(s.subrange(0, 0) =~= Seq::<u8>::empty());
        if j == s.len() {
            assert(split_on_slash(s) =~= seq![s.subrange(0, 0)]);
        } else {
            assert(s[0] == SLASH);
            assert(s.skip(1) =~= s.skip(j + 1));
            assert(seq![Seq::<u8>::empty()] + split_on_slash(s.skip(1))
                =~= seq![s.subrange(0, 0)] + split_on_slash(s.skip(j + 1)));
        }
    } else {
        let t = s.skip(1);
        assert(forall|k: int| 0 <= k < j - 1 ==> t[k] != SLASH);
        lemma_split_step(t, j - 1);
        lemma_split_len(t);
        assert(s[0] != SLASH);
        if j == s.len() {
            assert(split_on_slash(t) == seq![t.subrange(0, j - 1)]);
            assert(seq![s[0]] + t.subrange(0, j - 1) =~= s.subrange(0, j));
            assert(split_on_slash(s) =~= seq![s.subrange(0, j)]);
        } else {
            assert(split_on_slash(t) == seq![t.subrange(0, j - 1)] + split_on_slash(
                t.skip(j),
            ));
            assert(t.skip(j) =~= s.skip(j + 1));
            assert(seq![s[0]] + t.subrange(0, j - 1) =~= s.subrange(0, j));
            assert((seq![t.subrange(0, j - 1)] + split_on_slash(t.skip(j))).skip(1)
                =~= split_on_slash(s.skip(j + 1)));
            assert(split_on_slash(s) =~= seq![s.subrange(0, j)] + split_on_slash(s.skip(j + 1)));
        }
    }
}

/// The segments of a request path: everything after the leading `/`, split
/// on `/`. A trailing `/` yields a final empty segment.
pub open spec fn request_segments(path: Seq<u8>) -> Seq<Seq<u8>> {
    split_on_slash(path).skip(1)
}

/// Request segments under the configured trailing-slash rule: when
/// `strip_trailing` is set, one final empty segment is dropped, so that
/// `/user/alice/` and `/user/alice` see the same route.
pub open spec fn request_segments_cfg(path: Seq<u8>, strip_trailing: bool) -> Seq<Seq<u8>> {
    let segs = request_segments(path);
    if strip_trailing && segs.len() > 0 && segs.last().len() == 0 {
        segs.drop_last()
    } else {
        segs
    }
}

/// Splits a request path into its segments under the trailing-slash rule.
pub fn split_request_path(path: &Vec<u8>, strip_trailing: bool) -> (segs: Vec<Vec<u8>>)
    requires
        path@.len() >= 1,
        path@[0] == SLASH,
    ensures
        seqs_view(segs@) == request_segments_cfg(path@, strip_trailing),
{
    let mut segs: Vec<Vec<u8>> = Vec::new();
    let mut start: usize = 1;
    proof {
        assert(path@.skip(1) =~= path@.skip(start as int));
        assert((seq![Seq::<u8>::empty()] + split_on_slash(path@.skip(1))).skip(1)
            =~= split_on_slash(path@.skip(1)));
        assert(seqs_view(segs@) + split_on_slash(path@.skip(start as int))
            =~= request_segments(path@));
    }
    loop
        invariant_except_break
            seqs_view(segs@) + split_on_slash(path@.skip(start as int)) == request_segments(path@),
        invariant
            1 <= start <= path@.len(),
            path@.len() >= 1,
            path@[0] == SLASH,
        ensures
            seqs_view(segs@) == request_segments(path@),
        decreases path@.len() - start,
    {
        let mut j: usize = start;
        while j < path.len() && path[j] != SLASH
            invariant
                start <= j <= path@.len(),
                forall|k: int| start <= k < j ==> path@[k] != SLASH,
            decreases path@.len() - j,
        {
            j = j + 1;
        }
        let seg = copy_range(path, start, j);
        proof {
            let tail = path@.skip(start as int);
            assert(forall|k: int| 0 <= k < j - start ==> tail[k] != SLASH);
            lemma_split_step(tail, j - start);
            assert(tail.subrange(0, j - start) =~= path@.subrange(start as int, j as int));
        }
        let ghost old_segs = segs@;
        segs.push(seg);
        proof {
            assert(seqs_view(segs@) =~= seqs_view(old_segs).push(seg@));
            let tail = path@.skip(start as int);
            if j == path@.len() {
                assert(split_on_slash(tail) == seq![seg@]);
                assert(seqs_view(segs@) =~= seqs_view(old_segs) + split_on_slash(tail));
            } else {
                assert(tail.skip(j - start + 1) =~= path@.skip(j + 1));
                assert(split_on_slash(tail) == seq![seg@] + split_on_slash(path@.skip(j + 1)));
                assert(seqs_view(segs@) + split_on_slash(path@.skip(j + 1))
                    =~= seqs_view(old_segs) + split_on_slash(tail));
            }
        }
        if j == path.len() {
            break ;
        }
        start = j + 1;
    }
    if strip_trailing && segs.len() > 0 {
        let lastlen = segs[segs.len() - 1].len();
        if lastlen == 0 {
            let ghost before = segs@;
            segs.pop();
            proof {
                assert(seqs_view(segs@) =~= seqs_view(before).drop_last());
                assert(seqs_view(before).last().len() == 0);
            }
        }
    }
    segs
}

/// Matches one pattern against a segment list; `Some` holds the bindings.
pub fn match_pattern(p: &PathPattern, segs: &Vec<Vec<u8>>) -> (r: Option<
    Vec<(Vec<u8>, Vec<u8>)>,
>)
    ensures
        (match r {
            Some(params) => pattern_matches(p@, seqs_view(segs@)) && pairs_view(params@)
                == bindings(p@, seqs_view(segs@)),
            None => !pattern_matches(p@, seqs_view(segs@)),
        }),
{
    let n = p.segments.len();
    if n != segs.len() {
        return None;
    }
    let ghost sv = seqs_view(segs@);
    let mut params: Vec<(Vec<u8>, Vec<u8>)> = Vec::new();
    let mut i: usize = 0;
    proof {
        assert(p@.take(0) =~= Seq::<Segment>::empty());
        assert(sv.take(0) =~= Seq::<Seq<u8>>::empty());
        assert(pairs_view(params@) =~= bindings(p@.take(0), sv.take(0)));
    }
    while i < n
        invariant
            i <= n,
            n == p@.len(),
            n == segs@.len(),
            sv == seqs_view(segs@),
            forall|k: int| 0 <= k < i ==> seg_matches(p@[k], sv[k]),
            pairs_view(params@) == bindings(p@.take(i as int), sv.take(i as int)),
        decreases n - i,
    {
        let ghost old_params = params@;
        match &p.segments[i] {
            Segment::Literal(l) => {
                if !bytes_eq(l, &segs[i]) {
                    assert(!seg_matches(p@[i as int], sv[i as int]));
                    return None;
                }
            },
            Segment::Capture(name) => {
                if segs[i].len() == 0 {
                    assert(!seg_matches(p@[i as int], sv[i as int]));
                    return None;
                }
                let nm = clone_bytes(name);
                let vl = clone_bytes(&segs[i]);
                params.push((nm, vl));
            },
        }
        proof {
            lemma_bindings_push(p@.take(i as int), sv.take(i as int), p@[i as int], sv[i as int]);
            assert(p@.take(i + 1) =~= p@.take(i as int).push(p@[i as int]));
            assert(sv.take(i + 1) =~= sv.take(i as int).push(sv[i as int]));
            match p@[i as int] {
                Segment::Capture(nm) => {
                    assert(pairs_view(params@) =~= pairs_view(old_params).push(
                        (nm@, sv[i as int]),
                    ));
                },
                Segment::Literal(_) => {},
            }
        }
        i = i + 1;
    }
    proof {
        assert(p@.take(n as int) =~= p@);
        assert(sv.take(n as int) =~= sv);
    }
    Some(params)
}

} // verus!
