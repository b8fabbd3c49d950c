//! Byte-string helpers shared by the matcher, the handlers and the response
//! builder: equality, copying, concatenation, and lookup in an ordered list
//! of name/value pairs.

use vstd::prelude::*;

verus! {

/// View of a list of byte strings as a sequence of byte sequences.
pub open spec fn seqs_view(v: Seq<Vec<u8>>) -> Seq<Seq<u8>> {
    v.map_values(|x: Vec<u8>| x@)
}

/// View of a list of byte-string pairs as a sequence of pairs of sequences.
pub open spec fn pairs_view(v: Seq<(Vec<u8>, Vec<u8>)>) -> Seq<(Seq<u8>, Seq<u8>)> {
    v.map_values(|p: (Vec<u8>, Vec<u8>)| (p.0@, p.1@))
}

/// First value bound under `name`, if any (earlier pairs take precedence).
pub open spec fn lookup_spec(pairs: Seq<(Seq<u8>, Seq<u8>)>, name: Seq<u8>) -> Option<Seq<u8>>
    decreases pairs.len(),
{
    if pairs.len() == 0 {
        None
    } else if pairs[0].0 == name {
        Some(pairs[0].1)
    } else {
        lookup_spec(pairs.skip(1), name)
    }
}

/// Byte-for-byte equality of two byte strings.
pub fn bytes_eq(a: &Vec<u8>, b: &Vec<u8>) -> (r: bool)
    ensures
        r == (a@ == b@),
{
    if a.len() != b.len() {
        assert(a@ != b@);
        return false;
    }
    let mut i: usize = 0;
    while i < a.len()
        invariant
            i <= a.len(),
            a@.len() == b@.len(),
            forall|k: int| 0 <= k < i ==> a@[k] == b@[k],
        decreases a.len() - i,
    {
        if a[i] != b[i] {
            return false;
        }
        i = i + 1;
    }
    assert(a@ =~= b@);
    true
}

/// Copy of the bytes of `v` in positions `from..to`.
pub fn copy_range(v: &Vec<u8>, from: usize, to: usize) -> (r: Vec<u8>)
    requires
        from <= to <= v@.len(),
    ensures
        r@ == v@.subrange(from as int, to as int),
{
    let mut r: Vec<u8> = Vec::new();
    let mut i: usize = from;
    while i < to
        invariant
            from <= i <= to <= v@.len(),
            r@ == v@.subrange(from as int, i as int),
        decreases to - i,
    {
        r.push(v[i]);
        assert(r@ =~= v@.subrange(from as int, i + 1 as int));
        i = i + 1;
    }
    r
}

/// Copy of a whole byte string.
pub fn clone_bytes(v: &Vec<u8>) -> (r: Vec<u8>)
    ensures
        r@ == v@,
{
    let r = copy_range(v, 0, v.len());
    assert(v@.subrange(0, v@.len() as int) =~= v@);
    r
}

/// `a ++ b ++ c` as a fresh byte string.
pub fn concat3(a: &Vec<u8>, b: &Vec<u8>, c: &Vec<u8>) -> (r: Vec<u8>)
    ensures
        r@ == a@ + b@ + c@,
{
    let mut r = clone_bytes(a);
    append_bytes(&mut r, b);
    append_bytes(&mut r, c);
    r
}

/// Appends the bytes of `src` to `dst`.
pub fn append_bytes(dst: &mut Vec<u8>, src: &Vec<u8>)
    ensures
        final(dst)@ == old(dst)@ + src@,
{
    let mut i: usize = 0;
    while i < src.len()
        invariant
            i <= src@.len(),
            dst@ == old(dst)@ + src@.subrange(0, i as int),
        decreases src@.len() - i,
    {
        dst.push(src[i]);
        assert(dst@ =~= old(dst)@ + src@.subrange(0, i + 1 as int));
        i = i + 1;
    }
    assert(dst@ =~= old(dst)@ + src@);
}

/// First value bound under `name` in an ordered pair list, as a fresh copy.
pub fn lookup_param(pairs: &Vec<(Vec<u8>, Vec<u8>)>, name: &Vec<u8>) -> (r: Option<Vec<u8>>)
    ensures
        match r {
            Some(v) => lookup_spec(pairs_view(pairs@), name@) == Some(v@),
            None => lookup_spec(pairs_view(pairs@), name@) is None,
        },
{
    let mut i: usize = 0;
    assert(pairs_view(pairs@).skip(0) =~= pairs_view(pairs@));
    while i < pairs.len()
        invariant
            i <= pairs@.len(),
            lookup_spec(pairs_view(pairs@), name@)
                == lookup_spec(pairs_view(pairs@).skip(i as int), name@),
            forall|k: int| 0 <= k < i ==> pairs_view(pairs@)[k].0 != name@,
        decreases pairs@.len() - i,
    {
        if bytes_eq(&pairs[i].0, name) {
            let v = clone_bytes(&pairs[i].1);
            assert(pairs_view(pairs@).skip(i as int)[0] == pairs_view(pairs@)[i as int]);
            return Some(v);
        }
        assert(pairs_view(pairs@).skip(i as int).skip(1)
            =~= pairs_view(pairs@).skip(i + 1 as int));
        assert(pairs_view(pairs@).skip(i as int)[0] == pairs_view(pairs@)[i as int]);
        i = i + 1;
    }
    assert(pairs_view(pairs@).skip(i as int) =~= pairs_view(pairs@).skip(pairs@.len() as int));
    None
}

} // verus!
