//! The byte-level edge of the core: reading a request line and rendering a
//! response head. The transport layer moves these bytes; what they mean is
//! decided here.

use vstd::prelude::*;
use crate::names;
use crate::response::ResponseSpec;
use crate::text::{append_bytes, copy_range, pairs_view};

verus! {

/// The space byte that separates the parts of a request line.
pub const SP: u8 = 32;

/// Whether `i` is the first space at or after `from`.
pub open spec fn first_space_at(s: Seq<u8>, from: int, i: int) -> bool {
    &&& from <= i < s.len()
    &&& s[i] == SP
    &&& forall|k: int| from <= k < i ==> s[k] != SP
}

/// Parses a request line `METHOD SP PATH SP ...` into method and path;
/// rejects a line with fewer than two spaces.
pub fn parse_request_line(line: &Vec<u8>) -> (r: Option<(Vec<u8>, Vec<u8>)>)
    ensures
        (match r {
            Some(mp) => exists|i: int, j: int|
                {
                    &&& #[trigger] first_space_at(line@, 0, i)
                    &&& #[trigger] first_space_at(line@, i + 1, j)
                    &&& mp.0@ == line@.subrange(0, i)
                    &&& mp.1@ == line@.subrange(i + 1, j)
                },
            None => forall|i: int, j: int|
                !(#[trigger] first_space_at(line@, 0, i) && #[trigger] first_space_at(
                    line@,
                    i + 1,
                    j,
                )),
        }),
{
    let n = line.len();
    let mut i: usize = 0;
    while i < n && line[i] != SP
        invariant
            i <= n,
            n == line@.len(),
            forall|k: int| 0 <= k < i ==> line@[k] != SP,
        decreases n - i,
    {
        i = i + 1;
    }
    if i == n {
        assert(forall|x: int| !first_space_at(line@, 0, x));
        return None;
    }
    assert(first_space_at(line@, 0, i as int));
    let mut j: usize = i + 1;
    while j < n && line[j] != SP
        invariant
            i + 1 <= j <= n,
            n == line@.len(),
            forall|k: int| i + 1 <= k < j ==> line@[k] != SP,
        decreases n - j,
    {
        j = j + 1;
    }
    if j == n {
        assert forall|x: int, y: int|
            !(#[trigger] first_space_at(line@, 0, x) && #[trigger] first_space_at(
                line@,
                x + 1,
                y,
            )) by {
            if first_space_at(line@, 0, x) {
                assert(x == i as int);
            }
        }
        return None;
    }
    assert(first_space_at(line@, i + 1, j as int));
    let method = copy_range(line, 0, i);
    let path = copy_range(line, i + 1, j);
    Some((method, path))
}

/// The decimal digits of a three-digit status code.
pub open spec fn status_digits(status: u16) -> Seq<u8>
    recommends
        100 <= status <= 999,
{
    seq![(48 + status / 100) as u8, (48 + (status / 10) % 10) as u8, (48 + status % 10) as u8]
}

/// One rendered header line: `name: value` and a line break.
pub open spec fn header_line(h: (Seq<u8>, Seq<u8>)) -> Seq<u8> {
    h.0 + names::colon_space_spec() + h.1 + names::crlf_spec()
}

/// All header lines of a response, in order.
pub open spec fn rendered_headers(headers: Seq<(Seq<u8>, Seq<u8>)>) -> Seq<u8>
    decreases headers.len(),
{
    if headers.len() == 0 {
        Seq::empty()
    } else {
        header_line(headers[0]) + rendered_headers(headers.skip(1))
    }
}

/// One more header appends one more line.
proof fn lemma_rendered_headers_push(headers: Seq<(Seq<u8>, Seq<u8>)>, h: (Seq<u8>, Seq<u8>))
    ensures
        rendered_headers(headers.push(h)) == rendered_headers(headers) + header_line(h),
    decreases headers.len(),
{
    if headers.len() == 0 {
        assert(headers.push(h).skip(1) =~= Seq::<(Seq<u8>, Seq<u8>)>::empty());
        assert(rendered_headers(Seq::<(Seq<u8>, Seq<u8>)>::empty()) =~= Seq::<u8>::empty());
        assert(headers.push(h)[0] == h);
        assert(header_line(h) + Seq::<u8>::empty() =~= rendered_headers(headers) + header_line(h));
    } else {
        lemma_rendered_headers_push(headers.skip(1), h);
        assert(headers.push(h).skip(1) =~= headers.skip(1).push(h));
        assert(headers.push(h)[0] == headers[0]);
        assert(header_line(headers[0]) + (rendered_headers(headers.skip(1)) + header_line(h))
            =~= (header_line(headers[0]) + rendered_headers(headers.skip(1))) + header_line(h));
    }
}

/// The whole response head: status line, header lines, one blank line.
pub open spec fn head_model(status: u16, headers: Seq<(Seq<u8>, Seq<u8>)>) -> Seq<u8> {
    names::http_version_spec() + status_digits(status) + names::crlf_spec() + rendered_headers(
        headers,
    ) + names::crlf_spec()
}

/// Renders the head of a response: `HTTP/1.1 <status>`, the headers in
/// order, and the blank line before the body.
pub fn render_head(resp: &ResponseSpec) -> (r: Vec<u8>)
    requires
        100 <= resp.status <= 999,
    ensures
        r@ == head_model(resp.status, resp@.headers),
{
    let mut r = names::http_version();
    let d0: u8 = 48 + (resp.status / 100) as u8;
    let d1: u8 = 48 + ((resp.status / 10) % 10) as u8;
    let d2: u8 = 48 + (resp.status % 10) as u8;
    r.push(d0);
    r.push(d1);
    r.push(d2);
    let crlf = names::crlf();
    append_bytes(&mut r, &crlf);
    proof {
        assert(r@ =~= names::http_version_spec() + status_digits(resp.status)
            + names::crlf_spec());
    }
    let ghost hv = pairs_view(resp.headers@);
    let ghost head_prefix = r@;
    let mut i: usize = 0;
    proof {
        assert(hv.take(0) =~= Seq::<(Seq<u8>, Seq<u8>)>::empty());
        assert(r@ =~= head_prefix + rendered_headers(hv.take(0)));
    }
    while i < resp.headers.len()
        invariant
            i <= resp.headers@.len(),
            hv == pairs_view(resp.headers@),
            r@ == head_prefix + rendered_headers(hv.take(i as int)),
        decreases resp.headers@.len() - i,
    {
        let colon = names::colon_space();
        let line_break = names::crlf();
        append_bytes(&mut r, &resp.headers[i].0);
        append_bytes(&mut r, &colon);
        append_bytes(&mut r, &resp.headers[i].1);
        append_bytes(&mut r, &line_break);
        proof {
            lemma_rendered_headers_push(hv.take(i as int), hv[i as int]);
            assert(hv.take(i + 1) =~= hv.take(i as int).push(hv[i as int]));
            assert(r@ =~= head_prefix + rendered_headers(hv.take(i + 1)));
        }
        i = i + 1;
    }
    proof {
        assert(hv.take(resp.headers@.len() as int) =~= hv);
    }
    let blank = names::crlf();
    append_bytes(&mut r, &blank);
    proof {
        assert(r@ =~= head_model(resp.status, pairs_view(resp.headers@)));
    }
    r
}

} // verus!
