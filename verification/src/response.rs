//! Response construction: a status code, an ordered header list (duplicates
//! allowed, order preserved) and a body that is either buffered bytes or a
//! finite sequence of byte chunks delivered in production order.
//!
//! The builder normalizes a handler's output: a missing `Content-Type` falls
//! back to `text/plain`, and a redirect is a `302` with a `Location` header.

use vstd::prelude::*;
use crate::names;
use crate::text::{append_bytes, pairs_view, seqs_view};

verus! {

/// A response body.
pub enum Body {
    /// A complete body, sent at once.
    Buffered(Vec<u8>),
    /// A body that arrives as a sequence of chunks, delivered in order.
    Streamed(Vec<Vec<u8>>),
}

/// Mathematical model of a body.
pub enum BodyModel {
    Buffered(Seq<u8>),
    Streamed(Seq<Seq<u8>>),
}

impl View for Body {
    type V = BodyModel;

    open spec fn view(&self) -> BodyModel {
        match self {
            Body::Buffered(b) => BodyModel::Buffered(b@),
            Body::Streamed(c) => BodyModel::Streamed(seqs_view(c@)),
        }
    }
}

/// An outgoing response: status, ordered headers, body.
pub struct ResponseSpec {
    pub status: u16,
    pub headers: Vec<(Vec<u8>, Vec<u8>)>,
    pub body: Body,
}

/// Mathematical model of a response.
pub struct ResponseModel {
    pub status: u16,
    pub headers: Seq<(Seq<u8>, Seq<u8>)>,
    pub body: BodyModel,
}

impl View for ResponseSpec {
    type V = ResponseModel;

    open spec fn view(&self) -> ResponseModel {
        ResponseModel { status: self.status, headers: pairs_view(self.headers@), body: self.body@ }
    }
}

/// The media type a response carries: the explicit one, or `text/plain`.
pub open spec fn negotiated_type(content_type: Option<Seq<u8>>) -> Seq<u8> {
    match content_type {
        Some(c) => c,
        None => names::text_plain_spec(),
    }
}

/// Spec view of an optional byte string.
pub open spec fn opt_view(o: Option<Vec<u8>>) -> Option<Seq<u8>> {
    match o {
        Some(v) => Some(v@),
        None => None,
    }
}

/// Model of a buffered response with one `Content-Type` header.
pub open spec fn buffered_model(status: u16, content_type: Option<Seq<u8>>, body: Seq<u8>)
    -> ResponseModel {
    ResponseModel {
        status,
        headers: seq![(names::content_type_spec(), negotiated_type(content_type))],
        body: BodyModel::Buffered(body),
    }
}

/// Model of a streamed response with one `Content-Type` header.
pub open spec fn streamed_model(status: u16, content_type: Option<Seq<u8>>, chunks: Seq<Seq<u8>>)
    -> ResponseModel {
    ResponseModel {
        status,
        headers: seq![(names::content_type_spec(), negotiated_type(content_type))],
        body: BodyModel::Streamed(chunks),
    }
}

/// Model of a redirect: `302` with only a `Location` header and no body.
pub open spec fn redirect_model(location: Seq<u8>) -> ResponseModel {
    ResponseModel {
        status: 302,
        headers: seq![(names::location_spec(), location)],
        body: BodyModel::Buffered(Seq::empty()),
    }
}

/// Builds a buffered response; a missing content type becomes `text/plain`.
pub fn buffered_response(status: u16, content_type: Option<Vec<u8>>, body: Vec<u8>) -> (r:
    ResponseSpec)
    ensures
        r@ == buffered_model(status, opt_view(content_type), body@),
{
    let ct = match content_type {
        Some(c) => c,
        None => names::text_plain(),
    };
    let name = names::content_type();
    let mut headers: Vec<(Vec<u8>, Vec<u8>)> = Vec::new();
    headers.push((name, ct));
    let r = ResponseSpec { status, headers, body: Body::Buffered(body) };
    proof {
        assert(r@.headers =~= buffered_model(status, opt_view(content_type), body@).headers);
    }
    r
}

/// Builds a streamed response; a missing content type becomes `text/plain`.
pub fn streamed_response(status: u16, content_type: Option<Vec<u8>>, chunks: Vec<Vec<u8>>) -> (r:
    ResponseSpec)
    ensures
        r@ == streamed_model(status, opt_view(content_type), seqs_view(chunks@)),
{
    let ct = match content_type {
        Some(c) => c,
        None => names::text_plain(),
    };
    let name = names::content_type();
    let mut headers: Vec<(Vec<u8>, Vec<u8>)> = Vec::new();
    headers.push((name, ct));
    let r = ResponseSpec { status, headers, body: Body::Streamed(chunks) };
    proof {
        assert(r@.headers =~= streamed_model(
            status,
            opt_view(content_type),
            seqs_view(r.body->Streamed_0@),
        ).headers);
    }
    r
}

/// Builds a redirect to `location`.
pub fn redirect_response(location: Vec<u8>) -> (r: ResponseSpec)
    ensures
        r@ == redirect_model(location@),
{
    let name = names::location();
    let mut headers: Vec<(Vec<u8>, Vec<u8>)> = Vec::new();
    headers.push((name, location));
    let body: Vec<u8> = Vec::new();
    let r = ResponseSpec { status: 302, headers, body: Body::Buffered(body) };
    proof {
        assert(r@.headers =~= redirect_model(r.headers@[0].1@).headers);
    }
    r
}

/// What a client that reads a whole stream sees: the chunks, concatenated in
/// production order.
pub open spec fn assembled(chunks: Seq<Seq<u8>>) -> Seq<u8> {
    chunks.flatten()
}

/// Concatenates a chunk sequence in order, as the transport layer would.
pub fn assemble_chunks(chunks: &Vec<Vec<u8>>) -> (r: Vec<u8>)
    ensures
        r@ == assembled(seqs_view(chunks@)),
{
    let ghost cv = seqs_view(chunks@);
    let mut r: Vec<u8> = Vec::new();
    let mut i: usize = 0;
    proof {
        assert(cv.take(0) =~= Seq::<Seq<u8>>::empty());
        assert(Seq::<Seq<u8>>::empty().flatten() =~= Seq::<u8>::empty());
    }
    while i < chunks.len()
        invariant
            i <= chunks@.len(),
            cv == seqs_view(chunks@),
            r@ == cv.take(i as int).flatten(),
        decreases chunks@.len() - i,
    {
        append_bytes(&mut r, &chunks[i]);
        proof {
            cv.take(i as int).lemma_flatten_push(cv[i as int]);
            assert(cv.take(i + 1) =~= cv.take(i as int).push(cv[i as int]));
        }
        i = i + 1;
    }
    proof {
        assert(cv.take(chunks@.len() as int) =~= cv);
    }
    r
}

} // verus!
