//! Handler invocation: the closed set of handler shapes, their invocation as
//! one pure function from request data to a dispatch plan, and the completion
//! of file-backed plans once the transport has looked the file up.
//!
//! A handler is either synchronous (its whole body is buffered) or streaming
//! (its body is a chunk sequence); both are dispatched uniformly. Handler
//! failures — here, a handler that expects a capture its route's pattern does
//! not bind — are caught at the invocation boundary and converted to the
//! configured error response; they never escape.

use vstd::prelude::*;
use crate::config::{error_model, not_found_model, static_failure_model, ConfigModel, ServerConfig};
use crate::names;
use crate::response::{
    buffered_model, buffered_response, redirect_model, redirect_response, streamed_model,
    streamed_response, ResponseModel, ResponseSpec,
};
use crate::text::{append_bytes, bytes_eq, clone_bytes, concat3, lookup_param, lookup_spec,
    pairs_view, seqs_view};

verus! {

/// One of the closed handler shapes a route can bind.
pub enum Handler {
    /// A fixed buffered page.
    Fixed { status: u16, content_type: Vec<u8>, body: Vec<u8> },
    /// A buffered body `before ++ value ++ after`, where `value` is the
    /// capture bound under `param`; status `200`.
    Template { before: Vec<u8>, after: Vec<u8>, param: Vec<u8>, content_type: Vec<u8> },
    /// The same body, produced as a stream of chunks; status `200`, default
    /// media type.
    StreamTemplate { before: Vec<u8>, after: Vec<u8>, param: Vec<u8> },
    /// An empty body whose status is decided by the request method: the
    /// first case whose method matches, else the fallback status.
    StatusByMethod { cases: Vec<(Vec<u8>, u16)>, otherwise: u16 },
    /// A redirect to a fixed target.
    Redirect { location: Vec<u8> },
    /// A handler that always fails, with this status.
    Fail { status: u16 },
    /// Serves the file at a fixed filesystem path with this status.
    FileAt { fs_path: Vec<u8>, status: u16 },
}

/// What the dispatch core asks of the transport layer.
pub enum DispatchPlan {
    /// A finished response.
    Respond(ResponseSpec),
    /// Read the file at `fs_path`, then finish with `file_response`.
    ReadFile { fs_path: Vec<u8>, status: u16 },
    /// Look `fs_path` up under a static mount, then finish with
    /// `mount_response`.
    ServeMount { fs_path: Vec<u8>, listing_enabled: bool },
}

/// Mathematical model of a dispatch plan.
pub enum PlanModel {
    Respond(ResponseModel),
    ReadFile { fs_path: Seq<u8>, status: u16 },
    ServeMount { fs_path: Seq<u8>, listing_enabled: bool },
}

impl View for DispatchPlan {
    type V = PlanModel;

    open spec fn view(&self) -> PlanModel {
        match self {
            DispatchPlan::Respond(r) => PlanModel::Respond(r@),
            DispatchPlan::ReadFile { fs_path, status } => PlanModel::ReadFile {
                fs_path: fs_path@,
                status: *status,
            },
            DispatchPlan::ServeMount { fs_path, listing_enabled } => PlanModel::ServeMount {
                fs_path: fs_path@,
                listing_enabled: *listing_enabled,
            },
        }
    }
}

/// View of a method/status case list.
pub open spec fn cases_view(v: Seq<(Vec<u8>, u16)>) -> Seq<(Seq<u8>, u16)> {
    v.map_values(|p: (Vec<u8>, u16)| (p.0@, p.1))
}

/// The status of the first case whose method equals `m`, else `otherwise`.
pub open spec fn status_for(cases: Seq<(Seq<u8>, u16)>, m: Seq<u8>, otherwise: u16) -> u16
    decreases cases.len(),
{
    if cases.len() == 0 {
        otherwise
    } else if cases[0].0 == m {
        cases[0].1
    } else {
        status_for(cases.skip(1), m, otherwise)
    }
}

/// What invoking a handler yields, as a pure function of the handler, the
/// request method, the bound captures and the configuration.
pub open spec fn invoke_model(
    h: Handler,
    method: Seq<u8>,
    params: Seq<(Seq<u8>, Seq<u8>)>,
    cfg: ConfigModel,
) -> PlanModel {
    match h {
        Handler::Fixed { status, content_type, body } => PlanModel::Respond(
            buffered_model(status, Some(content_type@), body@),
        ),
        Handler::Template { before, after, param, content_type } => (match lookup_spec(
            params,
            param@,
        ) {
            Some(v) => PlanModel::Respond(
                buffered_model(200, Some(content_type@), before@ + v + after@),
            ),
            None => PlanModel::Respond(error_model(cfg)),
        }),
        Handler::StreamTemplate { before, after, param } => (match lookup_spec(params, param@) {
            Some(v) => PlanModel::Respond(streamed_model(200, None, seq![before@ + v + after@])),
            None => PlanModel::Respond(error_model(cfg)),
        }),
        Handler::StatusByMethod { cases, otherwise } => PlanModel::Respond(
            buffered_model(status_for(cases_view(cases@), method, otherwise), None, Seq::empty()),
        ),
        Handler::Redirect { location } => PlanModel::Respond(redirect_model(location@)),
        Handler::Fail { status } => PlanModel::Respond(buffered_model(status, None, cfg.error_body)),
        Handler::FileAt { fs_path, status } => PlanModel::ReadFile { fs_path: fs_path@, status },
    }
}

/// The status of the first case whose method equals `m`, at run time.
fn status_for_method(cases: &Vec<(Vec<u8>, u16)>, m: &Vec<u8>, otherwise: u16) -> (r: u16)
    ensures
        r == status_for(cases_view(cases@), m@, otherwise),
{
    let ghost cv = cases_view(cases@);
    let mut i: usize = 0;
    proof {
        assert(cv.skip(0) =~= cv);
    }
    while i < cases.len()
        invariant
            i <= cases@.len(),
            cv == cases_view(cases@),
            status_for(cv, m@, otherwise) == status_for(cv.skip(i as int), m@, otherwise),
        decreases cases@.len() - i,
    {
        assert(cv.skip(i as int)[0] == cv[i as int]);
        if bytes_eq(&cases[i].0, m) {
            return cases[i].1;
        }
        assert(cv.skip(i as int).skip(1) =~= cv.skip(i + 1 as int));
        i = i + 1;
    }
    otherwise
}

/// Invokes a handler on the request method and the captures its route bound;
/// a handler failure becomes the configured error response here and is not
/// propagated.
pub fn invoke(h: &Handler, method: &Vec<u8>, params: &Vec<(Vec<u8>, Vec<u8>)>, cfg: &ServerConfig)
    -> (plan: DispatchPlan)
    ensures
        plan@ == invoke_model(*h, method@, pairs_view(params@), cfg@),
{
    match h {
        Handler::Fixed { status, content_type, body } => DispatchPlan::Respond(
            buffered_response(*status, Some(clone_bytes(content_type)), clone_bytes(body)),
        ),
        Handler::Template { before, after, param, content_type } => {
            match lookup_param(params, param) {
                Some(v) => DispatchPlan::Respond(
                    buffered_response(
                        200,
                        Some(clone_bytes(content_type)),
                        concat3(before, &v, after),
                    ),
                ),
                None => DispatchPlan::Respond(error_response(cfg)),
            }
        },
        Handler::StreamTemplate { before, after, param } => {
            match lookup_param(params, param) {
                Some(v) => {
                    let mut chunks: Vec<Vec<u8>> = Vec::new();
                    chunks.push(concat3(before, &v, after));
                    proof {
                        assert(seqs_view(chunks@) =~= seq![before@ + v@ + after@]);
                    }
                    DispatchPlan::Respond(streamed_response(200, None, chunks))
                },
                None => DispatchPlan::Respond(error_response(cfg)),
            }
        },
        Handler::StatusByMethod { cases, otherwise } => {
            let status = status_for_method(cases, method, *otherwise);
            let body: Vec<u8> = Vec::new();
            DispatchPlan::Respond(buffered_response(status, None, body))
        },
        Handler::Redirect { location } => DispatchPlan::Respond(
            redirect_response(clone_bytes(location)),
        ),
        Handler::Fail { status } => DispatchPlan::Respond(
            buffered_response(*status, None, clone_bytes(&cfg.error_body)),
        ),
        Handler::FileAt { fs_path, status } => DispatchPlan::ReadFile {
            fs_path: clone_bytes(fs_path),
            status: *status,
        },
    }
}

/// The configured error response, for a handler that failed.
pub fn error_response(cfg: &ServerConfig) -> (r: ResponseSpec)
    ensures
        r@ == error_model(cfg@),
{
    buffered_response(cfg.error_status, None, clone_bytes(&cfg.error_body))
}

/// The media type a file extension maps to.
pub open spec fn ext_type_spec(e: Seq<u8>) -> Seq<u8> {
    if e == names::ext_html_spec() || e == names::ext_htm_spec() {
        names::text_html_spec()
    } else if e == names::ext_ico_spec() {
        names::image_icon_spec()
    } else if e == names::ext_css_spec() {
        names::text_css_spec()
    } else if e == names::ext_js_spec() {
        names::app_javascript_spec()
    } else if e == names::ext_txt_spec() {
        names::text_plain_spec()
    } else {
        names::octet_stream_spec()
    }
}

/// Computes the media type of a file from its extension.
pub fn content_type_for_ext(ext: &Vec<u8>) -> (r: Vec<u8>)
    ensures
        r@ == ext_type_spec(ext@),
{
    if bytes_eq(ext, &names::ext_html()) || bytes_eq(ext, &names::ext_htm()) {
        names::text_html()
    } else if bytes_eq(ext, &names::ext_ico()) {
        names::image_icon()
    } else if bytes_eq(ext, &names::ext_css()) {
        names::text_css()
    } else if bytes_eq(ext, &names::ext_js()) {
        names::app_javascript()
    } else if bytes_eq(ext, &names::ext_txt()) {
        names::text_plain()
    } else {
        names::octet_stream()
    }
}

/// What the transport found at a filesystem path.
pub enum FileLookup {
    /// A readable file: its bytes and its extension (possibly empty).
    Content { data: Vec<u8>, ext: Vec<u8> },
    /// A directory: its entry names, in directory order.
    Directory { entries: Vec<Vec<u8>> },
    /// Nothing exists at the path.
    Missing,
    /// The path exists but could not be read.
    IoError,
}

/// An HTML listing of directory entries, one item per entry, in order.
pub open spec fn listing_of(entries: Seq<Seq<u8>>) -> Seq<u8>
    decreases entries.len(),
{
    if entries.len() == 0 {
        Seq::empty()
    } else {
        names::item_open_spec() + entries[0] + names::item_close_spec() + listing_of(
            entries.skip(1),
        )
    }
}

/// One more entry appends one more item to a listing.
pub proof fn lemma_listing_push(entries: Seq<Seq<u8>>, e: Seq<u8>)
    ensures
        listing_of(entries.push(e)) == listing_of(entries) + names::item_open_spec() + e
            + names::item_close_spec(),
    decreases entries.len(),
{
    if entries.len() == 0 {
        assert(entries.push(e).skip(1) =~= Seq::<Seq<u8>>::empty());
        assert(listing_of(Seq::<Seq<u8>>::empty()) =~= Seq::<u8>::empty());
        assert(entries.push(e)[0] == e);
        assert(names::item_open_spec() + e + names::item_close_spec() + Seq::<u8>::empty()
            =~= listing_of(entries) + names::item_open_spec() + e + names::item_close_spec());
    } else {
        lemma_listing_push(entries.skip(1), e);
        assert(entries.push(e).skip(1) =~= entries.skip(1).push(e));
        assert(entries.push(e)[0] == entries[0]);
        assert(names::item_open_spec() + entries[0] + names::item_close_spec() + (listing_of(
            entries.skip(1),
        ) + names::item_open_spec() + e + names::item_close_spec()) =~= (names::item_open_spec()
            + entries[0] + names::item_close_spec() + listing_of(entries.skip(1)))
            + names::item_open_spec() + e + names::item_close_spec());
    }
}

/// Renders the HTML listing of a directory.
pub fn html_listing(entries: &Vec<Vec<u8>>) -> (r: Vec<u8>)
    ensures
        r@ == listing_of(seqs_view(entries@)),
{
    let ghost ev = seqs_view(entries@);
    let mut r: Vec<u8> = Vec::new();
    let mut i: usize = 0;
    proof {
        assert(ev.take(0) =~= Seq::<Seq<u8>>::empty());
    }
    while i < entries.len()
        invariant
            i <= entries@.len(),
            ev == seqs_view(entries@),
            r@ == listing_of(ev.take(i as int)),
        decreases entries@.len() - i,
    {
        let item_open = names::item_open();
        let item_close = names::item_close();
        append_bytes(&mut r, &item_open);
        append_bytes(&mut r, &entries[i]);
        append_bytes(&mut r, &item_close);
        proof {
            lemma_listing_push(ev.take(i as int), ev[i as int]);
            assert(ev.take(i + 1) =~= ev.take(i as int).push(ev[i as int]));
        }
        i = i + 1;
    }
    proof {
        assert(ev.take(entries@.len() as int) =~= ev);
    }
    r
}

/// Model of the completed response for a fixed file-backed handler.
pub open spec fn file_response_model(status: u16, lookup: FileLookup, cfg: ConfigModel)
    -> ResponseModel {
    match lookup {
        FileLookup::Content { data, ext } => buffered_model(
            status,
            Some(ext_type_spec(ext@)),
            data@,
        ),
        FileLookup::Directory { entries } => static_failure_model(cfg),
        FileLookup::Missing => not_found_model(cfg),
        FileLookup::IoError => static_failure_model(cfg),
    }
}

/// Completes a fixed file-backed response from what the transport found: the
/// file's bytes under its computed media type, `404` for a missing file,
/// `500` for anything unexpected.
pub fn file_response(status: u16, lookup: FileLookup, cfg: &ServerConfig) -> (r: ResponseSpec)
    ensures
        r@ == file_response_model(status, lookup, cfg@),
{
    match lookup {
        FileLookup::Content { data, ext } => buffered_response(
            status,
            Some(content_type_for_ext(&ext)),
            data,
        ),
        FileLookup::Directory { entries: _ } => buffered_response(
            500,
            None,
            clone_bytes(&cfg.error_body),
        ),
        FileLookup::Missing => buffered_response(
            404,
            Some(clone_bytes(&cfg.not_found_type)),
            clone_bytes(&cfg.not_found_body),
        ),
        FileLookup::IoError => buffered_response(500, None, clone_bytes(&cfg.error_body)),
    }
}

/// Model of the completed response for a path under a static mount.
pub open spec fn mount_response_model(lookup: FileLookup, listing_enabled: bool, cfg: ConfigModel)
    -> ResponseModel {
    match lookup {
        FileLookup::Content { data, ext } => buffered_model(200, Some(ext_type_spec(ext@)), data@),
        FileLookup::Directory { entries } => (if listing_enabled {
            buffered_model(200, Some(names::text_html_spec()), listing_of(seqs_view(entries@)))
        } else {
            buffered_model(cfg.dir_request_status, None, Seq::empty())
        }),
        FileLookup::Missing => not_found_model(cfg),
        FileLookup::IoError => static_failure_model(cfg),
    }
}

/// Completes a static-mount response from what the transport found: a file is
/// served under its computed media type; a directory becomes an HTML listing
/// only where listing is enabled for the mount, else the configured refusal
/// status with no listing.
pub fn mount_response(lookup: FileLookup, listing_enabled: bool, cfg: &ServerConfig) -> (r:
    ResponseSpec)
    ensures
        r@ == mount_response_model(lookup, listing_enabled, cfg@),
{
    match lookup {
        FileLookup::Content { data, ext } => buffered_response(
            200,
            Some(content_type_for_ext(&ext)),
            data,
        ),
        FileLookup::Directory { entries } => {
            if listing_enabled {
                buffered_response(200, Some(names::text_html()), html_listing(&entries))
            } else {
                let body: Vec<u8> = Vec::new();
                buffered_response(cfg.dir_request_status, None, body)
            }
        },
        FileLookup::Missing => buffered_response(
            404,
            Some(clone_bytes(&cfg.not_found_type)),
            clone_bytes(&cfg.not_found_body),
        ),
        FileLookup::IoError => buffered_response(500, None, clone_bytes(&cfg.error_body)),
    }
}

/// A capture value reflected into a template body is recoverable
/// byte-for-byte: the bytes between the template's fixed prefix and suffix
/// are exactly the bound value.
pub proof fn lemma_capture_round_trip(
    before: Vec<u8>,
    after: Vec<u8>,
    param: Vec<u8>,
    content_type: Vec<u8>,
    method: Seq<u8>,
    params: Seq<(Seq<u8>, Seq<u8>)>,
    cfg: ConfigModel,
    value: Seq<u8>,
)
    requires
        lookup_spec(params, param@) == Some(value),
    ensures
        invoke_model(Handler::Template { before, after, param, content_type }, method, params, cfg)
            == PlanModel::Respond(
            buffered_model(200, Some(content_type@), before@ + value + after@),
        ),
        (before@ + value + after@).subrange(
            before@.len() as int,
            before@.len() + value.len() as int,
        ) == value,
{
    assert((before@ + value + after@).subrange(
        before@.len() as int,
        before@.len() + value.len() as int,
    ) =~= value);
}

/// Streaming handlers are stateless: invoking the same handler twice on the
/// same method, captures and configuration yields the same plan — in
/// particular, the same chunk sequence.
pub proof fn lemma_invoke_idempotent(
    h: Handler,
    method: Seq<u8>,
    params: Seq<(Seq<u8>, Seq<u8>)>,
    cfg: ConfigModel,
    p1: PlanModel,
    p2: PlanModel,
)
    requires
        p1 == invoke_model(h, method, params, cfg),
        p2 == invoke_model(h, method, params, cfg),
    ensures
        p1 == p2,
{
}

} // verus!
