//! Byte-string constants of the dispatch core: header names, media types,
//! file extensions and default bodies, each as a spec sequence with a
//! function that builds the same bytes at run time.

use vstd::prelude::*;

verus! {

/// Spec bytes of the `Content-Type` header name: `Content-Type`.
pub open spec fn content_type_spec() -> Seq<u8> {
    seq![67u8, 111, 110, 116, 101, 110, 116, 45, 84, 121, 112, 101]
}

/// Builds the `Content-Type` header name at run time.
pub fn content_type() -> (r: Vec<u8>)
    ensures
        r@ == content_type_spec(),
{
    let mut r: Vec<u8> = Vec::new();
    r.push(67);
    r.push(111);
    r.push(110);
    r.push(116);
    r.push(101);
    r.push(110);
    r.push(116);
    r.push(45);
    r.push(84);
    r.push(121);
    r.push(112);
    r.push(101);
    assert(r@ =~= content_type_spec());
    r
}

/// Spec bytes of the `Location` header name: `Location`.
pub open spec fn location_spec() -> Seq<u8> {
    seq![76u8, 111, 99, 97, 116, 105, 111, 110]
}

/// Builds the `Location` header name at run time.
pub fn location() -> (r: Vec<u8>)
    ensures
        r@ == location_spec(),
{
    let mut r: Vec<u8> = Vec::new();
    r.push(76);
    r.push(111);
    r.push(99);
    r.push(97);
    r.push(116);
    r.push(105);
    r.push(111);
    r.push(110);
    assert(r@ =~= location_spec());
    r
}

/// Spec bytes of the default media type: `text/plain`.
pub open spec fn text_plain_spec() -> Seq<u8> {
    seq![116u8, 101, 120, 116, 47, 112, 108, 97, 105, 110]
}

/// Builds the default media type at run time.
pub fn text_plain() -> (r: Vec<u8>)
    ensures
        r@ == text_plain_spec(),
{
    let mut r: Vec<u8> = Vec::new();
    r.push(116);
    r.push(101);
    r.push(120);
    r.push(116);
    r.push(47);
    r.push(112);
    r.push(108);
    r.push(97);
    r.push(105);
    r.push(110);
    assert(r@ =~= text_plain_spec());
    r
}

/// Spec bytes of the media type of HTML bodies: `text/html`.
pub open spec fn text_html_spec() -> Seq<u8> {
    seq![116u8, 101, 120, 116, 47, 104, 116, 109, 108]
}

/// Builds the media type of HTML bodies at run time.
pub fn text_html() -> (r: Vec<u8>)
    ensures
        r@ == text_html_spec(),
{
    let mut r: Vec<u8> = Vec::new();
    r.push(116);
    r.push(101);
    r.push(120);
    r.push(116);
    r.push(47);
    r.push(104);
    r.push(116);
    r.push(109);
    r.push(108);
    assert(r@ =~= text_html_spec());
    r
}

/// Spec bytes of the media type of style sheets: `text/css`.
pub open spec fn text_css_spec() -> Seq<u8> {
    seq![116u8, 101, 120, 116, 47, 99, 115, 115]
}

/// Builds the media type of style sheets at run time.
pub fn text_css() -> (r: Vec<u8>)
    ensures
        r@ == text_css_spec(),
{
    let mut r: Vec<u8> = Vec::new();
    r.push(116);
    r.push(101);
    r.push(120);
    r.push(116);
    r.push(47);
    r.push(99);
    r.push(115);
    r.push(115);
    assert(r@ =~= text_css_spec());
    r
}

/// Spec bytes of the media type of scripts: `application/javascript`.
pub open spec fn app_javascript_spec() -> Seq<u8> {
    seq![97u8, 112, 112, 108, 105, 99, 97, 116, 105, 111, 110, 47, 106, 97, 118, 97, 115, 99, 114, 105, 112, 116]
}

/// Builds the media type of scripts at run time.
pub fn app_javascript() -> (r: Vec<u8>)
    ensures
        r@ == app_javascript_spec(),
{
    let mut r: Vec<u8> = Vec::new();
    r.push(97);
    r.push(112);
    r.push(112);
    r.push(108);
    r.push(105);
    r.push(99);
    r.push(97);
    r.push(116);
    r.push(105);
    r.push(111);
    r.push(110);
    r.push(47);
    r.push(106);
    r.push(97);
    r.push(118);
    r.push(97);
    r.push(115);
    r.push(99);
    r.push(114);
    r.push(105);
    r.push(112);
    r.push(116);
    assert(r@ =~= app_javascript_spec());
    r
}

/// Spec bytes of the media type of icons: `image/x-icon`.
pub open spec fn image_icon_spec() -> Seq<u8> {
    seq![105u8, 109, 97, 103, 101, 47, 120, 45, 105, 99, 111, 110]
}

/// Builds the media type of icons at run time.
pub fn image_icon() -> (r: Vec<u8>)
    ensures
        r@ == image_icon_spec(),
{
    let mut r: Vec<u8> = Vec::new();
    r.push(105);
    r.push(109);
    r.push(97);
    r.push(103);
    r.push(101);
    r.push(47);
    r.push(120);
    r.push(45);
    r.push(105);
    r.push(99);
    r.push(111);
    r.push(110);
    assert(r@ =~= image_icon_spec());
    r
}

/// Spec bytes of the fallback media type: `application/octet-stream`.
pub open spec fn octet_stream_spec() -> Seq<u8> {
    seq![97u8, 112, 112, 108, 105, 99, 97, 116, 105, 111, 110, 47, 111, 99, 116, 101, 116, 45, 115, 116, 114, 101, 97, 109]
}

/// Builds the fallback media type at run time.
pub fn octet_stream() -> (r: Vec<u8>)
    ensures
        r@ == octet_stream_spec(),
{
    let mut r: Vec<u8> = Vec::new();
    r.push(97);
    r.push(112);
    r.push(112);
    r.push(108);
    r.push(105);
    r.push(99);
    r.push(97);
    r.push(116);
    r.push(105);
    r.push(111);
    r.push(110);
    r.push(47);
    r.push(111);
    r.push(99);
    r.push(116);
    r.push(101);
    r.push(116);
    r.push(45);
    r.push(115);
    r.push(116);
    r.push(114);
    r.push(101);
    r.push(97);
    r.push(109);
    assert(r@ =~= octet_stream_spec());
    r
}

/// Spec bytes of the `html` file extension: `html`.
pub open spec fn ext_html_spec() -> Seq<u8> {
    seq![104u8, 116, 109, 108]
}

/// Builds the `html` file extension at run time.
pub fn ext_html() -> (r: Vec<u8>)
    ensures
        r@ == ext_html_spec(),
{
    let mut r: Vec<u8> = Vec::new();
    r.push(104);
    r.push(116);
    r.push(109);
    r.push(108);
    assert(r@ =~= ext_html_spec());
    r
}

/// Spec bytes of the `htm` file extension: `htm`.
pub open spec fn ext_htm_spec() -> Seq<u8> {
    seq![104u8, 116, 109]
}

/// Builds the `htm` file extension at run time.
pub fn ext_htm() -> (r: Vec<u8>)
    ensures
        r@ == ext_htm_spec(),
{
    let mut r: Vec<u8> = Vec::new();
    r.push(104);
    r.push(116);
    r.push(109);
    assert(r@ =~= ext_htm_spec());
    r
}

/// Spec bytes of the `ico` file extension: `ico`.
pub open spec fn ext_ico_spec() -> Seq<u8> {
    seq![105u8, 99, 111]
}

/// Builds the `ico` file extension at run time.
pub fn ext_ico() -> (r: Vec<u8>)
    ensures
        r@ == ext_ico_spec(),
{
    let mut r: Vec<u8> = Vec::new();
    r.push(105);
    r.push(99);
    r.push(111);
    assert(r@ =~= ext_ico_spec());
    r
}

/// Spec bytes of the `txt` file extension: `txt`.
pub open spec fn ext_txt_spec() -> Seq<u8> {
    seq![116u8, 120, 116]
}

/// Builds the `txt` file extension at run time.
pub fn ext_txt() -> (r: Vec<u8>)
    ensures
        r@ == ext_txt_spec(),
{
    let mut r: Vec<u8> = Vec::new();
    r.push(116);
    r.push(120);
    r.push(116);
    assert(r@ =~= ext_txt_spec());
    r
}

/// Spec bytes of the `css` file extension: `css`.
pub open spec fn ext_css_spec() -> Seq<u8> {
    seq![99u8, 115, 115]
}

/// Builds the `css` file extension at run time.
pub fn ext_css() -> (r: Vec<u8>)
    ensures
        r@ == ext_css_spec(),
{
    let mut r: Vec<u8> = Vec::new();
    r.push(99);
    r.push(115);
    r.push(115);
    assert(r@ =~= ext_css_spec());
    r
}

/// Spec bytes of the `js` file extension: `js`.
pub open spec fn ext_js_spec() -> Seq<u8> {
    seq![106u8, 115]
}

/// Builds the `js` file extension at run time.
pub fn ext_js() -> (r: Vec<u8>)
    ensures
        r@ == ext_js_spec(),
{
    let mut r: Vec<u8> = Vec::new();
    r.push(106);
    r.push(115);
    assert(r@ =~= ext_js_spec());
    r
}

/// Spec bytes of the opening markup of one listing entry: `<li>`.
pub open spec fn item_open_spec() -> Seq<u8> {
    seq![60u8, 108, 105, 62]
}

/// Builds the opening markup of one listing entry at run time.
pub fn item_open() -> (r: Vec<u8>)
    ensures
        r@ == item_open_spec(),
{
    let mut r: Vec<u8> = Vec::new();
    r.push(60);
    r.push(108);
    r.push(105);
    r.push(62);
    assert(r@ =~= item_open_spec());
    r
}

/// Spec bytes of the closing markup of one listing entry: `</li>\n`.
pub open spec fn item_close_spec() -> Seq<u8> {
    seq![60u8, 47, 108, 105, 62, 10]
}

/// Builds the closing markup of one listing entry at run time.
pub fn item_close() -> (r: Vec<u8>)
    ensures
        r@ == item_close_spec(),
{
    let mut r: Vec<u8> = Vec::new();
    r.push(60);
    r.push(47);
    r.push(108);
    r.push(105);
    r.push(62);
    r.push(10);
    assert(r@ =~= item_close_spec());
    r
}

/// Spec bytes of the default body of a `404` response: `Not Found`.
pub open spec fn not_found_text_spec() -> Seq<u8> {
    seq![78u8, 111, 116, 32, 70, 111, 117, 110, 100]
}

/// Builds the default body of a `404` response at run time.
pub fn not_found_text() -> (r: Vec<u8>)
    ensures
        r@ == not_found_text_spec(),
{
    let mut r: Vec<u8> = Vec::new();
    r.push(78);
    r.push(111);
    r.push(116);
    r.push(32);
    r.push(70);
    r.push(111);
    r.push(117);
    r.push(110);
    r.push(100);
    assert(r@ =~= not_found_text_spec());
    r
}

/// Spec bytes of the default body of an error response: `handler error`.
pub open spec fn error_text_spec() -> Seq<u8> {
    seq![104u8, 97, 110, 100, 108, 101, 114, 32, 101, 114, 114, 111, 114]
}

/// Builds the default body of an error response at run time.
pub fn error_text() -> (r: Vec<u8>)
    ensures
        r@ == error_text_spec(),
{
    let mut r: Vec<u8> = Vec::new();
    r.push(104);
    r.push(97);
    r.push(110);
    r.push(100);
    r.push(108);
    r.push(101);
    r.push(114);
    r.push(32);
    r.push(101);
    r.push(114);
    r.push(114);
    r.push(111);
    r.push(114);
    assert(r@ =~= error_text_spec());
    r
}

/// Spec bytes of the fixed status-line prefix.
pub open spec fn http_version_spec() -> Seq<u8> {
    seq![72u8, 84, 84, 80, 47, 49, 46, 49, 32]
}

/// Builds the fixed status-line prefix at run time.
pub fn http_version() -> (r: Vec<u8>)
    ensures
        r@ == http_version_spec(),
{
    let mut r: Vec<u8> = Vec::new();
    r.push(72);
    r.push(84);
    r.push(84);
    r.push(80);
    r.push(47);
    r.push(49);
    r.push(46);
    r.push(49);
    r.push(32);
    assert(r@ =~= http_version_spec());
    r
}

/// Spec bytes of the separator between a header name and its value.
pub open spec fn colon_space_spec() -> Seq<u8> {
    seq![58u8, 32]
}

/// Builds the separator between a header name and its value at run time.
pub fn colon_space() -> (r: Vec<u8>)
    ensures
        r@ == colon_space_spec(),
{
    let mut r: Vec<u8> = Vec::new();
    r.push(58);
    r.push(32);
    assert(r@ =~= colon_space_spec());
    r
}

/// Spec bytes of the line terminator of the wire format.
pub open spec fn crlf_spec() -> Seq<u8> {
    seq![13u8, 10]
}

/// Builds the line terminator of the wire format at run time.
pub fn crlf() -> (r: Vec<u8>)
    ensures
        r@ == crlf_spec(),
{
    let mut r: Vec<u8> = Vec::new();
    r.push(13);
    r.push(10);
    assert(r@ =~= crlf_spec());
    r
}

} // verus!
