//! What an upload sends.
use vstd::prelude::*;

use crate::config::ConfigView;
use crate::json::{JsonView, NodeView};
use crate::request::{headers_in, method_in, request_for, Method};
use crate::text::ascii_lowered;

verus! {

/// An upload is a `PUT` exactly where the settings name that method, with each letter in
/// upper or lower case; it is a `POST` otherwise.
pub proof fn lemma_when_put(cfg: ConfigView)
    ensures
        method_in(cfg) == Method::Put <==> (cfg.method matches Some(m) && m.len() == 3 && (m[0]
            == 'P' || m[0] == 'p') && (m[1] == 'U' || m[1] == 'u') && (m[2] == 'T' || m[2]
            == 't')),
        method_in(cfg) == Method::Put || method_in(cfg) == Method::Post,
{
    reveal_strlit("POST");
    reveal_strlit("PUT");
    let put = ascii_lowered("PUT"@);
    assert(put.len() == 3 && put[0] == 'p' && put[1] == 'u' && put[2] == 't');
    match cfg.method {
        Some(m) => {
            let low = ascii_lowered(m);
            if low == put {
                assert(low.len() == 3 && low[0] == 'p' && low[1] == 'u' && low[2] == 't');
            }
            if m.len() == 3 && (m[0] == 'P' || m[0] == 'p') && (m[1] == 'U' || m[1] == 'u') && (
            m[2] == 'T' || m[2] == 't') {
                assert(low =~= put);
            }
        },
        None => {
            assert(ascii_lowered("POST"@).len() == 4);
        },
    }
}

/// An object in the settings gives one header line for each of its members, in their
/// order: the name with the member's string, or with its rendering where it is no string.
pub proof fn lemma_header_lines(headers: JsonView, i: int)
    requires
        headers.node is Object,
        0 <= i < headers.node->Object_0.len(),
    ensures
        ({
            let fields = headers.node->Object_0;
            let lines = headers_in(Some(headers));
            &&& lines.len() == fields.len()
            &&& lines[i].0 == fields[i].0
            &&& fields[i].1.node matches NodeView::Str(s) ==> lines[i].1 == s
            &&& !(fields[i].1.node is Str) ==> lines[i].1 == fields[i].1.text
        }),
{
}

/// Anything but an object gives no header line.
pub proof fn lemma_no_header_lines(headers: Option<JsonView>)
    requires
        headers matches Some(j) ==> !(j.node is Object),
    ensures
        headers_in(headers).len() == 0,
{
}

/// Every upload carries the image as it is, to the address in the settings, in the field
/// that they name, with all the header lines that they name, whatever the method is.
pub proof fn lemma_what_is_sent(cfg: ConfigView, image: Seq<u8>)
    ensures
        request_for(cfg, image).image == image,
        request_for(cfg, image).url == cfg.upload_url,
        cfg.file_field matches Some(f) ==> request_for(cfg, image).file_field == f,
        cfg.file_field is None ==> request_for(cfg, image).file_field == "file"@,
        request_for(cfg, image).file_name == "screenshot.png"@,
        request_for(cfg, image).mime == "image/png"@,
        request_for(cfg, image).headers == headers_in(cfg.headers),
        request_for(cfg, image).method == method_in(cfg),
{
}

/// Another method changes the method of an upload and nothing else that is sent.
pub proof fn lemma_method_changes_nothing_else(
    cfg: ConfigView,
    method: Option<Seq<char>>,
    image: Seq<u8>,
)
    ensures
        ({
            let a = request_for(cfg, image);
            let b = request_for(ConfigView { method, ..cfg }, image);
            &&& a.url == b.url
            &&& a.file_field == b.file_field
            &&& a.file_name == b.file_name
            &&& a.mime == b.mime
            &&& a.image == b.image
            &&& a.headers == b.headers
        }),
{
}

/// What is sent rests on four of the settings alone: no other setting changes it.
pub proof fn lemma_other_settings_do_not_matter(a: ConfigView, b: ConfigView, image: Seq<u8>)
    requires
        a.upload_url == b.upload_url,
        a.method == b.method,
        a.file_field == b.file_field,
        a.headers == b.headers,
    ensures
        request_for(a, image) == request_for(b, image),
{
}

} // verus!
