//! What an upload sends.
use vstd::prelude::*;

use crate::config::{text_or, Config, ConfigView};
use crate::json::{maybe_json, text_value, Json, JsonView, Node, NodeView};
use crate::text::{ascii_lowered, same_ignoring_case};

verus! {

/// The method of an upload.
#[derive(Debug, Clone, Copy, PartialEq, Eq, Structural)]
pub enum Method {
    Post,
    Put,
}

/// An upload as it is sent: one file in one field of a form.
pub struct UploadRequest {
    pub method: Method,
    pub url: String,
    pub file_field: String,
    pub file_name: String,
    pub mime: String,
    pub image: Vec<u8>,
    pub headers: Vec<(String, String)>,
}

/// The model of an [`UploadRequest`].
pub struct RequestView {
    pub method: Method,
    pub url: Seq<char>,
    pub file_field: Seq<char>,
    pub file_name: Seq<char>,
    pub mime: Seq<char>,
    pub image: Seq<u8>,
    pub headers: Seq<(Seq<char>, Seq<char>)>,
}

/// The names and values of header lines.
pub open spec fn header_model(v: Seq<(String, String)>) -> Seq<(Seq<char>, Seq<char>)> {
    Seq::new(v.len(), |i: int| (v[i].0@, v[i].1@))
}

impl View for UploadRequest {
    type V = RequestView;

    open spec fn view(&self) -> RequestView {
        RequestView {
            method: self.method,
            url: self.url@,
            file_field: self.file_field@,
            file_name: self.file_name@,
            mime: self.mime@,
            image: self.image@,
            headers: header_model(self.headers@),
        }
    }
}

/// The method that the settings name: `PUT` in upper or lower case, and `POST` in
/// every other case.
pub open spec fn method_in(cfg: ConfigView) -> Method {
    if ascii_lowered(text_or(cfg.method, "POST"@)) == ascii_lowered("PUT"@) {
        Method::Put
    } else {
        Method::Post
    }
}

/// The header lines that the settings name: one for each member of an object, a
/// string as it is and any other value as its rendering; nothing else names any.
pub open spec fn headers_in(headers: Option<JsonView>) -> Seq<(Seq<char>, Seq<char>)> {
    match headers {
        Some(j) => match j.node {
            NodeView::Object(fields) => Seq::new(
                fields.len(),
                |i: int| (fields[i].0, text_value(fields[i].1)),
            ),
            _ => Seq::empty(),
        },
        None => Seq::empty(),
    }
}

/// What an upload of an image sends under the settings.
pub open spec fn request_for(cfg: ConfigView, image: Seq<u8>) -> RequestView {
    RequestView {
        method: method_in(cfg),
        url: cfg.upload_url,
        file_field: text_or(cfg.file_field, "file"@),
        file_name: "screenshot.png"@,
        mime: "image/png"@,
        image,
        headers: headers_in(cfg.headers),
    }
}

/// Lists the header lines that the settings name.
fn header_lines(headers: &Option<Json>) -> (r: Vec<(String, String)>)
    ensures
        header_model(r@) == headers_in(maybe_json(*headers)),
{
    let mut lines: Vec<(String, String)> = Vec::new();
    if let Some(j) = headers {
        if let Node::Object(fields) = &j.node {
            let mut i: usize = 0;
            while i < fields.len()
                invariant
                    i <= fields.len(),
                    lines.len() == i,
                    j.node == Node::Object(*fields),
                    forall|k: int|
                        0 <= k < i ==> (#[trigger] lines@[k]).0@ == fields@[k].0@ && lines@[k].1@
                            == text_value(fields@[k].1@),
                decreases fields.len() - i,
            {
                lines.push((fields[i].0.clone(), fields[i].1.as_text()));
                i += 1;
            }
            assert(header_model(lines@) =~= headers_in(Some(j@)));
            return lines;
        }
    }
    assert(header_model(lines@) =~= Seq::empty());
    lines
}

/// Puts together what an upload of an image sends under the settings.
pub fn build_upload_request(cfg: &Config, img: Vec<u8>) -> (r: UploadRequest)
    ensures
        r@ == request_for(cfg@, img@),
{
    let put = match &cfg.method {
        Some(m) => same_ignoring_case(m.as_str(), "PUT"),
        None => same_ignoring_case("POST", "PUT"),
    };
    let file_field = match &cfg.file_field {
        Some(f) => f.clone(),
        None => "file".to_owned(),
    };
    UploadRequest {
        method: if put {
            Method::Put
        } else {
            Method::Post
        },
        url: cfg.upload_url.clone(),
        file_field,
        file_name: "screenshot.png".to_owned(),
        mime: "image/png".to_owned(),
        image: img,
        headers: header_lines(&cfg.headers),
    }
}

/// Without a method in the settings an upload is a `POST`.
pub proof fn lemma_default_method(cfg: ConfigView)
    requires
        cfg.method is None,
    ensures
        method_in(cfg) == Method::Post,
{
    reveal_strlit("POST");
    reveal_strlit("PUT");
    assert(ascii_lowered("POST"@).len() != ascii_lowered("PUT"@).len());
}

} // verus!
