//! Addresses and content types for what the service sends to the front-end
//! server.
use vstd::prelude::*;
use crate::text::{concat_text, same_text, str_lowercase, to_lower};

verus! {

/// The kinds of JSON document the front-end server takes.
#[derive(Clone, Copy, Debug, PartialEq, Eq, Structural)]
pub enum RodzajeDanychJson {
    Models,
    ImgFront,
}

impl RodzajeDanychJson {
    /// The path segment that names this kind on the front-end server.
    pub open spec fn segment(&self) -> Seq<char> {
        match self {
            RodzajeDanychJson::Models => "models"@,
            RodzajeDanychJson::ImgFront => "img"@,
        }
    }

    pub fn str(&self) -> (r: &'static str)
        ensures
            r@ == self.segment(),
    {
        match self {
            RodzajeDanychJson::Models => "models",
            RodzajeDanychJson::ImgFront => "img",
        }
    }
}

/// The front-end server's address: the configured one, or
/// "https://localhost:8444/" where none is configured.
pub fn frontend_server_or_default(configured: Option<String>) -> (r: String)
    ensures
        r@ == match configured {
            Some(a) => a@,
            None => "https://localhost:8444/"@,
        },
{
    match configured {
        Some(a) => a,
        None => "https://localhost:8444/".to_owned(),
    }
}

/// Where a product's files are posted: `{server}api/produkty/{modyfikator}`.
pub fn files_upload_url(frontend_server: &str, modyfikator: &str) -> (r: String)
    ensures
        r@ == frontend_server@ + "api/produkty/"@ + modyfikator@,
{
    let a = concat_text(frontend_server, "api/produkty/");
    concat_text(a.as_str(), modyfikator)
}

/// Where a JSON document is posted:
/// `{server}api/upload/json/{kind}/{modyfikator}`.
pub fn json_upload_url(frontend_server: &str, typ: RodzajeDanychJson, modyfikator: &str) -> (r: String)
    ensures
        r@ == frontend_server@ + "api/upload/json/"@ + typ.segment() + "/"@ + modyfikator@,
{
    let a = concat_text(frontend_server, "api/upload/json/");
    let b = concat_text(a.as_str(), typ.str());
    let c = concat_text(b.as_str(), "/");
    concat_text(c.as_str(), modyfikator)
}

/// The MIME type sent for a file with the given (lower-case) extension.
pub open spec fn content_type_for(ext: Seq<char>) -> Seq<char> {
    if ext == "glb"@ {
        "model/gltf-binary"@
    } else if ext == "png"@ {
        "image/png"@
    } else if ext == "jpg"@ || ext == "jpeg"@ {
        "image/jpeg"@
    } else if ext == "webp"@ {
        "image/webp"@
    } else if ext == "avif"@ {
        "image/avif"@
    } else if ext == "dds"@ {
        "image/vnd-ms.dds"@
    } else {
        "application/octet-stream"@
    }
}

/// The MIME type for a file extension, compared in lower case.
pub fn content_type(extension: &str) -> (r: &'static str)
    ensures
        r@ == content_type_for(str_lowercase(extension@)),
{
    let ext = to_lower(extension);
    let e = ext.as_str();
    if same_text(e, "glb") {
        "model/gltf-binary"
    } else if same_text(e, "png") {
        "image/png"
    } else if same_text(e, "jpg") || same_text(e, "jpeg") {
        "image/jpeg"
    } else if same_text(e, "webp") {
        "image/webp"
    } else if same_text(e, "avif") {
        "image/avif"
    } else if same_text(e, "dds") {
        "image/vnd-ms.dds"
    } else {
        "application/octet-stream"
    }
}

} // verus!
