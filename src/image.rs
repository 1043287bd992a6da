//! Images fetched from the backend, handed on as data URLs.

use vstd::prelude::*;

verus! {

/// The rendezvous path of the backend's socket.
pub const SOCKET_PATH: &'static str = "/tmp/cyclemetry.sock";

/// The media type assumed when a response names none.
pub const DEFAULT_IMAGE_TYPE: &'static str = "image/png";

/// The standard base64 text, with padding, of `bytes`.
pub uninterp spec fn standard_base64(bytes: Seq<u8>) -> Seq<char>;

/// Relies on `base64::engine::general_purpose::STANDARD.encode`: the standard
/// alphabet with padding.
#[verifier::external_body]
fn encode_base64(bytes: &Vec<u8>) -> (r: String)
    ensures
        r@ == standard_base64(bytes@),
{
    base64::Engine::encode(&base64::engine::general_purpose::STANDARD, bytes.as_slice())
}

/// The media type of a fetched image: the response's `content-type` header
/// where it had a readable one, else the default.
pub open spec fn image_type(content_type: Option<Seq<char>>) -> Seq<char> {
    match content_type {
        Some(t) => t,
        None => DEFAULT_IMAGE_TYPE@,
    }
}

/// The data URL that carries `body` with the media type `media_type`.
pub open spec fn data_url(media_type: Seq<char>, body: Seq<u8>) -> Seq<char> {
    "data:"@ + media_type + ";base64,"@ + standard_base64(body)
}

pub open spec fn option_view(o: Option<String>) -> Option<Seq<char>> {
    match o {
        Some(s) => Some(s@),
        None => None,
    }
}

/// Turns an image response into a data URL. `content_type` is the
/// response's `content-type` header where it was present and readable.
pub fn image_data_url(content_type: Option<String>, body: &Vec<u8>) -> (r: String)
    ensures
        r@ == data_url(image_type(option_view(content_type)), body@),
{
    proof {
        reveal_strlit("data:");
        reveal_strlit(";base64,");
        reveal_strlit("image/png");
    }
    let media_type = match content_type {
        Some(t) => t,
        None => String::from_str(DEFAULT_IMAGE_TYPE),
    };
    let mut r = String::from_str("data:");
    r.append(media_type.as_str());
    r.append(";base64,");
    let payload = encode_base64(body);
    r.append(payload.as_str());
    r
}

/// The address under which the backend serves an image, for callers that
/// want a reference rather than the bytes.
pub open spec fn image_address(socket_path: Seq<char>, filename: Seq<char>) -> Seq<char> {
    "http://unix:"@ + socket_path + "/images/"@ + filename
}

pub fn image_reference(socket_path: &str, filename: &str) -> (r: String)
    ensures
        r@ == image_address(socket_path@, filename@),
{
    proof {
        reveal_strlit("http://unix:");
        reveal_strlit("/images/");
    }
    let mut r = String::from_str("http://unix:");
    r.append(socket_path);
    r.append("/images/");
    r.append(filename);
    r
}

} // verus!
