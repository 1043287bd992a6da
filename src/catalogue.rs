//! The operations that the backend offers, and the request for each.

use vstd::prelude::*;
use vstd::utf8::encode_utf8;
use crate::json::{
    config_json, config_value, decimal, decimal_text, json_object, json_quoted, member_keys,
    normalized_json, quote_json,
    write_object,
};
use crate::multipart::{encode_file_part, file_part, UPLOAD_BOUNDARY};

verus! {

/// The HTTP methods that the catalogue uses.
#[derive(Clone, Copy, Debug, PartialEq, Eq, Structural)]
pub enum Method {
    Get,
    Post,
}

impl Method {
    pub fn as_str(&self) -> (r: &'static str)
        ensures
            *self == Method::Get ==> r@ == "GET"@,
            *self == Method::Post ==> r@ == "POST"@,
    {
        match self {
            Method::Get => "GET",
            Method::Post => "POST",
        }
    }
}

/// One entry of the catalogue.
#[derive(Clone, Copy, Debug, PartialEq, Eq, Structural)]
pub enum Operation {
    Health,
    Demo,
    RenderVideo,
    RenderProgress,
    CancelRender,
    LoadGpx,
    ListTemplates,
    GetTemplate,
    SaveTemplate,
    OpenTemplates,
    OpenDownloads,
    OpenVideo,
    Upload,
    FetchImage,
}

/// The method with which each operation is reached.
pub open spec fn operation_method(op: Operation) -> Method {
    match op {
        Operation::Health | Operation::RenderProgress | Operation::ListTemplates
        | Operation::GetTemplate | Operation::FetchImage => Method::Get,
        _ => Method::Post,
    }
}

/// The path of each operation; `name` fills the one that embeds a file name.
pub open spec fn operation_path(op: Operation, name: Seq<char>) -> Seq<char> {
    match op {
        Operation::Health => "/api/health"@,
        Operation::Demo => "/api/demo"@,
        Operation::RenderVideo => "/api/render-video"@,
        Operation::RenderProgress => "/api/render-progress"@,
        Operation::CancelRender => "/api/cancel-render"@,
        Operation::LoadGpx => "/api/load-gpx"@,
        Operation::ListTemplates => "/api/templates"@,
        Operation::GetTemplate => "/templates/"@ + name,
        Operation::SaveTemplate => "/api/save-template"@,
        Operation::OpenTemplates => "/api/open-templates"@,
        Operation::OpenDownloads => "/api/open-downloads"@,
        Operation::OpenVideo => "/api/open-video"@,
        Operation::Upload => "/upload"@,
        Operation::FetchImage => "/images/"@ + name,
    }
}

/// The request for one call: what the transport writes to the socket.
#[derive(Clone, Debug)]
pub struct Request {
    pub method: Method,
    pub path: String,
    /// The `Content-Type` header; present exactly when a body is sent.
    pub content_type: Option<String>,
    pub body: Vec<u8>,
}

impl Request {
    /// The request reaches `op` with the method and path of the catalogue.
    pub open spec fn routes(&self, op: Operation, name: Seq<char>) -> bool {
        self.method == operation_method(op) && self.path@ == operation_path(op, name)
    }

    /// A request without a body.
    pub open spec fn is_bare(&self) -> bool {
        self.content_type is None && self.body@.len() == 0
    }

    /// A request whose body is the JSON text `text`.
    pub open spec fn carries_json(&self, text: Seq<char>) -> bool {
        &&& self.content_type matches Some(c) && c@ == "application/json"@
        &&& self.body@ == encode_utf8(text)
    }
}

fn bare_request(method: Method, path: String) -> (r: Request)
    ensures
        r.method == method,
        r.path@ == path@,
        r.is_bare(),
{
    Request { method, path, content_type: None, body: Vec::new() }
}

fn json_request(path: String, text: String) -> (r: Request)
    ensures
        r.method == Method::Post,
        r.path@ == path@,
        r.carries_json(text@),
{
    let body = vstd::slice::slice_to_vec(text.as_str().as_bytes());
    proof {
        reveal_strlit("application/json");
    }
    Request {
        method: Method::Post,
        path,
        content_type: Some(String::from_str("application/json")),
        body,
    }
}

fn prefixed(prefix: &str, name: &str) -> (r: String)
    ensures
        r@ == prefix@ + name@,
{
    let mut r = String::from_str(prefix);
    r.append(name);
    r
}

/// The members of the body of a demo frame request.
pub open spec fn demo_members(config: Seq<char>, gpx_filename: Seq<char>, second: nat) -> Seq<
    (Seq<char>, Seq<char>),
> {
    seq![
        ("config"@, config_value(config)),
        ("gpx_filename"@, json_quoted(gpx_filename)),
        ("second"@, decimal(second)),
    ]
}

/// The members of the body of a render request.
pub open spec fn render_members(config: Seq<char>, gpx_filename: Seq<char>) -> Seq<
    (Seq<char>, Seq<char>),
> {
    seq![("config"@, config_value(config)), ("gpx_filename"@, json_quoted(gpx_filename))]
}

/// The members of the body of a save request: the configuration goes as a
/// string, as the backend stores it verbatim.
pub open spec fn save_members(config: Seq<char>, filename: Seq<char>) -> Seq<
    (Seq<char>, Seq<char>),
> {
    seq![("config"@, json_quoted(config)), ("filename"@, json_quoted(filename))]
}

/// A body with one string member.
pub open spec fn single_member(key: Seq<char>, value: Seq<char>) -> Seq<(Seq<char>, Seq<char>)> {
    seq![(key, json_quoted(value))]
}

/// The empty JSON object.
pub open spec fn no_members() -> Seq<(Seq<char>, Seq<char>)> {
    Seq::empty()
}

pub fn health_request() -> (r: Request)
    ensures
        r.routes(Operation::Health, Seq::empty()),
        r.is_bare(),
{
    proof { reveal_strlit("/api/health"); }
    bare_request(Method::Get, String::from_str("/api/health"))
}

pub fn progress_request() -> (r: Request)
    ensures
        r.routes(Operation::RenderProgress, Seq::empty()),
        r.is_bare(),
{
    proof { reveal_strlit("/api/render-progress"); }
    bare_request(Method::Get, String::from_str("/api/render-progress"))
}

pub fn list_templates_request() -> (r: Request)
    ensures
        r.routes(Operation::ListTemplates, Seq::empty()),
        r.is_bare(),
{
    proof { reveal_strlit("/api/templates"); }
    bare_request(Method::Get, String::from_str("/api/templates"))
}

/// The name goes into the path as it is, without percent-encoding.
pub fn get_template_request(filename: &str) -> (r: Request)
    ensures
        r.routes(Operation::GetTemplate, filename@),
        r.is_bare(),
{
    proof { reveal_strlit("/templates/"); }
    bare_request(Method::Get, prefixed("/templates/", filename))
}

/// The name goes into the path as it is, without percent-encoding.
pub fn image_request(filename: &str) -> (r: Request)
    ensures
        r.routes(Operation::FetchImage, filename@),
        r.is_bare(),
{
    proof { reveal_strlit("/images/"); }
    bare_request(Method::Get, prefixed("/images/", filename))
}

pub fn demo_request(config: &str, gpx_filename: &str, second: u32) -> (r: Request)
    ensures
        r.routes(Operation::Demo, Seq::empty()),
        r.carries_json(json_object(demo_members(config@, gpx_filename@, second as nat))),
{
    proof {
        reveal_strlit("/api/demo");
        reveal_strlit("config");
        reveal_strlit("gpx_filename");
        reveal_strlit("second");
    }
    let mut members: Vec<(&str, String)> = Vec::new();
    members.push(("config", config_json(config)));
    members.push(("gpx_filename", quote_json(gpx_filename)));
    members.push(("second", decimal_text(second)));
    let text = write_object(&members);
    assert(members.deep_view() =~= demo_members(config@, gpx_filename@, second as nat));
    json_request(String::from_str("/api/demo"), text)
}

pub fn render_request(config: &str, gpx_filename: &str) -> (r: Request)
    ensures
        r.routes(Operation::RenderVideo, Seq::empty()),
        r.carries_json(json_object(render_members(config@, gpx_filename@))),
{
    proof {
        reveal_strlit("/api/render-video");
        reveal_strlit("config");
        reveal_strlit("gpx_filename");
    }
    let mut members: Vec<(&str, String)> = Vec::new();
    members.push(("config", config_json(config)));
    members.push(("gpx_filename", quote_json(gpx_filename)));
    let text = write_object(&members);
    assert(members.deep_view() =~= render_members(config@, gpx_filename@));
    json_request(String::from_str("/api/render-video"), text)
}

pub fn save_template_request(config: &str, filename: &str) -> (r: Request)
    ensures
        r.routes(Operation::SaveTemplate, Seq::empty()),
        r.carries_json(json_object(save_members(config@, filename@))),
{
    proof {
        reveal_strlit("/api/save-template");
        reveal_strlit("config");
        reveal_strlit("filename");
    }
    let mut members: Vec<(&str, String)> = Vec::new();
    members.push(("config", quote_json(config)));
    members.push(("filename", quote_json(filename)));
    let text = write_object(&members);
    assert(members.deep_view() =~= save_members(config@, filename@));
    json_request(String::from_str("/api/save-template"), text)
}

fn single_member_request(path: String, key: &str, value: &str) -> (r: Request)
    ensures
        r.method == Method::Post,
        r.path@ == path@,
        r.carries_json(json_object(single_member(key@, value@))),
{
    let mut members: Vec<(&str, String)> = Vec::new();
    members.push((key, quote_json(value)));
    let text = write_object(&members);
    assert(members.deep_view() =~= single_member(key@, value@));
    json_request(path, text)
}

pub fn load_gpx_request(path: &str) -> (r: Request)
    ensures
        r.routes(Operation::LoadGpx, Seq::empty()),
        r.carries_json(json_object(single_member("path"@, path@))),
{
    proof { reveal_strlit("/api/load-gpx"); }
    single_member_request(String::from_str("/api/load-gpx"), "path", path)
}

pub fn open_video_request(filename: &str) -> (r: Request)
    ensures
        r.routes(Operation::OpenVideo, Seq::empty()),
        r.carries_json(json_object(single_member("filename"@, filename@))),
{
    proof { reveal_strlit("/api/open-video"); }
    single_member_request(String::from_str("/api/open-video"), "filename", filename)
}

fn empty_object_request(path: String) -> (r: Request)
    ensures
        r.method == Method::Post,
        r.path@ == path@,
        r.carries_json(json_object(no_members())),
{
    let members: Vec<(&str, String)> = Vec::new();
    let text = write_object(&members);
    assert(members.deep_view() =~= no_members());
    json_request(path, text)
}

pub fn cancel_request() -> (r: Request)
    ensures
        r.routes(Operation::CancelRender, Seq::empty()),
        r.carries_json(json_object(no_members())),
{
    proof { reveal_strlit("/api/cancel-render"); }
    empty_object_request(String::from_str("/api/cancel-render"))
}

pub fn open_templates_request() -> (r: Request)
    ensures
        r.routes(Operation::OpenTemplates, Seq::empty()),
        r.carries_json(json_object(no_members())),
{
    proof { reveal_strlit("/api/open-templates"); }
    empty_object_request(String::from_str("/api/open-templates"))
}

pub fn open_downloads_request() -> (r: Request)
    ensures
        r.routes(Operation::OpenDownloads, Seq::empty()),
        r.carries_json(json_object(no_members())),
{
    proof { reveal_strlit("/api/open-downloads"); }
    empty_object_request(String::from_str("/api/open-downloads"))
}

/// The `Content-Type` of an upload that uses `boundary`.
pub open spec fn multipart_content_type(boundary: Seq<char>) -> Seq<char> {
    "multipart/form-data; boundary="@ + boundary
}

/// Uploads a file as the single part of a multipart body.
pub fn upload_request(file_data: &Vec<u8>, filename: &str) -> (r: Request)
    ensures
        r.routes(Operation::Upload, Seq::empty()),
        r.content_type matches Some(c) && c@ == multipart_content_type(UPLOAD_BOUNDARY@),
        r.body@ == file_part(filename@, file_data@, UPLOAD_BOUNDARY@),
{
    proof { reveal_strlit("/upload"); }
    let body = encode_file_part(filename, file_data, UPLOAD_BOUNDARY);
    Request {
        method: Method::Post,
        path: String::from_str("/upload"),
        content_type: Some(prefixed("multipart/form-data; boundary=", UPLOAD_BOUNDARY)),
        body,
    }
}

} // verus!

verus! {

/// Each JSON body holds exactly the members that its operation declares,
/// each once, and a configuration that does not parse goes as `null`.
pub proof fn lemma_json_bodies_declare_their_fields(
    config: Seq<char>,
    gpx_filename: Seq<char>,
    second: nat,
    filename: Seq<char>,
    path: Seq<char>,
)
    ensures
        member_keys(demo_members(config, gpx_filename, second)) == seq![
            "config"@,
            "gpx_filename"@,
            "second"@,
        ],
        member_keys(render_members(config, gpx_filename)) == seq!["config"@, "gpx_filename"@],
        member_keys(save_members(config, filename)) == seq!["config"@, "filename"@],
        member_keys(single_member("path"@, path)) == seq!["path"@],
        member_keys(single_member("filename"@, filename)) == seq!["filename"@],
        member_keys(no_members()).len() == 0,
        member_keys(demo_members(config, gpx_filename, second)).no_duplicates(),
        member_keys(render_members(config, gpx_filename)).no_duplicates(),
        member_keys(save_members(config, filename)).no_duplicates(),
        normalized_json(config) is None ==> demo_members(config, gpx_filename, second)[0].1
            == "null"@ && render_members(config, gpx_filename)[0].1 == "null"@,
{
    reveal_strlit("config");
    reveal_strlit("gpx_filename");
    reveal_strlit("second");
    reveal_strlit("filename");
    reveal_strlit("null");
    assert(member_keys(demo_members(config, gpx_filename, second)) =~= seq![
        "config"@,
        "gpx_filename"@,
        "second"@,
    ]);
    assert(member_keys(render_members(config, gpx_filename)) =~= seq!["config"@, "gpx_filename"@]);
    assert(member_keys(save_members(config, filename)) =~= seq!["config"@, "filename"@]);
    assert(member_keys(single_member("path"@, path)) =~= seq!["path"@]);
    assert(member_keys(single_member("filename"@, filename)) =~= seq!["filename"@]);
    assert("config"@ != "gpx_filename"@) by { assert("config"@.len() != "gpx_filename"@.len()); };
    assert("config"@ != "second"@) by { assert("config"@[0] != "second"@[0]); };
    assert("second"@ != "gpx_filename"@) by { assert("second"@.len() != "gpx_filename"@.len()); };
    assert("config"@ != "filename"@) by { assert("config"@.len() != "filename"@.len()); };
}

} // verus!

verus! {

/// No two operations share a route: whatever names fill the paths, a method
/// and path of the catalogue lead to one operation only.
pub proof fn lemma_routes_are_distinct(a: Operation, b: Operation, name_a: Seq<char>, name_b: Seq<char>)
    requires
        a != b,
    ensures
        operation_method(a) != operation_method(b)
            || operation_path(a, name_a) != operation_path(b, name_b),
{
    reveal_strlit("/api/health");
    reveal_strlit("/api/demo");
    reveal_strlit("/api/render-video");
    reveal_strlit("/api/render-progress");
    reveal_strlit("/api/cancel-render");
    reveal_strlit("/api/load-gpx");
    reveal_strlit("/api/templates");
    reveal_strlit("/templates/");
    reveal_strlit("/api/save-template");
    reveal_strlit("/api/open-templates");
    reveal_strlit("/api/open-downloads");
    reveal_strlit("/api/open-video");
    reveal_strlit("/upload");
    reveal_strlit("/images/");
    let pa = operation_path(a, name_a);
    let pb = operation_path(b, name_b);
    if operation_method(a) == operation_method(b) && pa == pb {
        assert(pa.len() == pb.len());
        assert(pa[1] == pb[1]);
        assert(pa[5] == pb[5]);
        assert(pa[10] == pb[10]);
    }
}

} // verus!
