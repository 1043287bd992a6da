use cyclemetry::catalogue::{
    cancel_request, demo_request, get_template_request, health_request, image_request,
    list_templates_request, load_gpx_request, open_downloads_request, open_templates_request,
    open_video_request, progress_request, render_request, save_template_request, upload_request,
    Method, Request,
};
use cyclemetry::error::{decode_text, request_build_error, transport_error, ErrorKind};
use cyclemetry::image::{image_data_url, image_reference, SOCKET_PATH};
use cyclemetry::json::{config_json, decimal_text};
use cyclemetry::lifecycle::{BackendState, LifecycleAction, LifecycleEvent};
use cyclemetry::multipart::{encode_file_part, UPLOAD_BOUNDARY};
use cyclemetry::HealthResponse;

fn body_text(r: &Request) -> String {
    String::from_utf8(r.body.clone()).unwrap()
}

fn json_of(r: &Request) -> serde_json::Value {
    assert_eq!(r.content_type.as_deref(), Some("application/json"));
    serde_json::from_slice(&r.body).unwrap()
}

#[test]
fn demo_body_holds_declared_fields() {
    let r = demo_request("{\"size\": 12, \"font\": \"Arial\"}", "ride.gpx", 42);
    assert_eq!(r.method, Method::Post);
    assert_eq!(r.path, "/api/demo");
    assert_eq!(
        body_text(&r),
        "{\"config\":{\"font\":\"Arial\",\"size\":12},\"gpx_filename\":\"ride.gpx\",\"second\":42}"
    );
    let v = json_of(&r);
    let obj = v.as_object().unwrap();
    assert_eq!(obj.len(), 3);
    assert_eq!(obj["second"], serde_json::Value::from(42u32));
}

#[test]
fn unparseable_config_goes_as_null() {
    let r = demo_request("{not json", "a.gpx", 0);
    assert_eq!(body_text(&r), "{\"config\":null,\"gpx_filename\":\"a.gpx\",\"second\":0}");
    let r = render_request("", "b.gpx");
    assert_eq!(body_text(&r), "{\"config\":null,\"gpx_filename\":\"b.gpx\"}");
    assert_eq!(r.path, "/api/render-video");
    assert!(json_of(&r)["config"].is_null());
}

#[test]
fn strings_are_escaped_in_bodies() {
    let r = load_gpx_request("C:\\tracks\\\"quoted\".gpx");
    assert_eq!(body_text(&r), "{\"path\":\"C:\\\\tracks\\\\\\\"quoted\\\".gpx\"}");
    assert_eq!(json_of(&r)["path"], "C:\\tracks\\\"quoted\".gpx");
    let r = open_video_request("line\nbreak.mp4");
    assert_eq!(r.path, "/api/open-video");
    assert_eq!(json_of(&r)["filename"], "line\nbreak.mp4");
}

#[test]
fn save_template_sends_config_as_string() {
    let r = save_template_request("{\"a\":1}", "mine.json");
    assert_eq!(r.path, "/api/save-template");
    assert_eq!(body_text(&r), "{\"config\":\"{\\\"a\\\":1}\",\"filename\":\"mine.json\"}");
    let v = json_of(&r);
    assert_eq!(v.as_object().unwrap().len(), 2);
}

#[test]
fn empty_object_bodies() {
    for r in [cancel_request(), open_templates_request(), open_downloads_request()] {
        assert_eq!(r.method, Method::Post);
        assert_eq!(body_text(&r), "{}");
    }
    assert_eq!(cancel_request().path, "/api/cancel-render");
    assert_eq!(open_templates_request().path, "/api/open-templates");
    assert_eq!(open_downloads_request().path, "/api/open-downloads");
}

#[test]
fn get_routes_carry_no_body() {
    let cases = [
        (health_request(), "/api/health"),
        (progress_request(), "/api/render-progress"),
        (list_templates_request(), "/api/templates"),
        (get_template_request("base.json"), "/templates/base.json"),
        (image_request("frame 1.png"), "/images/frame 1.png"),
    ];
    for (r, path) in cases {
        assert_eq!(r.method, Method::Get);
        assert_eq!(r.path, path);
        assert!(r.content_type.is_none());
        assert!(r.body.is_empty());
    }
    assert_eq!(Method::Get.as_str(), "GET");
    assert_eq!(Method::Post.as_str(), "POST");
}

#[test]
fn decimal_numbers() {
    assert_eq!(decimal_text(0), "0");
    assert_eq!(decimal_text(7), "7");
    assert_eq!(decimal_text(10), "10");
    assert_eq!(decimal_text(4294967295), "4294967295");
}

#[test]
fn config_is_rendered_compactly() {
    assert_eq!(config_json(" [1, 2 ,\n 3] "), "[1,2,3]");
    assert_eq!(config_json("true"), "true");
    assert_eq!(config_json("{"), "null");
}

#[test]
fn multipart_body_is_exact_and_binary_safe() {
    let data: Vec<u8> = vec![0x00, b'\n', 0xFF, 0xFE, b'\r', b'\n', 0x80];
    let body = encode_file_part("tr\u{e9}k.gpx", &data, "XYZ");
    let mut expected: Vec<u8> = Vec::new();
    expected.extend_from_slice(
        "--XYZ\r\nContent-Disposition: form-data; name=\"file\"; filename=\"tr\u{e9}k.gpx\"\r\nContent-Type: application/octet-stream\r\n\r\n"
            .as_bytes(),
    );
    expected.extend_from_slice(&data);
    expected.extend_from_slice(b"\r\n--XYZ--\r\n");
    assert_eq!(body, expected);
}

#[test]
fn multipart_round_trip_recovers_name_and_bytes() {
    let data: Vec<u8> = (0u8..=255).collect();
    let body = encode_file_part("all.bin", &data, UPLOAD_BOUNDARY);
    let head_end = body.windows(4).position(|w| w == b"\r\n\r\n").unwrap() + 4;
    let tail = format!("\r\n--{}--\r\n", UPLOAD_BOUNDARY);
    assert!(body.ends_with(tail.as_bytes()));
    assert_eq!(&body[head_end..body.len() - tail.len()], &data[..]);
    let head = String::from_utf8(body[..head_end].to_vec()).unwrap();
    let start = head.find("filename=\"").unwrap() + "filename=\"".len();
    let end = start + head[start..].find('"').unwrap();
    assert_eq!(&head[start..end], "all.bin");
}

#[test]
fn upload_request_uses_boundary_header() {
    let r = upload_request(&vec![1, 2, 3], "x.gpx");
    assert_eq!(r.method, Method::Post);
    assert_eq!(r.path, "/upload");
    assert_eq!(
        r.content_type.as_deref(),
        Some("multipart/form-data; boundary=----TauriUploadBoundary")
    );
    assert_eq!(r.body, encode_file_part("x.gpx", &vec![1, 2, 3], "----TauriUploadBoundary"));
}

#[test]
fn text_decoding_accepts_utf8() {
    let r = decode_text("{\"status\":\"ok\"} \u{1F6B4}".as_bytes().to_vec());
    assert_eq!(r.unwrap(), "{\"status\":\"ok\"} \u{1F6B4}");
    assert_eq!(decode_text(Vec::new()).unwrap(), "");
}

#[test]
fn text_decoding_rejects_invalid_utf8() {
    for bad in [vec![0xFFu8], vec![b'o', b'k', 0xC3], vec![0xED, 0xA0, 0x80]] {
        let e = decode_text(bad).unwrap_err();
        assert_eq!(e.kind, ErrorKind::Encoding);
    }
}

#[test]
fn error_kinds_and_descriptions() {
    let e = transport_error(false, "No such file or directory".to_string());
    assert_eq!(e.kind, ErrorKind::Unreachable);
    assert_eq!(e.describe(), "backend unreachable: No such file or directory");
    let e = transport_error(true, "connection reset".to_string());
    assert_eq!(e.kind, ErrorKind::Io);
    assert_eq!(e.describe(), "exchange failed: connection reset");
    let e = request_build_error("bad uri".to_string());
    assert_eq!(e.kind, ErrorKind::RequestBuild);
    assert_eq!(e.describe(), "malformed request: bad uri");
    let e = decode_text(vec![0xFF]).unwrap_err();
    assert!(e.describe().starts_with("invalid encoding: "));
}

#[test]
fn jpeg_becomes_data_url() {
    let body = vec![0xFF, 0xD8, 0xFF, 0xE0];
    let url = image_data_url(Some("image/jpeg".to_string()), &body);
    assert_eq!(url, "data:image/jpeg;base64,/9j/4A==");
}

#[test]
fn missing_content_type_defaults_to_png() {
    let url = image_data_url(None, &vec![0x89, b'P', b'N', b'G']);
    assert_eq!(url, "data:image/png;base64,iVBORw==");
    assert_eq!(image_data_url(None, &Vec::new()), "data:image/png;base64,");
}

#[test]
fn image_reference_names_socket_and_path() {
    assert_eq!(
        image_reference(SOCKET_PATH, "frame.png"),
        "http://unix:/tmp/cyclemetry.sock/images/frame.png"
    );
}

#[test]
fn lifecycle_spawn_success() {
    let (s, a) = BackendState::NotStarted.step(LifecycleEvent::Setup);
    assert_eq!(s, BackendState::Spawning);
    assert!(matches!(a, LifecycleAction::Spawn));
    let (s, a) = s.step(LifecycleEvent::Spawned);
    assert_eq!(s, BackendState::Running);
    match a {
        LifecycleAction::LogInfo(m) => assert_eq!(m, "Successfully spawned sidecar: cyclemetry-server"),
        _ => panic!("expected an info log"),
    }
    assert!(!s.is_terminal());
    let (s, _) = s.step(LifecycleEvent::Terminated);
    assert_eq!(s, BackendState::Exited);
    assert!(s.is_terminal());
}

#[test]
fn lifecycle_spawn_failure_is_terminal() {
    let (s, _) = BackendState::NotStarted.step(LifecycleEvent::Setup);
    let (s, a) = s.step(LifecycleEvent::SpawnError("permission denied".to_string()));
    assert_eq!(s, BackendState::SpawnFailed);
    match a {
        LifecycleAction::LogError(m) => assert_eq!(m, "Failed to spawn sidecar: permission denied"),
        _ => panic!("expected an error log"),
    }
    assert!(s.is_terminal());
    let (s2, a) = s.step(LifecycleEvent::Spawned);
    assert_eq!(s2, BackendState::SpawnFailed);
    assert!(matches!(a, LifecycleAction::Nothing));

    let (s, _) = BackendState::NotStarted.step(LifecycleEvent::Setup);
    let (s, a) = s.step(LifecycleEvent::CommandError("not bundled".to_string()));
    assert_eq!(s, BackendState::SpawnFailed);
    match a {
        LifecycleAction::LogError(m) => {
            assert_eq!(m, "Failed to initialize sidecar command: not bundled")
        }
        _ => panic!("expected an error log"),
    }
}

#[test]
fn lifecycle_ignores_events_out_of_order() {
    let (s, a) = BackendState::NotStarted.step(LifecycleEvent::Spawned);
    assert_eq!(s, BackendState::NotStarted);
    assert!(matches!(a, LifecycleAction::Nothing));
    let (s, _) = BackendState::Running.step(LifecycleEvent::Setup);
    assert_eq!(s, BackendState::Running);
}

#[test]
fn health_response_holds_fields() {
    let h = HealthResponse { status: "ok".to_string(), message: "ready".to_string() };
    assert_eq!(h.clone().status, "ok");
    assert_eq!(h.message, "ready");
}
