use rust_clipboard_uploader::config::Config;
use rust_clipboard_uploader::json::parse_json;
use rust_clipboard_uploader::request::{build_upload_request, Method};

#[test]
fn defaults_send_a_post() {
    let r = build_upload_request(&Config::default(), vec![1, 2, 3]);
    assert_eq!(r.method, Method::Post);
    assert_eq!(r.url, "https://0x0.st");
    assert_eq!(r.file_field, "file");
    assert_eq!(r.file_name, "screenshot.png");
    assert_eq!(r.mime, "image/png");
    assert_eq!(r.image, vec![1, 2, 3]);
    assert!(r.headers.is_empty());
}

#[test]
fn method_is_read_in_any_case() {
    let cases: [(Option<&str>, Method); 6] = [
        (None, Method::Post),
        (Some("PUT"), Method::Put),
        (Some("pUt"), Method::Put),
        (Some("POST"), Method::Post),
        (Some("PUTS"), Method::Post),
        (Some(""), Method::Post),
    ];
    for (method, expected) in cases {
        let mut cfg = Config::default();
        cfg.method = method.map(|m| m.to_string());
        assert_eq!(build_upload_request(&cfg, vec![]).method, expected);
    }
}

#[test]
fn field_falls_back() {
    let mut cfg = Config::default();
    cfg.file_field = Some("picture".to_string());
    assert_eq!(build_upload_request(&cfg, vec![]).file_field, "picture");
    cfg.file_field = None;
    assert_eq!(build_upload_request(&cfg, vec![]).file_field, "file");
}

#[test]
fn headers_come_from_an_object() {
    let mut cfg = Config::default();
    cfg.headers = parse_json("{\"X-Count\":3,\"Authorization\":\"Bearer t\",\"X-List\":[1,true]}");
    let r = build_upload_request(&cfg, vec![]);
    let expected: Vec<(String, String)> = vec![
        ("Authorization".to_string(), "Bearer t".to_string()),
        ("X-Count".to_string(), "3".to_string()),
        ("X-List".to_string(), "[1,true]".to_string()),
    ];
    assert_eq!(r.headers, expected);
    cfg.headers = parse_json("[\"Authorization\"]");
    assert!(build_upload_request(&cfg, vec![]).headers.is_empty());
}
