use rust_clipboard_uploader::config::Config;
use rust_clipboard_uploader::json::{json_from_value, parse_json};
use rust_clipboard_uploader::response::{
    extract_src_from_response, extract_url_from_response, parse_upload_response, path_of_rule,
    read_answer, src_from_json, src_of_answer, url_from_json, url_of_answer,
};

fn with_rule(rule: &str) -> Config {
    let mut cfg = Config::default();
    cfg.response = Some(rule.to_string());
    cfg
}

fn url(rule: &str, text: &str) -> Option<String> {
    extract_url_from_response(&with_rule(rule), text)
}

fn some(text: &str) -> Option<String> {
    Some(text.to_string())
}

#[test]
fn nested_member_is_read() {
    let text = "{\"data\":{\"url\":\"https://img.example.com/abc.png\"}}";
    assert_eq!(url("json.data.url", text), some("https://img.example.com/abc.png"));
}

#[test]
fn whole_text_is_the_link() {
    assert_eq!(url("text", " https://0x0.st/a.png\n"), some("https://0x0.st/a.png"));
    assert_eq!(url("", "\u{3000}x\u{a0}"), some("x"));
    assert_eq!(url("  text  ", "{\"url\":1}"), some("{\"url\":1}"));
    let mut cfg = Config::default();
    cfg.response = None;
    assert_eq!(extract_url_from_response(&cfg, "\tlink \n"), some("link"));
}

#[test]
fn member_and_element_are_read() {
    assert_eq!(url("json.url", "{\"url\":\"u\"}"), some("u"));
    assert_eq!(url("json.data.link", "{\"data\":{\"link\":\"l\"}}"), some("l"));
    assert_eq!(url("[0].url", "[{\"url\":\"first\"},{\"url\":\"second\"}]"), some("first"));
    assert_eq!(url("[1].url", "[{\"url\":\"first\"},{\"url\":\"second\"}]"), some("second"));
    assert_eq!(url("url", "[{\"url\":\"first\"}]"), some("first"));
    assert_eq!(url("json.+1.url", "[0,{\"url\":\"plus\"}]"), some("plus"));
}

#[test]
fn brackets_after_json_stay_in_the_path() {
    assert_eq!(url("json.[0].url", "[{\"url\":\"u\"}]"), None);
    assert_eq!(url("json.[0]", "{\"[0]\":\"kept\"}"), some("kept"));
}

#[test]
fn json_alone_takes_the_answer_or_its_first_element() {
    assert_eq!(url("json", "\"plain\""), some("plain"));
    assert_eq!(url("json", "[\"first\",\"second\"]"), some("first"));
    assert_eq!(url("json", "[]"), None);
    assert_eq!(url("json", "{\"b\":1,\"a\":[true,null]}"), some("{\"a\":[true,null],\"b\":1}"));
    assert_eq!(url("json.", "[7]"), some("7"));
}

#[test]
fn empty_segments_are_passed_over() {
    assert_eq!(url("json..data..url.", "{\"data\":{\"url\":\"u\"}}"), some("u"));
}

#[test]
fn what_is_no_string_is_rendered() {
    assert_eq!(url("json.n", "{\"n\": 1.50}"), some("1.5"));
    assert_eq!(url("json.n", "{\"n\": [ 1 , \"x\\n\" ]}"), some("[1,\"x\\n\"]"));
    assert_eq!(url("json.n", "{\"n\": null}"), some("null"));
}

#[test]
fn missing_parts_give_no_link() {
    assert_eq!(url("json.url", "not json"), None);
    assert_eq!(url("json.url", "{}"), None);
    assert_eq!(url("json.0", "{\"0\":\"x\"}"), None);
    assert_eq!(url("[3].url", "[{\"url\":\"u\"}]"), None);
    assert_eq!(url("json.a.b", "{\"a\":\"text\"}"), None);
    assert_eq!(url("url", "[]"), None);
}

#[test]
fn rules_name_paths() {
    assert_eq!(path_of_rule("json.data.url"), "data.url");
    assert_eq!(path_of_rule("json"), "");
    assert_eq!(path_of_rule("[0].url"), "0.url");
    assert_eq!(path_of_rule("jsonx.url"), "jsonx.url");
}

#[test]
fn paths_lead_on_from_each_other() {
    let json = parse_json("{\"a\":{\"b\":[{\"c\":\"deep\"}]}}").unwrap();
    assert_eq!(url_from_json(&json, "a.b.c"), some("deep"));
    let inner = json.get_key("a").unwrap();
    assert_eq!(url_from_json(inner, "b.c"), some("deep"));
    assert_eq!(url_from_json(inner.get_key("b").unwrap(), "0.c"), some("deep"));
}

#[test]
fn src_is_found_where_it_is() {
    assert_eq!(extract_src_from_response("{\"src\":\"s\"}"), "s");
    assert_eq!(extract_src_from_response("[{\"src\":\"first\"},{\"src\":\"second\"}]"), "first");
    assert_eq!(extract_src_from_response("[]"), "");
    assert_eq!(extract_src_from_response("{\"src\":5}"), "");
    assert_eq!(extract_src_from_response("no json"), "");
    assert_eq!(src_from_json(&parse_json("{\"x\":1,\"src\":\"\\u00e9\"}").unwrap()), "\u{e9}");
}

#[test]
fn values_are_copied_whole() {
    let value: serde_json::Value = serde_json::from_str("{\"k\":[\"v\",{\"n\":-3}]}").unwrap();
    let json = json_from_value(&value);
    assert_eq!(json.text, "{\"k\":[\"v\",{\"n\":-3}]}");
    let list = json.get_key("k").unwrap();
    assert!(list.is_array());
    assert_eq!(list.get_index(0).unwrap().as_text(), "v");
    assert_eq!(list.get_index(1).unwrap().get_key("n").unwrap().as_text(), "-3");
    let copy = json.clone();
    assert_eq!(copy.text, json.text);
    assert_eq!(copy.get_key("k").unwrap().get_index(1).unwrap().as_text(), "{\"n\":-3}");
}

#[test]
fn answers_with_success_give_link_and_src() {
    let text = "{\"url\":\"u\",\"src\":\"s\"}";
    match parse_upload_response(&with_rule("json.url"), 200, text) {
        Ok((u, s)) => {
            assert_eq!(u, "u");
            assert_eq!(s, "s");
        }
        Err(_) => panic!("a success is no failure"),
    }
    match parse_upload_response(&with_rule("text"), 299, " plain\n") {
        Ok((u, s)) => {
            assert_eq!(u, "plain");
            assert_eq!(s, "");
        }
        Err(_) => panic!("a success is no failure"),
    }
}

#[test]
fn answers_without_a_link_are_failures_that_stay() {
    let cases: [(&str, &str, &str); 3] = [
        ("json.url", "not json", "响应解析失败: json.url — not json"),
        (" json.nowhere ", "{\"url\":\"u\"}\n", "响应解析失败: json.nowhere — {\"url\":\"u\"}"),
        ("json", "[]", "响应解析失败: json — []"),
    ];
    for (rule, text, message) in cases {
        for code in [200, 299] {
            match parse_upload_response(&with_rule(rule), code, text) {
                Ok(_) => panic!("there is no link"),
                Err(f) => {
                    assert_eq!(f.message, message);
                    assert!(!f.retryable);
                }
            }
        }
    }
}

#[test]
fn answers_with_failure_say_why() {
    let cases: [(u16, &str, bool); 7] = [
        (429, "请求失败: 429 Too Many Requests — busy", true),
        (500, "请求失败: 500 Internal Server Error — busy", true),
        (599, "请求失败: 599 <unknown status code> — busy", true),
        (600, "请求失败: 600 <unknown status code> — busy", false),
        (404, "请求失败: 404 Not Found — busy", false),
        (302, "请求失败: 302 Found — busy", false),
        (199, "请求失败: 199 <unknown status code> — busy", false),
    ];
    for (code, message, retryable) in cases {
        match parse_upload_response(&Config::default(), code, " busy\n") {
            Ok(_) => panic!("{} is no success", code),
            Err(f) => {
                assert_eq!(f.message, message);
                assert_eq!(f.retryable, retryable);
            }
        }
    }
}

#[test]
fn answers_are_read_from_given_parts() {
    let cfg = with_rule("json.url");
    let parsed = parse_json("{\"url\":\"u\",\"src\":\"s\"}");
    assert_eq!(url_of_answer(&cfg, "anything", &parsed), some("u"));
    assert_eq!(url_of_answer(&cfg, "anything", &None), None);
    assert_eq!(src_of_answer(&parsed), "s");
    assert_eq!(src_of_answer(&None), "");
    match read_answer(&cfg, 200, "200 OK", "anything", &parsed) {
        Ok((u, s)) => assert_eq!((u.as_str(), s.as_str()), ("u", "s")),
        Err(_) => panic!("a success is no failure"),
    }
    match read_answer(&cfg, 200, "200 OK", " raw ", &None) {
        Ok(_) => panic!("there is no link"),
        Err(f) => {
            assert_eq!(f.message, "响应解析失败: json.url — raw");
            assert!(!f.retryable);
        }
    }
    match read_answer(&cfg, 502, "502 Bad Gateway", " gone ", &parsed) {
        Ok(_) => panic!("a failure is no success"),
        Err(f) => {
            assert_eq!(f.message, "请求失败: 502 Bad Gateway — gone");
            assert!(f.retryable);
        }
    }
}
