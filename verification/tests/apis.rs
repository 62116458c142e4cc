use std::collections::HashMap;

use base64::Engine;

use nethsm_sdk_rs::apis::basic_auth::{basic_auth_credentials, basic_auth_header};
use nethsm_sdk_rs::apis::text::decimal_string;
use nethsm_sdk_rs::apis::{
    basic_auth, is_deep_object, parse_deep_object, urlencode, Error, JsonValue, ResponseContent,
};

fn s(x: &str) -> String {
    x.to_owned()
}

fn pairs(v: &[(&str, &str)]) -> Vec<(String, String)> {
    v.iter().map(|(a, b)| (s(a), s(b))).collect()
}

#[test]
fn urlencode_examples() {
    assert_eq!(urlencode("hello world"), "hello+world");
    assert_eq!(urlencode("a&b=c/d"), "a%26b%3Dc%2Fd");
    assert_eq!(urlencode("*-._azAZ09"), "*-._azAZ09");
    assert_eq!(urlencode("~!"), "%7E%21");
    assert_eq!(urlencode("ä"), "%C3%A4");
    assert_eq!(urlencode(""), "");
    assert_eq!(urlencode("mynamespace~"), "mynamespace%7E");
}

#[test]
fn urlencode_agrees_with_form_urlencoded() {
    let mut inputs: Vec<String> = (0u32..0x250)
        .filter_map(char::from_u32)
        .map(|c| c.to_string())
        .collect();
    inputs.push(s("key id with spaces/and+plus"));
    inputs.push(s("\u{1F600} emoji"));
    for input in inputs {
        let expected: String = url::form_urlencoded::byte_serialize(input.as_bytes()).collect();
        assert_eq!(urlencode(&input), expected, "input {input:?}");
    }
}

fn sample_object() -> JsonValue {
    JsonValue::Object(vec![
        (s("a"), JsonValue::String(s("x y"))),
        (s("b"), JsonValue::Number(s("1"))),
        (s("c"), JsonValue::Bool(true)),
        (s("d"), JsonValue::Null),
        (s("e"), JsonValue::Object(vec![(s("f"), JsonValue::String(s("g")))])),
        (
            s("h"),
            JsonValue::Array(vec![
                JsonValue::Object(vec![(s("i"), JsonValue::String(s("j")))]),
                JsonValue::Object(vec![(s("k"), JsonValue::Number(s("-2.5")))]),
            ]),
        ),
        (s("l"), JsonValue::Bool(false)),
    ])
}

#[test]
fn deep_object_flattening() {
    let v = sample_object();
    assert!(is_deep_object(&v));
    assert_eq!(
        parse_deep_object("p", &v),
        pairs(&[
            ("p[a]", "x y"),
            ("p[b]", "1"),
            ("p[c]", "true"),
            ("p[d]", "null"),
            ("p[e][f]", "g"),
            ("p[h][0][i]", "j"),
            ("p[h][1][k]", "-2.5"),
            ("p[l]", "false"),
        ])
    );
}

#[test]
fn deep_object_empty_and_nested_empty() {
    let v = JsonValue::Object(vec![]);
    assert!(is_deep_object(&v));
    assert_eq!(parse_deep_object("filter", &v), Vec::<(String, String)>::new());
    let v = JsonValue::Object(vec![
        (s("e"), JsonValue::Object(vec![])),
        (s("a"), JsonValue::Array(vec![])),
    ]);
    assert!(is_deep_object(&v));
    assert_eq!(parse_deep_object("q", &v), Vec::<(String, String)>::new());
}

#[test]
fn deep_object_many_items() {
    let items: Vec<JsonValue> = (0..12)
        .map(|i| JsonValue::Object(vec![(s("n"), JsonValue::Number(i.to_string()))]))
        .collect();
    let v = JsonValue::Object(vec![(s("list"), JsonValue::Array(items))]);
    let out = parse_deep_object("", &v);
    assert_eq!(out.len(), 12);
    assert_eq!(out[0], (s("[list][0][n]"), s("0")));
    assert_eq!(out[11], (s("[list][11][n]"), s("11")));
}

#[test]
fn deep_object_refuses_what_it_cannot_flatten() {
    assert!(!is_deep_object(&JsonValue::Null));
    assert!(!is_deep_object(&JsonValue::String(s("x"))));
    assert!(!is_deep_object(&JsonValue::Array(vec![])));
    let v = JsonValue::Object(vec![(s("h"), JsonValue::Array(vec![JsonValue::String(s("x"))]))]);
    assert!(!is_deep_object(&v));
    let v = JsonValue::Object(vec![(
        s("e"),
        JsonValue::Object(vec![(s("h"), JsonValue::Array(vec![JsonValue::Bool(true)]))]),
    )]);
    assert!(!is_deep_object(&v));
}

#[test]
fn basic_auth_values() {
    let auth = (s("admin"), Some(s("adminadmin")));
    assert_eq!(basic_auth_credentials(&auth), "admin:adminadmin");
    assert_eq!(basic_auth(&auth), "Basic YWRtaW46YWRtaW5hZG1pbg==");
    let auth = (s("user"), None);
    assert_eq!(basic_auth_credentials(&auth), "user:");
    assert_eq!(basic_auth(&auth), "Basic dXNlcjo=");
    let auth = (s("backup"), Some(s("backupbackup")));
    assert_eq!(basic_auth(&auth), "Basic YmFja3VwOmJhY2t1cGJhY2t1cA==");
    assert_eq!(basic_auth_header("abc"), "Basic abc");
}

#[test]
fn decimal_strings() {
    assert_eq!(decimal_string(0), "0");
    assert_eq!(decimal_string(7), "7");
    assert_eq!(decimal_string(412), "412");
    assert_eq!(decimal_string(1000), "1000");
    assert_eq!(decimal_string(u64::MAX), u64::MAX.to_string());
}

#[test]
fn response_content_unit_and_bytes() {
    let mut headers = HashMap::new();
    headers.insert(s("content-type"), s("application/octet-stream"));
    let r = ResponseContent::unit(204, vec![], headers.clone());
    assert_eq!(r.status, 204);
    assert!(r.content.is_empty());
    assert_eq!(r.headers, headers);
    let r = ResponseContent::bytes(200, vec![1, 2, 3], headers.clone());
    assert_eq!(r.entity, vec![1, 2, 3]);
    assert_eq!(r.content, vec![1, 2, 3]);
    assert_eq!(r.headers, headers);
}

#[test]
fn response_content_string() {
    let r = ResponseContent::string::<()>(200, "grüße".as_bytes().to_vec(), HashMap::new()).unwrap();
    assert_eq!(r.entity, "grüße");
    assert_eq!(r.status, 200);
    let e = ResponseContent::string::<()>(200, vec![0x66, 0xff, 0x6f], HashMap::new()).unwrap_err();
    assert!(matches!(e, Error::StringParse(_)));
    assert!(e.to_string().starts_with("error in string: "));
}

#[test]
fn error_messages() {
    let content = ResponseContent::unit(412, b"Service not available".to_vec(), HashMap::new());
    let e: Error<()> = Error::ResponseError(content);
    assert_eq!(e.to_string(), "error in response: status code 412");

    let io = std::io::Error::new(std::io::ErrorKind::Other, "disk on fire");
    let e: Error<()> = Error::from(io);
    assert!(matches!(e, Error::Io(_)));
    assert_eq!(e.to_string(), "error in IO: disk on fire");

    let e: Error<()> = Error::Multipart {
        field: Some(s("backup")),
        error: std::io::Error::new(std::io::ErrorKind::Other, "short write"),
    };
    assert_eq!(e.to_string(), "error in multipart: failed to encode backup: short write");
    let e: Error<()> = Error::Multipart {
        field: None,
        error: std::io::Error::new(std::io::ErrorKind::Other, "short write"),
    };
    assert_eq!(e.to_string(), "error in multipart: short write");

    let json = serde_json::from_str::<serde_json::Value>("{").unwrap_err();
    let expected = format!("error in serde: {json}");
    let e: Error<()> = Error::from(json);
    assert!(matches!(e, Error::Serde(_)));
    assert_eq!(e.to_string(), expected);
}

#[test]
fn deep_object_names_stay_under_prefix() {
    let v = sample_object();
    for (name, _) in parse_deep_object("filter", &v) {
        assert!(name.starts_with("filter["), "{name}");
    }
}

#[test]
fn urlencode_output_is_query_safe() {
    let input: String = (1u32..0x300).filter_map(char::from_u32).collect();
    let out = urlencode(&input);
    assert!(out
        .chars()
        .all(|c| c.is_ascii_alphanumeric() || "*-._+%".contains(c)));
}

#[test]
fn urlencode_decodes_back() {
    for input in ["k=v&x y", "ä€😀", "%2B+", "", "a~b!c"] {
        let query = format!("k={}", urlencode(input));
        let mut parsed = url::form_urlencoded::parse(query.as_bytes());
        let (k, v) = parsed.next().unwrap();
        assert_eq!(k, "k");
        assert_eq!(v, input);
        assert!(parsed.next().is_none());
    }
}

#[test]
fn basic_auth_decodes_back() {
    let auth = (s("N-Admin"), Some(s("admin2admin2")));
    let header = basic_auth(&auth);
    assert!(header.starts_with("Basic "));
    let decoded = base64::engine::general_purpose::STANDARD.decode(&header[6..]).unwrap();
    assert_eq!(decoded, b"N-Admin:admin2admin2".to_vec());
}

#[test]
fn response_content_new_keeps_parts() {
    let mut headers = HashMap::new();
    headers.insert(s("etag"), s("1"));
    let r = ResponseContent::new(201, b"{}".to_vec(), 42u32, headers.clone());
    assert_eq!(r.status, 201);
    assert_eq!(r.content, b"{}".to_vec());
    assert_eq!(r.entity, 42);
    assert_eq!(r.headers, headers);
}

#[test]
fn error_message_carries_cause_text() {
    let e = ResponseContent::string::<()>(200, vec![0xc3], HashMap::new()).unwrap_err();
    let cause = match &e {
        Error::StringParse(inner) => inner.to_string(),
        _ => unreachable!(),
    };
    assert_eq!(e.to_string(), format!("error in string: {cause}"));
    let e: Error<()> = Error::Io(std::io::Error::new(std::io::ErrorKind::Other, "boom"));
    assert_eq!(e.to_string(), "error in IO: boom");
    let e: Error<()> = Error::Multipart {
        field: Some(s("file")),
        error: std::io::Error::new(std::io::ErrorKind::Other, "boom"),
    };
    assert_eq!(e.to_string(), "error in multipart: failed to encode file: boom");
    let e: Error<()> = Error::Multipart {
        field: None,
        error: std::io::Error::new(std::io::ErrorKind::Other, "boom"),
    };
    assert_eq!(e.to_string(), "error in multipart: boom");
}

#[test]
fn error_sources() {
    let content = ResponseContent::unit(412, vec![], HashMap::new());
    let e: Error<()> = Error::ResponseError(content);
    assert!(!e.has_source());
    let e: Error<()> = Error::Io(std::io::Error::new(std::io::ErrorKind::Other, "x"));
    assert!(e.has_source());
    let e: Error<()> = Error::Multipart {
        field: None,
        error: std::io::Error::new(std::io::ErrorKind::Other, "x"),
    };
    assert!(e.has_source());
}

#[test]
fn urlencode_of_concatenation() {
    for (a, b) in [("a b", "c&d"), ("", "ä"), ("x", ""), ("%", "+")] {
        assert_eq!(urlencode(&format!("{a}{b}")), format!("{}{}", urlencode(a), urlencode(b)));
    }
}

#[test]
fn basic_auth_agrees_with_base64_engine() {
    for n in 0..12 {
        let user: String = "uvwxyzäé".chars().cycle().take(n).collect();
        let auth = (user.clone(), Some(s("pw")));
        let expected = format!(
            "Basic {}",
            base64::engine::general_purpose::STANDARD.encode(format!("{user}:pw"))
        );
        assert_eq!(basic_auth(&auth), expected);
    }
}
