use rust_client::request::{create_h3_request, file_request, file_url, hdrs_to_strings, request_for, request_path, Header, UrlParts};

fn h(name: &str, value: &str) -> Header {
    Header { name: name.as_bytes().to_vec(), value: value.as_bytes().to_vec() }
}

#[test]
fn file_urls() {
    assert_eq!(file_url(0), "http://10.0.0.2/files/rand0.dat");
    assert_eq!(file_url(7), "http://10.0.0.2/files/rand7.dat");
    assert_eq!(file_url(12), "http://10.0.0.2/files/rand12.dat");
}

#[test]
fn request_for_benchmark_file() {
    let req = file_request(3).expect("the benchmark URL parses");
    assert_eq!(
        req,
        vec![
            h(":method", "GET"),
            h(":scheme", "http"),
            h(":authority", "10.0.0.2"),
            h(":path", "/files/rand3.dat"),
            h("user-agent", "quiche"),
        ]
    );
}

#[test]
fn request_keeps_query() {
    let req = request_for("https://example.org/a/b?x=1&y=2").unwrap();
    assert_eq!(req[1], h(":scheme", "https"));
    assert_eq!(req[2], h(":authority", "example.org"));
    assert_eq!(req[3], h(":path", "/a/b?x=1&y=2"));
}

#[test]
fn request_normalises_through_parser() {
    // The parser lower-cases the scheme and host and supplies the root path.
    let req = request_for("HTTP://Example.ORG").unwrap();
    assert_eq!(req[1], h(":scheme", "http"));
    assert_eq!(req[2], h(":authority", "example.org"));
    assert_eq!(req[3], h(":path", "/"));
}

#[test]
fn request_refused_for_bad_url() {
    assert!(request_for("not a url").is_none());
    assert!(request_for("").is_none());
}

#[test]
fn request_refused_without_host() {
    assert!(request_for("mailto:someone@example.org").is_none());
    assert!(request_for("data:text/plain,hello").is_none());
}

#[test]
fn path_with_and_without_query() {
    let with = UrlParts {
        scheme: "http".to_string(),
        host: Some("h".to_string()),
        path: "/p".to_string(),
        query: Some("q=1".to_string()),
    };
    assert_eq!(request_path(&with), "/p?q=1");
    let empty_query = UrlParts { query: Some(String::new()), ..with };
    assert_eq!(request_path(&empty_query), "/p?");
    let without = UrlParts { query: None, ..empty_query };
    assert_eq!(request_path(&without), "/p");
}

#[test]
fn headers_from_parts() {
    let parts = UrlParts {
        scheme: "http".to_string(),
        host: Some("10.0.0.2".to_string()),
        path: "/files/rand7.dat".to_string(),
        query: None,
    };
    let req = create_h3_request(&parts);
    assert_eq!(req.len(), 5);
    assert_eq!(req[0], h(":method", "GET"));
    assert_eq!(req[3], h(":path", "/files/rand7.dat"));
    assert_eq!(req[4], h("user-agent", "quiche"));
}

#[test]
fn header_texts_ascii() {
    let hdrs = vec![h(":status", "200"), h("content-length", "5120")];
    assert_eq!(
        hdrs_to_strings(&hdrs),
        vec![
            (":status".to_string(), "200".to_string()),
            ("content-length".to_string(), "5120".to_string()),
        ]
    );
}

#[test]
fn header_texts_replace_invalid_utf8() {
    let hdrs = vec![Header { name: b"x-bin".to_vec(), value: vec![0x66, 0xff, 0x6f] }];
    let out = hdrs_to_strings(&hdrs);
    assert_eq!(out, vec![("x-bin".to_string(), "f\u{FFFD}o".to_string())]);
}

#[test]
fn header_texts_utf8() {
    let hdrs = vec![h("x-name", "grüße")];
    assert_eq!(hdrs_to_strings(&hdrs), vec![("x-name".to_string(), "grüße".to_string())]);
}

#[test]
fn header_texts_empty() {
    assert!(hdrs_to_strings(&[]).is_empty());
}
