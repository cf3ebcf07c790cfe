use auth_gateway::origin::UpstreamOrigin;
use auth_gateway::request::InboundRequest;
use auth_gateway::rewrite::{assemble, rewrite, RewriteError};
use http::header::{HeaderName, AUTHORIZATION, HOST};
use http::{HeaderMap, HeaderValue};

fn upstream() -> UpstreamOrigin {
    UpstreamOrigin { scheme: b"http".to_vec(), authority: b"localhost:9001".to_vec() }
}

fn inbound(target: Option<&str>, headers: HeaderMap) -> InboundRequest<Vec<u8>> {
    InboundRequest {
        method: "POST".to_string(),
        path_and_query: target.map(|t| t.to_string()),
        headers,
        body: vec![0, 1, 2, 255],
    }
}

#[test]
fn rewrite_sets_origin_and_keeps_target() {
    let out = rewrite(inbound(Some("/status?x=1"), HeaderMap::new()), &upstream()).unwrap();
    assert_eq!(out.scheme, b"http".to_vec());
    assert_eq!(out.authority, b"localhost:9001".to_vec());
    assert_eq!(out.path_and_query, "/status?x=1");
}

#[test]
fn rewrite_keeps_method_and_body() {
    let out = rewrite(inbound(Some("/"), HeaderMap::new()), &upstream()).unwrap();
    assert_eq!(out.method, "POST");
    assert_eq!(out.body, vec![0, 1, 2, 255]);
}

#[test]
fn rewrite_keeps_special_characters_in_target() {
    let out = rewrite(inbound(Some("/a%20b?x=1"), HeaderMap::new()), &upstream()).unwrap();
    assert_eq!(out.path_and_query, "/a%20b?x=1");
}

#[test]
fn rewrite_keeps_empty_query() {
    let out = rewrite(inbound(Some("/a?"), HeaderMap::new()), &upstream()).unwrap();
    assert_eq!(out.path_and_query, "/a?");
}

#[test]
fn rewrite_defaults_missing_target_to_slash() {
    let out = rewrite(inbound(None, HeaderMap::new()), &upstream()).unwrap();
    assert_eq!(out.path_and_query, "/");
}

#[test]
fn rewrite_adds_host_when_absent() {
    let mut headers = HeaderMap::new();
    headers.insert("accept", HeaderValue::from_static("*/*"));
    let out = rewrite(inbound(Some("/"), headers), &upstream()).unwrap();
    assert_eq!(out.headers.get(HOST).unwrap().as_bytes(), b"localhost:9001");
    assert_eq!(out.headers.len(), 2);
    let names: Vec<&str> = out.headers.iter().map(|(n, _)| n.as_str()).collect();
    assert_eq!(names, vec!["accept", "host"]);
}

#[test]
fn rewrite_overwrites_inbound_host() {
    let mut headers = HeaderMap::new();
    headers.insert(HOST, HeaderValue::from_static("gateway.example:3000"));
    headers.insert(AUTHORIZATION, HeaderValue::from_static("secret"));
    let out = rewrite(inbound(Some("/"), headers), &upstream()).unwrap();
    assert_eq!(out.headers.get(HOST).unwrap().as_bytes(), b"localhost:9001");
    assert_eq!(out.headers.get_all(HOST).iter().count(), 1);
    let names: Vec<&str> = out.headers.iter().map(|(n, _)| n.as_str()).collect();
    assert_eq!(names, vec!["host", "authorization"]);
}

#[test]
fn rewrite_leaves_single_host_of_many() {
    let mut headers = HeaderMap::new();
    headers.append(HOST, HeaderValue::from_static("a"));
    headers.append("x-one", HeaderValue::from_static("1"));
    headers.append(HOST, HeaderValue::from_static("b"));
    headers.append(HOST, HeaderValue::from_static("c"));
    let out = rewrite(inbound(Some("/"), headers), &upstream()).unwrap();
    let fields: Vec<(String, Vec<u8>)> =
        out.headers.iter().map(|(n, v)| (n.as_str().to_string(), v.as_bytes().to_vec())).collect();
    assert_eq!(
        fields,
        vec![("host".to_string(), b"localhost:9001".to_vec()), ("x-one".to_string(), b"1".to_vec())]
    );
}

#[test]
fn rewrite_passes_other_headers_through() {
    let mut headers = HeaderMap::new();
    headers.append(AUTHORIZATION, HeaderValue::from_static("secret"));
    headers.append("x-multi", HeaderValue::from_static("1"));
    headers.append("x-multi", HeaderValue::from_static("2"));
    headers.append("content-type", HeaderValue::from_static("application/json"));
    let out = rewrite(inbound(Some("/"), headers.clone()), &upstream()).unwrap();
    for name in ["authorization", "x-multi", "content-type"] {
        let before: Vec<&HeaderValue> = headers.get_all(name).iter().collect();
        let after: Vec<&HeaderValue> = out.headers.get_all(name).iter().collect();
        assert_eq!(before, after);
    }
    assert_eq!(out.headers.len(), headers.len() + 1);
}

#[test]
fn rewrite_reports_full_header_map() {
    let mut headers = HeaderMap::new();
    let mut i = 0usize;
    loop {
        let name = HeaderName::from_bytes(format!("x-{}", i).as_bytes()).unwrap();
        if headers.try_append(name, HeaderValue::from_static("v")).is_err() {
            break;
        }
        i += 1;
        assert!(i <= 40000);
    }
    match rewrite(inbound(Some("/"), headers), &upstream()) {
        Err(e) => assert_eq!(e, RewriteError::HostNotStored),
        Ok(_) => panic!("a full header map took one more field"),
    }
}

#[test]
fn assemble_follows_stored_flag() {
    let origin = upstream();
    let mut headers = HeaderMap::new();
    headers.insert(HOST, HeaderValue::from_static("localhost:9001"));
    let ok = assemble("GET".to_string(), None, headers.clone(), 7u8, &origin, true).unwrap();
    assert_eq!(ok.method, "GET");
    assert_eq!(ok.path_and_query, "/");
    assert_eq!(ok.scheme, b"http".to_vec());
    assert_eq!(ok.authority, b"localhost:9001".to_vec());
    assert_eq!(ok.headers, headers);
    assert_eq!(ok.body, 7u8);
    let failed = assemble("GET".to_string(), Some("/x".to_string()), headers, 7u8, &origin, false);
    assert_eq!(failed.unwrap_err(), RewriteError::HostNotStored);
}

#[test]
fn rewrite_reports_authority_that_is_no_header_value() {
    let origin = UpstreamOrigin { scheme: b"http".to_vec(), authority: b"bad\nhost".to_vec() };
    let mut headers = HeaderMap::new();
    headers.insert(HOST, HeaderValue::from_static("gateway.example"));
    match rewrite(inbound(Some("/"), headers), &origin) {
        Err(e) => assert_eq!(e, RewriteError::HostNotStored),
        Ok(_) => panic!("a line break went into a header value"),
    }
}

#[test]
fn rewrite_takes_authority_with_tab_and_high_bytes() {
    let origin = UpstreamOrigin { scheme: b"http".to_vec(), authority: vec![b'a', 9, b' ', 0x80, 0xff, 126] };
    let out = rewrite(inbound(Some("/"), HeaderMap::new()), &origin).unwrap();
    assert_eq!(out.headers.get(HOST).unwrap().as_bytes(), &[b'a', 9, b' ', 0x80, 0xff, 126][..]);
}

#[test]
fn rewrite_refuses_authority_with_control_or_delete_byte() {
    for bad in [0u8, 8, 10, 13, 31, 127] {
        let origin = UpstreamOrigin { scheme: b"http".to_vec(), authority: vec![b'h', bad] };
        match rewrite(inbound(Some("/"), HeaderMap::new()), &origin) {
            Err(e) => assert_eq!(e, RewriteError::HostNotStored),
            Ok(_) => panic!("an illegal byte went into a header value"),
        }
    }
}

#[test]
fn rewrite_takes_empty_authority_as_value() {
    let origin = UpstreamOrigin { scheme: b"http".to_vec(), authority: Vec::new() };
    let out = rewrite(inbound(Some("/"), HeaderMap::new()), &origin).unwrap();
    assert_eq!(out.headers.get(HOST).unwrap().as_bytes(), b"");
}
