use hello_server::http::{
    build_response, bytes_eq, decimal_vec, default_table, Route, RoutePolicy, RouteTable,
};

#[test]
fn root_request_gets_ok_and_primary_resource() {
    let t = default_table();
    let req = b"GET / HTTP/1.1".to_vec();
    let pol = t.plan(&req);
    assert_eq!(pol.status, b"HTTP/1.1 200 OK".to_vec());
    assert_eq!(pol.resource, b"hello.html".to_vec());
    assert_eq!(pol.delay_secs, 0);
}

#[test]
fn root_response_bytes_are_exact() {
    let t = default_table();
    let req = b"GET / HTTP/1.1".to_vec();
    let pol = t.plan(&req);
    let body = b"<html>hello</html>".to_vec();
    let resp = build_response(&pol.status, &body);
    assert_eq!(
        resp,
        b"HTTP/1.1 200 OK\r\nContent-Length: 18\r\n\r\n<html>hello</html>".to_vec()
    );
}

#[test]
fn missing_request_gets_not_found_and_fallback() {
    let t = default_table();
    let req = b"GET /missing HTTP/1.1".to_vec();
    let pol = t.plan(&req);
    assert_eq!(pol.status, b"HTTP/1.1 404 NOT FOUND".to_vec());
    assert_eq!(pol.resource, b"404.html".to_vec());
    assert_eq!(pol.delay_secs, 0);
    let body = b"oops".to_vec();
    let resp = build_response(&pol.status, &body);
    assert_eq!(
        resp,
        b"HTTP/1.1 404 NOT FOUND\r\nContent-Length: 4\r\n\r\noops".to_vec()
    );
}

#[test]
fn sleep_request_blocks_its_worker_only() {
    let t = default_table();
    let req = b"GET /sleep HTTP/1.1".to_vec();
    let pol = t.plan(&req);
    assert_eq!(pol.status, b"HTTP/1.1 200 OK".to_vec());
    assert_eq!(pol.resource, b"hello.html".to_vec());
    assert_eq!(pol.delay_secs, 5);
}

#[test]
fn empty_request_line_gets_fallback() {
    let t = default_table();
    let req = Vec::new();
    let pol = t.plan(&req);
    assert_eq!(pol.status, b"HTTP/1.1 404 NOT FOUND".to_vec());
}

#[test]
fn decimal_writes_exact_digits() {
    assert_eq!(decimal_vec(0), b"0".to_vec());
    assert_eq!(decimal_vec(7), b"7".to_vec());
    assert_eq!(decimal_vec(10), b"10".to_vec());
    assert_eq!(decimal_vec(123), b"123".to_vec());
    assert_eq!(decimal_vec(1000), b"1000".to_vec());
    assert_eq!(decimal_vec(65535), b"65535".to_vec());
}

#[test]
fn empty_body_has_content_length_zero() {
    let status = b"HTTP/1.1 200 OK".to_vec();
    let body = Vec::new();
    let resp = build_response(&status, &body);
    assert_eq!(resp, b"HTTP/1.1 200 OK\r\nContent-Length: 0\r\n\r\n".to_vec());
}

#[test]
fn first_matching_route_wins() {
    let t = RouteTable {
        routes: vec![
            Route {
                pattern: b"GET /x HTTP/1.1".to_vec(),
                policy: RoutePolicy {
                    status: b"HTTP/1.1 200 OK".to_vec(),
                    resource: b"first.html".to_vec(),
                    delay_secs: 0,
                },
            },
            Route {
                pattern: b"GET /x HTTP/1.1".to_vec(),
                policy: RoutePolicy {
                    status: b"HTTP/1.1 200 OK".to_vec(),
                    resource: b"second.html".to_vec(),
                    delay_secs: 9,
                },
            },
        ],
        fallback: RoutePolicy {
            status: b"HTTP/1.1 404 NOT FOUND".to_vec(),
            resource: b"404.html".to_vec(),
            delay_secs: 0,
        },
    };
    let req = b"GET /x HTTP/1.1".to_vec();
    let pol = t.plan(&req);
    assert_eq!(pol.resource, b"first.html".to_vec());
    assert_eq!(pol.delay_secs, 0);
}

#[test]
fn empty_table_always_falls_back() {
    let t = RouteTable {
        routes: Vec::new(),
        fallback: RoutePolicy {
            status: b"HTTP/1.1 404 NOT FOUND".to_vec(),
            resource: b"404.html".to_vec(),
            delay_secs: 0,
        },
    };
    let req = b"GET / HTTP/1.1".to_vec();
    let pol = t.plan(&req);
    assert_eq!(pol.status, b"HTTP/1.1 404 NOT FOUND".to_vec());
}

#[test]
fn bytes_eq_compares_contents() {
    assert!(bytes_eq(&b"abc".to_vec(), &b"abc".to_vec()));
    assert!(!bytes_eq(&b"abc".to_vec(), &b"abd".to_vec()));
    assert!(!bytes_eq(&b"abc".to_vec(), &b"ab".to_vec()));
    assert!(bytes_eq(&Vec::new(), &Vec::new()));
}
