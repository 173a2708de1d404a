use ezsockets::request::{copy_request, MAX_SURE_NAMES};
use http::{HeaderMap, Method, Request, Version};

fn listed(headers: &HeaderMap) -> Vec<(String, Vec<u8>)> {
    headers
        .iter()
        .map(|(name, value)| (name.as_str().to_string(), value.as_bytes().to_vec()))
        .collect()
}

#[test]
fn request_is_copied() {
    let request = Request::builder()
        .method(Method::PATCH)
        .uri("/chat?room=7")
        .version(Version::HTTP_10)
        .header("Host", "example.com")
        .header("X-Room", "a")
        .header("Upgrade", "websocket")
        .header("x-room", "b")
        .header("X-Bytes", &[0xe9u8, 0x20, 0xff][..])
        .body(())
        .unwrap();
    let copy = copy_request(&request).unwrap();
    assert_eq!(copy.method(), &Method::PATCH);
    assert_eq!(copy.uri(), "/chat?room=7");
    assert_eq!(copy.version(), Version::HTTP_10);
    assert_eq!(copy.headers(), request.headers());
    assert_eq!(
        listed(copy.headers()),
        vec![
            ("host".to_string(), b"example.com".to_vec()),
            ("x-room".to_string(), b"a".to_vec()),
            ("x-room".to_string(), b"b".to_vec()),
            ("upgrade".to_string(), b"websocket".to_vec()),
            ("x-bytes".to_string(), vec![0xe9, 0x20, 0xff]),
        ]
    );
}

#[test]
fn request_without_headers_is_copied() {
    let request = Request::builder().uri("/").body(()).unwrap();
    let copy = copy_request(&request).unwrap();
    assert_eq!(copy.method(), &Method::GET);
    assert_eq!(copy.version(), Version::HTTP_11);
    assert!(copy.headers().is_empty());
}

#[test]
fn order_after_a_removal_is_copied() {
    let mut request = Request::builder().uri("/").body(()).unwrap();
    for name in ["a", "b", "c", "d"] {
        request.headers_mut().append(name, "1".parse().unwrap());
    }
    request.headers_mut().append("d", "2".parse().unwrap());
    request.headers_mut().remove("a");
    let copy = copy_request(&request).unwrap();
    assert_eq!(listed(copy.headers()), listed(request.headers()));
}

fn request_with(names: u32, values: u32) -> Request<()> {
    let mut request = Request::builder().uri("/").body(()).unwrap();
    for number in 0..names {
        let name: http::header::HeaderName = format!("x-{}", number).parse().unwrap();
        for value in 0..values {
            request.headers_mut().append(name.clone(), value.into());
        }
    }
    request
}

#[test]
fn many_headers_are_copied() {
    let request = request_with(1024, 1);
    let copy = copy_request(&request).unwrap();
    assert_eq!(copy.headers().len(), 1024);
    assert_eq!(listed(copy.headers()), listed(request.headers()));
}

#[test]
fn as_many_names_as_there_is_room_for_are_copied() {
    assert_eq!(MAX_SURE_NAMES, 6553);
    let request = request_with(6553, 2);
    let copy = copy_request(&request).unwrap();
    assert_eq!(copy.headers().keys_len(), 6553);
    assert_eq!(copy.headers().len(), 13106);
    assert_eq!(listed(copy.headers()), listed(request.headers()));
}

#[test]
fn values_of_one_name_take_no_room_from_names() {
    let request = request_with(1, 40_000);
    let copy = copy_request(&request).unwrap();
    assert_eq!(copy.headers().keys_len(), 1);
    assert_eq!(copy.headers().len(), 40_000);
    assert_eq!(listed(copy.headers()), listed(request.headers()));
}
