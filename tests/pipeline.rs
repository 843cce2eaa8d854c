use ghrelease::model::{Error, Org, Repo};
use ghrelease::request::{
    asset_upload_url, authenticated_request, create_body, get_request, list_url, push_decimal,
    request_from, tag_release_url, upload_request, Body, Method,
};
use ghrelease::response::{interpret, is_success, settle, Reply};

fn repo() -> Repo {
    Repo::new(&Org::new("acme".to_string()), "widgets".to_string())
}

#[test]
fn urls_follow_templates() {
    assert_eq!(list_url(&repo()), "https://api.github.com/repos/acme/widgets/releases");
    assert_eq!(
        tag_release_url(&repo(), "v1.0.0"),
        "https://api.github.com/repos/acme/widgets/releases/tags/v1.0.0"
    );
    assert_eq!(
        asset_upload_url(&repo(), 1234567),
        "https://uploads.github.com/repos/acme/widgets/releases/1234567/assets"
    );
}

#[test]
fn decimal_numerals() {
    for (n, text) in [(0u64, "0"), (7, "7"), (10, "10"), (42, "42"), (u64::MAX, "18446744073709551615")] {
        let mut s = String::from("id=");
        push_decimal(&mut s, n);
        assert_eq!(s, format!("id={}", text));
    }
}

#[test]
fn create_body_without_target_has_no_target_key() {
    let b = create_body(&"v2.0.0".to_string(), &None);
    assert_eq!(b, vec![("tag_name".to_string(), "v2.0.0".to_string())]);
    assert!(b.iter().all(|(k, _)| k != "target_commitish"));
}

#[test]
fn create_body_with_target_has_target_key() {
    let b = create_body(&"v2.0.0".to_string(), &Some("abc123".to_string()));
    assert!(b.iter().any(|(k, v)| k == "target_commitish" && v == "abc123"));
}

#[test]
fn well_formed_url_is_admitted() {
    let r = authenticated_request(
        Method::Get,
        "https://api.github.com/repos/acme/widgets/releases".to_string(),
        &Some("tok".to_string()),
    )
    .unwrap();
    assert_eq!(r.url, "https://api.github.com/repos/acme/widgets/releases");
    assert_eq!(r.token, "tok");
    assert_eq!(r.method, Method::Get);
}

#[test]
fn relative_address_is_malformed() {
    let r = authenticated_request(Method::Get, "not a url".to_string(), &Some("tok".to_string()));
    assert_eq!(r, Err(Error::MalformedUrl));
}

#[test]
fn missing_token_reported_before_address() {
    let r = authenticated_request(Method::Get, "not a url".to_string(), &None);
    assert_eq!(r, Err(Error::MissingCredential));
}

#[test]
fn request_from_parse_outcome() {
    let tok = Some("tok".to_string());
    assert_eq!(request_from(Method::Post, "x".to_string(), &tok, false), Err(Error::MalformedUrl));
    assert_eq!(request_from(Method::Post, "x".to_string(), &None, true), Err(Error::MissingCredential));
    let q = request_from(Method::Post, "x".to_string(), &tok, true).unwrap();
    assert_eq!(q.method, Method::Post);
    assert_eq!(q.url, "x");
    assert_eq!(q.body, Body::Empty);
    assert!(q.query.is_empty());
}

#[test]
fn get_request_for_tag() {
    let q = get_request(&repo(), &"v1.0.0".to_string(), &Some("tok".to_string())).unwrap();
    assert_eq!(q.url, "https://api.github.com/repos/acme/widgets/releases/tags/v1.0.0");
}

#[test]
fn upload_request_shape() {
    let q = upload_request(&repo(), 42, &"asset.bin".to_string(), &Some("tok".to_string())).unwrap();
    assert_eq!(q.method, Method::Post);
    assert_eq!(q.url, "https://uploads.github.com/repos/acme/widgets/releases/42/assets");
    assert_eq!(q.query, vec![("name".to_string(), "asset.bin".to_string())]);
    assert_eq!(q.content_type, Some("multipart/form-data".to_string()));
    assert_eq!(q.body, Body::File("asset.bin".to_string()));
}

#[test]
fn success_range_bounds() {
    assert!(!is_success(199));
    assert!(is_success(200));
    assert!(is_success(204));
    assert!(is_success(299));
    assert!(!is_success(300));
    assert!(!is_success(404));
    assert!(!is_success(0));
    assert!(!is_success(u16::MAX));
}

#[test]
fn failure_status_ignores_body() {
    for code in [100u16, 301, 400, 404, 500, 503] {
        assert_eq!(interpret(Reply { status: code, body: Ok(5u64) }), Err(Error::RequestFailed(code)));
        assert_eq!(
            interpret::<u64>(Reply { status: code, body: Err("bad".to_string()) }),
            Err(Error::RequestFailed(code))
        );
    }
}

#[test]
fn success_with_missing_field_is_decode_failure() {
    let r = interpret::<u64>(Reply { status: 200, body: Err("missing field `id`".to_string()) });
    assert_eq!(r, Err(Error::DecodeFailed("missing field `id`".to_string())));
}

#[test]
fn success_decodes() {
    assert_eq!(interpret(Reply { status: 201, body: Ok(9u64) }), Ok(9));
}

#[test]
fn settle_passes_transport_error() {
    assert_eq!(settle::<u64>(Err(Error::Transport("dns".to_string()))), Err(Error::Transport("dns".to_string())));
    assert_eq!(settle(Ok(Reply { status: 500, body: Ok(1u64) })), Err(Error::RequestFailed(500)));
}
