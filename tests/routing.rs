use burn_after_read::api::health_handler;
use burn_after_read::routing::{
    decrypt_path_params, decrypt_reply, extract_body_string, redirect_reply, route, BodyError,
    DecryptReply, RequestBody, Route,
};
use burn_after_read::service::ServiceError;

#[test]
fn health_reports_healthy() {
    assert_eq!(health_handler().status, "healthy");
}

#[test]
fn routes_by_method_and_path() {
    assert_eq!(route("GET", "/health"), Route::Health);
    assert_eq!(route("POST", "/encrypt"), Route::Encrypt);
    assert_eq!(route("GET", "/decrypt/a/b"), Route::Decrypt);
    assert_eq!(route("POST", "/decrypt/"), Route::Decrypt);
    assert_eq!(route("POST", "/health"), Route::NotFound);
    assert_eq!(route("GET", "/encrypt"), Route::NotFound);
    assert_eq!(route("GET", "/decrypt"), Route::NotFound);
    assert_eq!(route("GET", "/"), Route::NotFound);
}

#[test]
fn decrypt_path_gives_handle_and_passphrase() {
    let p = decrypt_path_params("/decrypt/abc-123/hunter2").unwrap();
    assert_eq!(p.id, "abc-123");
    assert_eq!(p.key, "hunter2");
}

#[test]
fn decrypt_path_strips_repeated_prefix() {
    let p = decrypt_path_params("/decrypt//decrypt/x/y").unwrap();
    assert_eq!(p.id, "x");
    assert_eq!(p.key, "y");
}

#[test]
fn decrypt_path_allows_empty_parts() {
    let p = decrypt_path_params("/decrypt/x/").unwrap();
    assert_eq!(p.id, "x");
    assert_eq!(p.key, "");
}

#[test]
fn decrypt_path_needs_exactly_two_parts() {
    assert!(decrypt_path_params("/decrypt/only").is_none());
    assert!(decrypt_path_params("/decrypt/a/b/c").is_none());
    assert!(decrypt_path_params("/decrypt/").is_none());
}

#[test]
fn body_text_from_each_kind_of_body() {
    assert_eq!(extract_body_string(&RequestBody::Text("t".to_string())).unwrap(), "t");
    assert_eq!(
        extract_body_string(&RequestBody::Binary("héllo".as_bytes().to_vec())).unwrap(),
        "héllo"
    );
    let e = extract_body_string(&RequestBody::Binary(vec![0xff, 0xfe])).unwrap_err();
    assert_eq!(e, BodyError::InvalidUtf8);
    assert_eq!(e.message(), "Invalid UTF-8");
    let e = extract_body_string(&RequestBody::Empty).unwrap_err();
    assert_eq!(e, BodyError::Empty);
    assert_eq!(e.message(), "Empty body");
}

#[test]
fn url_secret_is_redirected_to() {
    match decrypt_reply(Ok("https://example.com".to_string())) {
        DecryptReply::Redirect(u) => assert_eq!(u, "https://example.com/"),
        _ => panic!("expected a redirect"),
    }
}

#[test]
fn non_url_secret_is_not_redirected() {
    assert!(matches!(decrypt_reply(Ok("just words".to_string())), DecryptReply::NotAUrl));
}

#[test]
fn failed_retrieve_is_passed_on() {
    assert!(matches!(
        decrypt_reply(Err(ServiceError::NotFound)),
        DecryptReply::Failed(ServiceError::NotFound)
    ));
}

#[test]
fn redirect_reply_for_each_parse_result() {
    assert!(matches!(redirect_reply(Some("u".to_string())), DecryptReply::Redirect(ref u) if u == "u"));
    assert!(matches!(redirect_reply(None), DecryptReply::NotAUrl));
}
