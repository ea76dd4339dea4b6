use grpc_channel::util::{RequestUri, set_request_uri_scheme_and_authority};

#[test]
fn rewrites_scheme_and_authority_to_sentinels() {
    let mut uri = RequestUri {
        scheme: None,
        authority: None,
        path_and_query: Some("/pkg.Service/Method".to_owned()),
    };
    set_request_uri_scheme_and_authority(&mut uri);
    assert_eq!(uri.scheme.as_deref(), Some("http"));
    assert_eq!(uri.authority.as_deref(), Some("localhost"));
    assert_eq!(uri.path_and_query.as_deref(), Some("/pkg.Service/Method"));
}

#[test]
fn replaces_existing_scheme_and_authority() {
    let mut uri = RequestUri {
        scheme: Some("https".to_owned()),
        authority: Some("example.com:443".to_owned()),
        path_and_query: Some("/pkg.Service/Method?x=1".to_owned()),
    };
    set_request_uri_scheme_and_authority(&mut uri);
    assert_eq!(uri.scheme.as_deref(), Some("http"));
    assert_eq!(uri.authority.as_deref(), Some("localhost"));
    assert_eq!(uri.path_and_query.as_deref(), Some("/pkg.Service/Method?x=1"));
}

#[test]
fn normalizing_twice_equals_normalizing_once() {
    let mut once = RequestUri {
        scheme: Some("unix".to_owned()),
        authority: None,
        path_and_query: Some("/echo.Echo/Ping".to_owned()),
    };
    set_request_uri_scheme_and_authority(&mut once);

    let mut twice = RequestUri {
        scheme: Some("unix".to_owned()),
        authority: None,
        path_and_query: Some("/echo.Echo/Ping".to_owned()),
    };
    set_request_uri_scheme_and_authority(&mut twice);
    set_request_uri_scheme_and_authority(&mut twice);

    assert_eq!(once.scheme, twice.scheme);
    assert_eq!(once.authority, twice.authority);
    assert_eq!(once.path_and_query, twice.path_and_query);
}
