use teahttp::{
    render_host_error, select_provider, FetchProviders, Method, ProviderKind, TeaBody, TeaError,
    TeaRequest,
};

const ALL_METHODS: [(Method, &str); 9] = [
    (Method::GET, "GET"),
    (Method::HEAD, "HEAD"),
    (Method::POST, "POST"),
    (Method::PUT, "PUT"),
    (Method::DELETE, "DELETE"),
    (Method::CONNECT, "CONNECT"),
    (Method::OPTIONS, "OPTIONS"),
    (Method::TRACE, "TRACE"),
    (Method::PATCH, "PATCH"),
];

#[test]
fn every_verb_has_its_canonical_name() {
    for (m, name) in ALL_METHODS {
        assert_eq!(m.as_str(), name);
    }
}

#[test]
fn verb_names_are_distinct() {
    for (a, _) in ALL_METHODS {
        for (b, _) in ALL_METHODS {
            assert_eq!(a == b, a.as_str() == b.as_str());
        }
    }
}

#[test]
fn intent_keeps_verb_and_url() {
    for (m, _) in ALL_METHODS {
        let r = TeaRequest::new(m, "/api/items?x=1");
        assert_eq!(r.method(), m);
        assert_eq!(r.url(), "/api/items?x=1");
    }
}

#[test]
fn bodies_keep_their_payload() {
    let bytes = [7u8; 37];
    match TeaBody::from(&bytes[..]) {
        TeaBody::BorrowedSlice(b) => assert_eq!(b, &bytes[..]),
        _ => panic!("expected a byte view"),
    }
    match TeaBody::from("Hello World!") {
        TeaBody::BorrowedString(s) => assert_eq!(s, "Hello World!"),
        _ => panic!("expected a text view"),
    }
    match TeaBody::from(String::from("owned")) {
        TeaBody::CopiedString(s) => assert_eq!(s, "owned"),
        _ => panic!("expected owned text"),
    }
}

#[test]
fn main_thread_wins_when_reachable() {
    assert!(matches!(select_provider(true, false, false), Ok(ProviderKind::MainThread)));
    assert!(matches!(select_provider(false, true, false), Ok(ProviderKind::MainThread)));
    assert!(matches!(select_provider(true, true, true), Ok(ProviderKind::MainThread)));
    assert!(matches!(select_provider(false, true, true), Ok(ProviderKind::MainThread)));
}

#[test]
fn worker_when_only_worker_identified() {
    assert!(matches!(select_provider(false, false, true), Ok(ProviderKind::Worker)));
}

#[test]
fn no_provider_outside_a_host() {
    assert!(matches!(select_provider(false, false, false), Err(TeaError::HellNoSuchProvider)));
}

#[test]
fn resolve_without_globals_fails() {
    assert!(matches!(
        FetchProviders::resolve(false, None, false, None),
        Err(TeaError::HellNoSuchProvider)
    ));
    assert!(matches!(
        FetchProviders::resolve(true, None, false, None),
        Err(TeaError::HellNoSuchProvider)
    ));
    assert!(matches!(
        FetchProviders::resolve(false, None, true, None),
        Err(TeaError::HellNoSuchProvider)
    ));
}

#[test]
fn error_texts() {
    assert_eq!(render_host_error(Some(String::from("TypeError: bad header"))), "TypeError: bad header");
    assert_eq!(render_host_error(None), "Unstringable Error");
    assert_eq!(TeaError::HellNoSuchProvider.message(), "where did y run this lib lol");
}

#[test]
fn scenario_get_items() {
    let r = TeaRequest::new(Method::GET, "/api/items");
    assert_eq!(r.method().as_str(), "GET");
    assert_eq!(r.url(), "/api/items");
}

#[test]
fn scenario_post_upload() {
    let r = TeaRequest::new(Method::POST, "/api/upload");
    assert_eq!(r.method().as_str(), "POST");
    let payload = b"Bogus wa Lorem ipsum dolor si amet\r\n.";
    assert_eq!(payload.len(), 37);
    match TeaBody::from(payload.as_slice()) {
        TeaBody::BorrowedSlice(b) => assert_eq!(b.len(), 37),
        _ => panic!("expected a byte view"),
    }
}

#[test]
fn host_outcomes_pass_through() {
    assert!(matches!(TeaError::from_host(Ok::<u32, _>(37)), Ok(37)));
    assert!(matches!(TeaError::from_host(Ok::<&str, _>("GET")), Ok("GET")));
}
