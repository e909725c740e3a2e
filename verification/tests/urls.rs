use qa_manager_desktop::navigation::{route_new_window, NewWindowAction};
use qa_manager_desktop::registration::normalize_url;
use qa_manager_desktop::servers::{Connection, ServerConfig, ServerEntry};
use qa_manager_desktop::web_url::{origin_of, UrlHost, UrlOrigin, WebUrl};

fn parsed(text: &str) -> WebUrl {
    WebUrl::parse(text).unwrap()
}

fn server_at(url: &str) -> ServerConfig {
    ServerConfig {
        servers: vec![ServerEntry { id: "s".to_string(), name: "S".to_string(), url: url.to_string() }],
        last: Some("s".to_string()),
    }
}

#[test]
fn parsing_takes_a_url_apart() {
    let u = parsed("HTTP://Example.com:80/a/../b?q#f");
    assert_eq!(u.href, "http://example.com/b?q#f");
    assert_eq!(u.scheme, "http");
    assert_eq!(u.path, "/b");
    assert_eq!(u.text, "HTTP://Example.com:80/a/../b?q#f");
    assert_eq!(
        u.origin(),
        UrlOrigin::Tuple("http".to_string(), UrlHost::Domain("example.com".to_string()), 80)
    );
}

#[test]
fn parsing_tells_hosts_apart() {
    assert_eq!(
        parsed("https://127.0.0.1:8443/").origin(),
        UrlOrigin::Tuple("https".to_string(), UrlHost::Ipv4(0x7f00_0001), 8443)
    );
    assert_eq!(
        parsed("http://[::1]/").origin(),
        UrlOrigin::Tuple("http".to_string(), UrlHost::Ipv6(1), 80)
    );
    assert_eq!(parsed("data:text/plain,x").origin(), UrlOrigin::Opaque);
    assert_eq!(parsed("file:///etc/hosts").origin(), UrlOrigin::Opaque);
}

#[test]
fn parsing_reports_the_parsers_message() {
    assert_eq!(WebUrl::parse("example.com"), Err("relative URL without a base".to_string()));
    assert_eq!(WebUrl::parse("http://"), Err("empty host".to_string()));
}

#[test]
fn web_urls_have_an_origin_with_their_scheme() {
    for text in ["http://a", "https://a:1/x", "http://1.2.3.4", "https://[::2]:9"] {
        let u = parsed(text);
        assert!(u.is_web());
        match &u.origin() {
            UrlOrigin::Tuple(scheme, _, _) => assert_eq!(*scheme, u.scheme),
            UrlOrigin::Opaque => panic!("{text}"),
        }
    }
    assert!(!parsed("ftp://a").is_web());
    assert!(!parsed("mailto:a@b").is_web());
}

#[test]
fn origins_are_the_same_by_scheme_host_and_port() {
    assert!(parsed("http://a/x").same_origin(&parsed("http://a:80/y")));
    assert!(parsed("https://a").same_origin(&parsed("https://A:443")));
    assert!(parsed("http://[::1]/").same_origin(&parsed("http://[0:0:0:0:0:0:0:1]")));
    assert!(parsed("http://127.0.0.1/").same_origin(&parsed("http://127.1/")));
    assert!(!parsed("http://a").same_origin(&parsed("https://a")));
    assert!(!parsed("http://a").same_origin(&parsed("http://b")));
    assert!(!parsed("http://a").same_origin(&parsed("http://a:81")));
    assert!(!parsed("http://1.2.3.4").same_origin(&parsed("http://[::1]")));
    assert!(!parsed("http://1.2.3.4").same_origin(&parsed("http://1.2.3.5")));
}

#[test]
fn opaque_origins_are_never_the_same() {
    assert!(!parsed("data:,x").same_origin(&parsed("data:,x")));
    assert!(!parsed("data:,x").same_origin(&parsed("http://a")));
    assert!(!parsed("http://a").same_origin(&parsed("about:blank")));
}

#[test]
fn links_of_the_open_server_stay_in_the_window() {
    let config = server_at("https://qa.example");
    assert_eq!(
        config.handle_new_window(&parsed("https://qa.example/issues/1")),
        NewWindowAction::Navigate("https://qa.example/issues/1".to_string())
    );
    assert_eq!(
        config.handle_new_window(&parsed("https://qa.example")),
        NewWindowAction::Navigate("https://qa.example/".to_string())
    );
}

#[test]
fn other_links_go_to_the_browser() {
    let config = server_at("https://qa.example");
    for text in ["http://qa.example/", "https://qa.example:8443/", "https://other.example/"] {
        assert_eq!(
            config.handle_new_window(&parsed(text)),
            NewWindowAction::OpenInBrowser(text.to_string())
        );
    }
}

#[test]
fn mail_links_go_to_the_mail_program() {
    let config = server_at("https://qa.example");
    assert_eq!(
        config.handle_new_window(&parsed("mailto:a@qa.example")),
        NewWindowAction::OpenInMail("mailto:a@qa.example".to_string())
    );
}

#[test]
fn other_schemes_are_ignored() {
    let config = server_at("https://qa.example");
    for text in ["blob:https://qa.example/1", "data:,x", "about:blank", "ftp://qa.example/", "javascript:1"] {
        assert_eq!(config.handle_new_window(&parsed(text)), NewWindowAction::Ignore);
    }
}

#[test]
fn links_go_out_while_the_launcher_is_shown() {
    let mut config = server_at("https://qa.example");
    config.last = None;
    let url = parsed("https://qa.example/");
    assert_eq!(
        config.handle_new_window(&url),
        NewWindowAction::OpenInBrowser("https://qa.example/".to_string())
    );
    assert_eq!(
        route_new_window(&None, &url),
        NewWindowAction::OpenInBrowser("https://qa.example/".to_string())
    );
}

#[test]
fn links_go_out_where_the_stored_url_is_none() {
    let config = server_at("not a url");
    assert_eq!(
        config.handle_new_window(&parsed("https://qa.example/")),
        NewWindowAction::OpenInBrowser("https://qa.example/".to_string())
    );
}

#[test]
fn routing_by_a_given_server() {
    let server = Some(parsed("http://10.0.0.5:3000"));
    assert_eq!(
        route_new_window(&server, &parsed("http://10.0.0.5:3000/settings")),
        NewWindowAction::Navigate("http://10.0.0.5:3000/settings".to_string())
    );
    assert_eq!(
        route_new_window(&server, &parsed("http://10.0.0.5/settings")),
        NewWindowAction::OpenInBrowser("http://10.0.0.5/settings".to_string())
    );
}

#[test]
fn a_blob_has_the_origin_of_its_path() {
    let inner = UrlOrigin::Tuple("https".to_string(), UrlHost::Domain("qa.example".to_string()), 443);
    assert_eq!(origin_of("https://qa.example/x"), inner);
    assert_eq!(origin_of("blob:https://qa.example/x"), inner);
    assert_eq!(origin_of("BLOB:blob:blob:https://qa.example/x?q"), inner);
    assert_eq!(origin_of("blob:nonsense"), UrlOrigin::Opaque);
    assert_eq!(origin_of("blob:"), UrlOrigin::Opaque);
    assert_eq!(origin_of("blob:/https://qa.example/"), UrlOrigin::Opaque);
    assert_eq!(origin_of("nonsense"), UrlOrigin::Opaque);
}

#[test]
fn origins_agree_with_the_parsers() {
    for text in [
        "http://a", "https://a:8443/x", "ftp://a/", "ws://a", "wss://1.2.3.4:1/", "http://[::1]:2/",
        "blob:http://a/b", "blob:blob:ws://a/b", "blob:data:,x", "blob:x", "data:,x", "file:///x", "mailto:a@b",
    ] {
        let expected = match url::Url::parse(text).unwrap().origin() {
            url::Origin::Opaque(_) => None,
            tuple => Some(tuple.ascii_serialization()),
        };
        let found = match origin_of(text) {
            UrlOrigin::Opaque => None,
            UrlOrigin::Tuple(scheme, host, port) => {
                let host = match host {
                    UrlHost::Domain(d) => url::Host::Domain(d),
                    UrlHost::Ipv4(a) => url::Host::Ipv4(a.into()),
                    UrlHost::Ipv6(a) => url::Host::Ipv6(a.into()),
                };
                Some(url::Origin::Tuple(scheme, host, port).ascii_serialization())
            }
        };
        assert_eq!(found, expected, "{text}");
    }
}

#[test]
fn a_server_stored_as_a_blob_is_known_by_its_path() {
    let config = server_at("blob:blob:https://qa.example/x");
    assert_eq!(
        config.handle_new_window(&parsed("https://qa.example/y")),
        NewWindowAction::Navigate("https://qa.example/y".to_string())
    );
}

#[test]
fn deeply_nested_blobs_are_ignored_and_refused() {
    let text = "blob:".repeat(200_000);
    let url = parsed(&text);
    assert_eq!(url.scheme, "blob");
    assert_eq!(server_at("https://qa.example").handle_new_window(&url), NewWindowAction::Ignore);
    assert_eq!(normalize_url(&text), Err("http/https URL 만 지원합니다.".to_string()));
    let mut config = server_at(&text);
    assert!(matches!(config.connect("s"), Connection::Chosen(Ok(_))));
    assert!(config.current_server_url().is_some());
}

#[test]
fn origins_of_nested_blobs_are_found_without_recursion() {
    let text = format!("{}https://qa.example/", "blob:".repeat(3_000));
    assert!(parsed(&text).same_origin(&parsed("https://qa.example")));
    assert!(!parsed(&"blob:".repeat(3_000)).same_origin(&parsed("https://qa.example")));
}
