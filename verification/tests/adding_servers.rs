use qa_manager_desktop::registration::{
    accept_url, check_ping, make_request, normalize_url, prepare_server, refusal_message,
    PingOutcome, ServerRequest,
};
use qa_manager_desktop::servers::ServerConfig;
use qa_manager_desktop::web_url::WebUrl;

const MALFORMED: &str = "URL 형식이 올바르지 않습니다.";
const UNSUPPORTED: &str = "http/https URL 만 지원합니다.";
const NO_NAME: &str = "서버 이름을 입력하세요.";

/// The characters with the property `White_Space`.
fn is_listed_white_space(c: char) -> bool {
    matches!(
        c as u32,
        0x9..=0xd | 0x20 | 0x85 | 0xa0 | 0x1680 | 0x2000..=0x200a | 0x2028 | 0x2029 | 0x202f | 0x205f | 0x3000
    )
}

#[test]
fn a_url_is_kept_without_white_space_and_slashes() {
    assert_eq!(normalize_url("  http://qa.example///  "), Ok("http://qa.example".to_string()));
    assert_eq!(normalize_url("https://qa.example/base/"), Ok("https://qa.example/base".to_string()));
    assert_eq!(normalize_url("\u{3000}http://qa.example\n"), Ok("http://qa.example".to_string()));
}

#[test]
fn a_url_is_kept_as_it_was_typed_otherwise() {
    assert_eq!(normalize_url("HTTP://QA.example:80"), Ok("HTTP://QA.example:80".to_string()));
}

#[test]
fn what_is_no_url_is_refused() {
    for text in ["", "   ", "/", "qa.example", "https://", "http://[", "://x"] {
        assert_eq!(normalize_url(text), Err(MALFORMED.to_string()), "{text}");
    }
}

#[test]
fn other_schemes_are_refused() {
    for text in ["ftp://qa.example", "file:///x", "mailto:a@b", "ws://qa.example"] {
        assert_eq!(normalize_url(text), Err(UNSUPPORTED.to_string()), "{text}");
    }
}

#[test]
fn normalizing_again_changes_nothing() {
    for text in [" http://a/ ", "https://a.example:8443/x//", "http://[::1]/", "http://a / /"] {
        let once = normalize_url(text).unwrap();
        assert_eq!(normalize_url(&once), Ok(once.clone()));
    }
}

#[test]
fn white_space_and_slashes_are_taken_off_together() {
    assert_eq!(normalize_url("http://a /"), Ok("http://a".to_string()));
    assert_eq!(normalize_url(" http://a.test / \t// \n"), Ok("http://a.test".to_string()));
    assert_eq!(
        prepare_server("A", "http://a.test /").unwrap().ping,
        "http://a.test/api/ping"
    );
    assert_eq!(normalize_url(" / / "), Err(MALFORMED.to_string()));
}

#[test]
fn a_url_is_accepted_by_what_it_parses_to() {
    assert_eq!(accept_url("x", &WebUrl::parse("http://a")), Ok("x".to_string()));
    assert_eq!(accept_url("x", &WebUrl::parse("ftp://a")), Err(UNSUPPORTED.to_string()));
    assert_eq!(accept_url("x", &Err("empty host".to_string())), Err(MALFORMED.to_string()));
}

#[test]
fn a_request_names_the_health_endpoint() {
    assert_eq!(
        prepare_server("  Our QA ", " https://qa.example/base/ "),
        Ok(ServerRequest {
            name: "Our QA".to_string(),
            url: "https://qa.example/base".to_string(),
            ping: "https://qa.example/base/api/ping".to_string(),
        })
    );
}

#[test]
fn the_url_is_looked_at_before_the_name() {
    assert_eq!(prepare_server("  ", "nonsense"), Err(MALFORMED.to_string()));
    assert_eq!(prepare_server("  ", "ftp://a"), Err(UNSUPPORTED.to_string()));
    assert_eq!(prepare_server(" \t\n", "http://a"), Err(NO_NAME.to_string()));
    assert_eq!(make_request("x", Err("why".to_string())), Err("why".to_string()));
}

#[test]
fn names_are_blank_by_the_white_space_property() {
    for c in '\0'..=char::MAX {
        let name = c.to_string();
        let made = make_request(&name, Ok("http://a".to_string()));
        if is_listed_white_space(c) {
            assert_eq!(made, Err(NO_NAME.to_string()), "{:x}", c as u32);
        } else {
            assert_eq!(made.unwrap().name, name);
        }
    }
}

#[test]
fn names_keep_what_stands_between() {
    let made = make_request("\u{2003} a \u{a0} b\u{85}", Ok("http://a".to_string())).unwrap();
    assert_eq!(made.name, "a \u{a0} b");
}

#[test]
fn success_is_any_status_in_the_two_hundreds() {
    for code in 100..1000u16 {
        assert_eq!(check_ping(PingOutcome::Answered(code)).is_ok(), (200..300).contains(&code));
    }
}

#[test]
fn a_refusal_shows_the_status() {
    assert_eq!(
        check_ping(PingOutcome::Answered(404)),
        Err("QA Manager 서버 응답이 아닙니다 (/api/ping → 404 Not Found).".to_string())
    );
    assert_eq!(
        check_ping(PingOutcome::Answered(599)),
        Err("QA Manager 서버 응답이 아닙니다 (/api/ping → 599 <unknown status code>).".to_string())
    );
    assert_eq!(
        refusal_message("302 Found"),
        "QA Manager 서버 응답이 아닙니다 (/api/ping → 302 Found)."
    );
}

#[test]
fn a_status_starts_with_its_code() {
    for code in (100..200u16).chain(300..1000) {
        let message = check_ping(PingOutcome::Answered(code)).unwrap_err();
        let start = refusal_message(&format!("{code} "));
        assert!(message.starts_with(start.trim_end_matches(").")));
    }
}

#[test]
fn failures_to_ask_are_reported() {
    assert_eq!(
        check_ping(PingOutcome::Unreachable),
        Err("서버에 연결할 수 없습니다. URL 과 네트워크를 확인하세요.".to_string())
    );
    assert_eq!(
        check_ping(PingOutcome::ClientFailed("builder error".to_string())),
        Err("builder error".to_string())
    );
}

#[test]
fn a_server_is_added_after_success() {
    let mut config = ServerConfig::default();
    let entry = config.add_server(" QA ", "http://qa.example/", PingOutcome::Answered(200)).unwrap();
    assert_eq!(entry.name, "QA");
    assert_eq!(entry.url, "http://qa.example");
    assert_eq!(config.servers, vec![entry.clone()]);
    assert_eq!(config.last, None);
    let second = config.add_server("Two", "https://two.example", PingOutcome::Answered(204)).unwrap();
    assert_eq!(config.servers, vec![entry, second]);
}

#[test]
fn nothing_is_added_otherwise() {
    let mut config = ServerConfig::default();
    config.add_server("QA", "http://qa.example", PingOutcome::Answered(200)).unwrap();
    let before = config.clone();
    assert_eq!(
        config.add_server("B", "nonsense", PingOutcome::Answered(200)),
        Err(MALFORMED.to_string())
    );
    assert_eq!(
        config.add_server("", "http://b", PingOutcome::Answered(200)),
        Err(NO_NAME.to_string())
    );
    assert!(config.add_server("B", "http://b", PingOutcome::Answered(500)).is_err());
    assert!(config.add_server("B", "http://b", PingOutcome::Unreachable).is_err());
    assert!(config.add_server("B", "http://b", PingOutcome::ClientFailed(String::new())).is_err());
    assert_eq!(config, before);
}

#[test]
fn ids_are_random_uuids() {
    let mut config = ServerConfig::default();
    for _ in 0..200 {
        config.add_server("QA", "http://qa.example", PingOutcome::Answered(200)).unwrap();
    }
    for entry in &config.servers {
        let id: Vec<char> = entry.id.chars().collect();
        assert_eq!(id.len(), 36);
        for (i, c) in id.iter().enumerate() {
            if [8, 13, 18, 23].contains(&i) {
                assert_eq!(*c, '-');
            } else {
                assert!(matches!(c, '0'..='9' | 'a'..='f'));
            }
        }
        assert_eq!(id[14], '4');
        assert!(matches!(id[19], '8' | '9' | 'a' | 'b'));
        assert_eq!(config.servers.iter().filter(|s| s.id == entry.id).count(), 1);
    }
}

#[test]
fn an_added_server_can_be_opened_and_removed() {
    let mut config = ServerConfig::default();
    let entry = config.add_server("QA", "http://qa.example", PingOutcome::Answered(200)).unwrap();
    assert_eq!(config.choose_server(&entry.id), Ok("http://qa.example".to_string()));
    assert_eq!(config.last_server_url(), Some("http://qa.example".to_string()));
    config.remove_server(&entry.id);
    assert_eq!(config, ServerConfig::default());
}
