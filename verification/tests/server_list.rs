use qa_manager_desktop::servers::{load_config, Connection, ServerConfig, ServerEntry};

fn entry(id: &str, url: &str) -> ServerEntry {
    ServerEntry { id: id.to_string(), name: format!("server {id}"), url: url.to_string() }
}

fn three() -> ServerConfig {
    ServerConfig {
        servers: vec![entry("a", "http://a"), entry("b", "http://b"), entry("c", "http://c")],
        last: Some("b".to_string()),
    }
}

#[test]
fn a_missing_file_is_an_empty_configuration() {
    assert_eq!(load_config(None), ServerConfig { servers: vec![], last: None });
    assert_eq!(load_config(None), ServerConfig::default());
}

#[test]
fn a_stored_configuration_is_taken_as_it_is() {
    assert_eq!(load_config(Some(three())), three());
}

#[test]
fn listing_shows_everything() {
    assert_eq!(three().list_servers(), three());
    assert_eq!(three().clone(), three());
}

#[test]
fn finding_gives_the_first_with_the_id() {
    let mut config = three();
    config.servers.push(entry("a", "http://second"));
    assert_eq!(config.find_server("a"), Some(&entry("a", "http://a")));
    assert_eq!(config.find_server("c"), Some(&entry("c", "http://c")));
    assert_eq!(config.find_server("z"), None);
}

#[test]
fn removing_keeps_the_others_in_order() {
    let mut config = three();
    let left = config.remove_server("a");
    assert_eq!(left.servers, vec![entry("b", "http://b"), entry("c", "http://c")]);
    assert_eq!(left.last, Some("b".to_string()));
    assert_eq!(left, config);
}

#[test]
fn removing_takes_every_server_with_the_id() {
    let mut config = three();
    config.servers.push(entry("a", "http://second"));
    config.remove_server("a");
    assert_eq!(config.servers, vec![entry("b", "http://b"), entry("c", "http://c")]);
}

#[test]
fn removing_the_choice_forgets_it() {
    let mut config = three();
    let left = config.remove_server("b");
    assert_eq!(left.last, None);
    assert_eq!(left.servers, vec![entry("a", "http://a"), entry("c", "http://c")]);
}

#[test]
fn removing_the_unknown_changes_nothing() {
    let mut config = three();
    config.remove_server("z");
    assert_eq!(config, three());
}

#[test]
fn removing_a_stale_choice_forgets_it() {
    let mut config = three();
    config.last = Some("z".to_string());
    config.remove_server("z");
    assert_eq!(config.last, None);
    assert_eq!(config.servers, three().servers);
}

#[test]
fn removing_twice_is_removing_once() {
    let mut config = three();
    let once = config.remove_server("b");
    let twice = config.remove_server("b");
    assert_eq!(once, twice);
}

#[test]
fn removing_undoes_registering() {
    let mut config = three();
    let added = config.register_server("d".to_string(), "D".to_string(), "http://d".to_string());
    assert_eq!(config.servers.len(), 4);
    assert_eq!(config.servers[3], added);
    config.remove_server("d");
    assert_eq!(config, three());
}

#[test]
fn connecting_records_the_choice_and_gives_the_url() {
    let mut config = three();
    match config.connect("c") {
        Connection::Chosen(Ok(url)) => assert_eq!(url.href, "http://c/"),
        other => panic!("{other:?}"),
    }
    assert_eq!(config.last, Some("c".to_string()));
    assert_eq!(config.servers, three().servers);
    assert_eq!(config.last_server_url(), Some("http://c".to_string()));
    assert_eq!(config.current_server_url().unwrap().href, "http://c/");
}

#[test]
fn connecting_to_the_unknown_is_refused() {
    let mut config = three();
    assert_eq!(config.connect("z"), Connection::Refused("서버를 찾을 수 없습니다.".to_string()));
    assert_eq!(config, three());
}

#[test]
fn connecting_records_the_choice_even_where_the_url_is_bad() {
    let mut config = three();
    config.servers[0].url = "nonsense".to_string();
    assert_eq!(
        config.connect("a"),
        Connection::Chosen(Err("relative URL without a base".to_string()))
    );
    assert_eq!(config.last, Some("a".to_string()));
    assert_eq!(config.last_server_url(), Some("nonsense".to_string()));
    assert_eq!(config.current_server_url(), None);
}

#[test]
fn choosing_gives_the_stored_text() {
    let mut config = three();
    assert_eq!(config.choose_server("a"), Ok("http://a".to_string()));
    assert_eq!(config.last, Some("a".to_string()));
    assert_eq!(config.choose_server("q"), Err("서버를 찾을 수 없습니다.".to_string()));
    assert_eq!(config.last, Some("a".to_string()));
}

#[test]
fn the_launcher_forgets_the_choice() {
    let mut config = three();
    assert_eq!(
        config.open_launcher(Some("tauri://localhost/index.html")),
        Ok("tauri://localhost/index.html".to_string())
    );
    assert_eq!(config.last, None);
    assert_eq!(config.servers, three().servers);
    assert_eq!(config.last_server_url(), None);
    assert_eq!(config.current_server_url(), None);
}

#[test]
fn an_unknown_launcher_is_refused() {
    let mut config = three();
    assert_eq!(config.open_launcher(None), Err("런처 URL 을 찾을 수 없습니다.".to_string()));
    assert_eq!(config, three());
}

#[test]
fn a_choice_that_is_gone_is_no_server() {
    let mut config = three();
    config.last = Some("z".to_string());
    assert_eq!(config.last_server_url(), None);
    assert_eq!(config.current_server_url(), None);
}
