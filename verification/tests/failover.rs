use rs_fanqie_downloader::api::{
    build_url, chapter_content_params, get_headers, is_success_status, random_user_agent,
    resolve_request, search_params, should_read_body, FetchEvent, RequestGate,
};
use rs_fanqie_downloader::config::{ApiSource, AppConfig, ConfigParams, Endpoints, FanqieJson};
use rs_fanqie_downloader::error::FanqieError;

fn source(url: &str) -> ApiSource {
    ApiSource { base_url: url.to_string(), supports_full_download: true }
}

fn config_with(urls: &[&str]) -> AppConfig {
    let json = FanqieJson {
        version: "1".to_string(),
        updated_at: "".to_string(),
        api_sources: urls.iter().map(|u| source(u)).collect(),
        endpoints: Endpoints::default(),
        config: ConfigParams::default(),
    };
    AppConfig::new(json, "fanqie.json".to_string())
}

#[test]
fn failover_returns_first_success_and_promotes() {
    let mut config = config_with(&["http://a", "http://b", "http://c"]);
    let events: Vec<FetchEvent<i32>> = vec![
        FetchEvent::ServerError { status: 500 },
        FetchEvent::ServerError { status: 503 },
        FetchEvent::Decoded { status: 200, value: 42 },
    ];
    let r = resolve_request(&mut config, "/api/detail", events);
    assert_eq!(r, Ok(42));
    assert_eq!(config.current_node_index, 2);
}

#[test]
fn failover_promotes_only_on_success_status() {
    let mut config = config_with(&["http://a", "http://b"]);
    let events: Vec<FetchEvent<i32>> = vec![
        FetchEvent::Timeout,
        FetchEvent::Decoded { status: 404, value: 7 },
    ];
    let r = resolve_request(&mut config, "/api/detail", events);
    assert_eq!(r, Ok(7));
    assert_eq!(config.current_node_index, 0);
}

#[test]
fn failover_all_timeouts_surface_timeout() {
    let mut config = config_with(&["http://a", "http://b"]);
    let events: Vec<FetchEvent<i32>> = vec![FetchEvent::Timeout, FetchEvent::Timeout];
    let r = resolve_request(&mut config, "/api/detail", events);
    assert_eq!(r, Err(FanqieError::Timeout));
    assert_eq!(config.current_node_index, 0);
}

#[test]
fn failover_all_server_errors_keeps_preferred_index() {
    let mut config = config_with(&["http://a", "http://b"]);
    config.set_node(1);
    let events: Vec<FetchEvent<i32>> = vec![
        FetchEvent::ServerError { status: 500 },
        FetchEvent::ServerError { status: 500 },
    ];
    let r = resolve_request(&mut config, "/api/detail", events);
    assert_eq!(r, Err(FanqieError::ApiNodeUnavailable("http://b".to_string())));
    assert_eq!(config.current_node_index, 1);
}

#[test]
fn failover_no_nodes_is_all_nodes_unavailable() {
    let mut config = config_with(&[]);
    let events: Vec<FetchEvent<i32>> = vec![];
    let r = resolve_request(&mut config, "/api/detail", events);
    assert_eq!(r, Err(FanqieError::AllNodesUnavailable));
}

#[test]
fn failover_records_last_error_per_kind() {
    let mut config = config_with(&["http://a", "http://b"]);
    let events: Vec<FetchEvent<i32>> = vec![
        FetchEvent::Timeout,
        FetchEvent::ConnectFailed { detail: "refused".to_string() },
    ];
    let r = resolve_request(&mut config, "/api/detail", events);
    assert_eq!(r, Err(FanqieError::Network("http://b: refused".to_string())));

    let mut config = config_with(&["http://a"]);
    let events: Vec<FetchEvent<i32>> =
        vec![FetchEvent::DecodeFailed { status: 200, detail: "bad json".to_string() }];
    let r = resolve_request(&mut config, "/api/detail", events);
    assert_eq!(r, Err(FanqieError::JsonParse("http://a/api/detail: bad json".to_string())));

    let mut config = config_with(&["http://a"]);
    let events: Vec<FetchEvent<i32>> =
        vec![FetchEvent::DecodeFailed { status: 404, detail: "bad json".to_string() }];
    let r = resolve_request(&mut config, "/api/detail", events);
    assert_eq!(r, Err(FanqieError::ApiRequest("HTTP 404: bad json".to_string())));

    let mut config = config_with(&["http://a"]);
    let events: Vec<FetchEvent<i32>> =
        vec![FetchEvent::TransportFailed { detail: "reset".to_string() }];
    let r = resolve_request(&mut config, "/api/detail", events);
    assert_eq!(r, Err(FanqieError::ApiRequest("http://a: reset".to_string())));
}

#[test]
fn status_classification() {
    assert!(is_success_status(200));
    assert!(is_success_status(299));
    assert!(!is_success_status(199));
    assert!(!is_success_status(300));
    assert!(should_read_body(200));
    assert!(should_read_body(404));
    assert!(!should_read_body(500));
    assert!(!should_read_body(503));
}

#[test]
fn request_gate_counts_permits() {
    let mut gate = RequestGate::new(2);
    assert_eq!(gate.available(), 2);
    assert!(gate.try_acquire());
    assert!(gate.try_acquire());
    assert!(!gate.try_acquire());
    assert_eq!(gate.available(), 0);
    gate.release();
    assert_eq!(gate.available(), 1);
    assert!(gate.try_acquire());
    assert!(!gate.try_acquire());
}

#[test]
fn request_shapes() {
    assert_eq!(build_url("http://a", "/api/detail"), "http://a/api/detail");
    let p = search_params("dune", -3);
    assert_eq!(
        p,
        vec![
            ("key".to_string(), "dune".to_string()),
            ("tab_type".to_string(), "3".to_string()),
            ("offset".to_string(), "-3".to_string()),
        ]
    );
    let p = chapter_content_params("ch9");
    assert_eq!(
        p,
        vec![
            ("tab".to_string(), "小说".to_string()),
            ("item_id".to_string(), "ch9".to_string()),
        ]
    );
}

#[test]
fn headers_are_the_fixed_set() {
    let h = get_headers();
    assert_eq!(h.len(), 5);
    assert_eq!(h[0], ("Accept", "application/json, text/javascript, */*; q=0.01"));
    assert_eq!(h[2], ("Referer", "https://fanqienovel.com/"));
    assert_eq!(h[3], ("X-Requested-With", "XMLHttpRequest"));
}

#[test]
fn user_agent_is_one_of_the_known_set() {
    let known = [
        "Mozilla/5.0 (Windows NT 10.0; Win64; x64) AppleWebKit/537.36 (KHTML, like Gecko) Chrome/120.0.0.0 Safari/537.36",
        "Mozilla/5.0 (Windows NT 10.0; Win64; x64) AppleWebKit/537.36 (KHTML, like Gecko) Chrome/119.0.0.0 Safari/537.36",
        "Mozilla/5.0 (Macintosh; Intel Mac OS X 10_15_7) AppleWebKit/537.36 (KHTML, like Gecko) Chrome/120.0.0.0 Safari/537.36",
        "Mozilla/5.0 (Windows NT 10.0; Win64; x64; rv:121.0) Gecko/20100101 Firefox/121.0",
        "Mozilla/5.0 (Macintosh; Intel Mac OS X 10_15_7) AppleWebKit/605.1.15 (KHTML, like Gecko) Version/17.2 Safari/605.1.15",
    ];
    for _ in 0..20 {
        let ua = random_user_agent();
        assert!(known.contains(&ua));
    }
}
