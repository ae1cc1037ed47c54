use rs_fanqie_downloader::config::{
    config_file_candidates, default_api_rate_limit, default_async_batch_size, default_book,
    default_chapter, default_connection_pool_size, default_content, default_detail,
    default_directory, default_download_enabled, default_max_retries, default_max_workers,
    default_raw_full, default_request_rate_limit_milli, default_request_timeout,
    default_rate_limit_window_ms, default_search, default_supports_full_download,
    validate_config_json, ApiSource, AppConfig, ConfigParams, Endpoints, FanqieJson,
};
use rs_fanqie_downloader::error::FanqieError;

fn source(url: &str, full: bool) -> ApiSource {
    ApiSource { base_url: url.to_string(), supports_full_download: full }
}

fn json_with(sources: Vec<ApiSource>) -> FanqieJson {
    FanqieJson {
        version: "1".to_string(),
        updated_at: "today".to_string(),
        api_sources: sources,
        endpoints: Endpoints::default(),
        config: ConfigParams::default(),
    }
}

#[test]
fn defaults_match_the_documented_values() {
    assert!(default_supports_full_download());
    assert_eq!(default_search(), "/api/search");
    assert_eq!(default_detail(), "/api/detail");
    assert_eq!(default_book(), "/api/book");
    assert_eq!(default_directory(), "/api/directory");
    assert_eq!(default_content(), "/api/content");
    assert_eq!(default_chapter(), "/api/chapter");
    assert_eq!(default_raw_full(), "/api/raw_full");
    assert_eq!(default_max_workers(), 30);
    assert_eq!(default_max_retries(), 3);
    assert_eq!(default_request_timeout(), 30);
    assert_eq!(default_request_rate_limit_milli(), 20);
    assert_eq!(default_connection_pool_size(), 200);
    assert_eq!(default_api_rate_limit(), 50);
    assert_eq!(default_rate_limit_window_ms(), 1000);
    assert_eq!(default_async_batch_size(), 50);
    assert!(default_download_enabled());
    let e = Endpoints::default();
    assert_eq!(e.search, "/api/search");
    assert_eq!(e.raw_full, "/api/raw_full");
    let p = ConfigParams::default();
    assert_eq!(p.max_workers, 30);
    assert_eq!(p.rate_limit_window_ms, 1000);
}

#[test]
fn empty_source_list_is_refused() {
    let r = validate_config_json(json_with(vec![]));
    assert_eq!(
        r.map(|_| ()),
        Err(FanqieError::ConfigLoad("missing api_sources".to_string()))
    );
    assert!(validate_config_json(json_with(vec![source("http://a", true)])).is_ok());
}

#[test]
fn candidates_in_precedence_order() {
    assert_eq!(
        config_file_candidates(),
        vec!["config/fanqie.json".to_string(), "fanqie.json".to_string()]
    );
}

#[test]
fn node_registry_moves_only_as_told() {
    let json = json_with(vec![source("http://a", true), source("http://b", false), source("http://c", true)]);
    let mut config = AppConfig::new(json, "fanqie.json".to_string());
    assert_eq!(config.current_node_index, 0);
    assert_eq!(config.get_current_node().unwrap().base_url, "http://a");

    assert!(config.switch_to_next_node());
    assert_eq!(config.current_node_index, 1);
    assert!(config.switch_to_next_node());
    assert!(!config.switch_to_next_node());
    assert_eq!(config.current_node_index, 2);

    config.reset_node_index();
    assert_eq!(config.current_node_index, 0);

    assert!(config.set_node(2));
    assert_eq!(config.current_node_index, 2);
    assert!(!config.set_node(3));
    assert_eq!(config.current_node_index, 2);
}

#[test]
fn full_download_nodes_keep_their_order() {
    let json = json_with(vec![source("http://a", true), source("http://b", false), source("http://c", true)]);
    let config = AppConfig::new(json, "fanqie.json".to_string());
    let full = config.get_full_download_nodes();
    assert_eq!(full, vec![source("http://a", true), source("http://c", true)]);
}
