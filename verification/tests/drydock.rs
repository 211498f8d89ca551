use dogwatch::drydock::DrydockClient;

#[test]
fn endpoint_joins_root_urls_without_double_or_missing_slashes() {
    let client = DrydockClient::new("http://localhost:3211").unwrap();

    assert_eq!(
        client.endpoint("runs").unwrap().as_str(),
        "http://localhost:3211/runs"
    );
    assert_eq!(
        client.endpoint("meta/paused").unwrap().as_str(),
        "http://localhost:3211/meta/paused"
    );
}

#[test]
fn endpoint_preserves_configured_path_prefixes() {
    let client = DrydockClient::new("http://localhost:3211/api").unwrap();

    assert_eq!(
        client.endpoint("runs").unwrap().as_str(),
        "http://localhost:3211/api/runs"
    );
}

#[test]
fn base_url_keeps_a_trailing_slash_path() {
    let client = DrydockClient::new("http://localhost:3211/api/").unwrap();
    assert_eq!(client.base_url(), "http://localhost:3211/api/");
    assert_eq!(
        client.endpoint("runs").unwrap().as_str(),
        "http://localhost:3211/api/runs"
    );
}

#[test]
fn invalid_drydock_url_is_refused() {
    assert!(DrydockClient::new("not a url").is_err());
    assert!(DrydockClient::new("").is_err());
}

#[test]
fn run_and_item_paths_name_the_id() {
    assert_eq!(DrydockClient::run_path(42), "runs/42");
    assert_eq!(DrydockClient::item_path(7), "items/7");
    assert_eq!(DrydockClient::run_path(-3), "runs/-3");
}

#[test]
fn runs_query_lists_given_filters_in_order() {
    let q = DrydockClient::runs_query(Some("running"), None, Some("main"));
    assert_eq!(
        q,
        vec![
            ("status".to_string(), "running".to_string()),
            ("branch".to_string(), "main".to_string())
        ]
    );
    assert!(DrydockClient::runs_query(None, None, None).is_empty());
}
