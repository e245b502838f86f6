use floopfloop::api_keys::{api_key_path, resolve_api_key_id};
use floopfloop::library::{
    library_clone_path, library_items, library_list_path, pick_library_listing,
};
use floopfloop::secrets::{secret_path, secrets_path};
use floopfloop::subdomains::{subdomain_check_path, subdomain_suggest_path};
use floopfloop::{ApiKeySummary, FloopErrorCode, LibraryListOptions, LibraryProject};

fn lib_project(id: &str) -> LibraryProject {
    LibraryProject {
        id: id.to_string(),
        name: "A".to_string(),
        description: None,
        subdomain: None,
        bot_type: Some("site".to_string()),
        clone_count: 42,
        created_at: String::new(),
    }
}

#[test]
fn library_query_parameters() {
    assert_eq!(library_list_path(&LibraryListOptions::default()), "/api/v1/library");
    let opts = LibraryListOptions {
        bot_type: Some("site".to_string()),
        search: Some("cat cafe".to_string()),
        sort: None,
        page: Some(2),
        limit: Some(50),
    };
    assert_eq!(
        library_list_path(&opts),
        "/api/v1/library?botType=site&search=cat%20cafe&page=2&limit=50"
    );
    let opts = LibraryListOptions { sort: Some("newest".to_string()), ..Default::default() };
    assert_eq!(library_list_path(&opts), "/api/v1/library?sort=newest");
    assert_eq!(library_clone_path("p 1"), "/api/v1/library/p%201/clone");
}

#[test]
fn library_list_supports_both_response_shapes() {
    let bare = pick_library_listing(Some(vec![lib_project("p_1")]), None).unwrap();
    assert_eq!(bare.len(), 1);
    assert_eq!(bare[0].id, "p_1");
    let wrapped = pick_library_listing(None, Some(vec![lib_project("p_2")])).unwrap();
    assert_eq!(wrapped.len(), 1);
    assert_eq!(wrapped[0].id, "p_2");
    let err = pick_library_listing(None, None).expect_err("neither");
    assert_eq!(err.code, FloopErrorCode::Unknown);
    assert_eq!(err.message, "library list: unrecognised response shape");
}

fn key(id: &str, name: &str) -> ApiKeySummary {
    ApiKeySummary {
        id: id.to_string(),
        name: name.to_string(),
        key_prefix: "flp_".to_string(),
        scopes: None,
        last_used_at: None,
        created_at: String::new(),
    }
}

#[test]
fn api_key_removal_resolves_id_or_name() {
    let keys = vec![key("k_7", "my-script"), key("k_8", "k_7")];
    assert_eq!(resolve_api_key_id(&keys, "my-script").unwrap(), "k_7");
    assert_eq!(resolve_api_key_id(&keys, "k_7").unwrap(), "k_7");
    assert_eq!(resolve_api_key_id(&keys, "k_8").unwrap(), "k_8");
    let err = resolve_api_key_id(&keys, "ghost").expect_err("should fail");
    assert_eq!(err.code, FloopErrorCode::NotFound);
    assert_eq!(err.status, 404);
    assert_eq!(err.message, "API key not found: ghost");
    assert_eq!(api_key_path("k_7"), "/api/v1/api-keys/k_7");
}

#[test]
fn secrets_and_subdomain_paths() {
    assert_eq!(secrets_path("p_1"), "/api/v1/projects/p_1/secrets");
    assert_eq!(secret_path("p_1", "STRIPE_KEY"), "/api/v1/projects/p_1/secrets/STRIPE_KEY");
    assert_eq!(subdomain_check_path("hello"), "/api/v1/subdomains/check?slug=hello");
    assert_eq!(
        subdomain_suggest_path("a cat cafe landing page"),
        "/api/v1/subdomains/suggest?prompt=a%20cat%20cafe%20landing%20page"
    );
}

#[test]
fn library_items_member() {
    let raw: serde_json::Value = serde_json::from_str(r#"{"items":[{"id":"p_1"}],"total":1}"#).unwrap();
    let items = library_items(&raw).unwrap();
    let expected: serde_json::Value = serde_json::from_str(r#"[{"id":"p_1"}]"#).unwrap();
    assert_eq!(items, expected);
    let bare: serde_json::Value = serde_json::from_str(r#"[{"id":"p_1"}]"#).unwrap();
    assert!(library_items(&bare).is_none());
}
