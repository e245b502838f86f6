use floopfloop::projects::{
    classify_refine, conversations_path, find_project, interpret_refine, project_path,
    projects_list_path, stream_deadline_check, stream_event_key, stream_outcome, stream_pause,
};
use floopfloop::{
    ConversationsOptions, FloopErrorCode, ListProjectsOptions, Project, StreamOptions,
};
use std::time::Duration;

fn project(id: &str, subdomain: Option<&str>) -> Project {
    Project {
        id: id.to_string(),
        name: "Cat".to_string(),
        subdomain: subdomain.map(|s| s.to_string()),
        status: "live".to_string(),
        bot_type: None,
        url: None,
        amplify_app_url: None,
        is_public: false,
        is_auth_protected: false,
        team_id: None,
        created_at: String::new(),
        updated_at: String::new(),
        thumbnail_url: None,
    }
}

#[test]
fn project_paths() {
    assert_eq!(projects_list_path(&ListProjectsOptions::default()), "/api/v1/projects");
    assert_eq!(
        projects_list_path(&ListProjectsOptions { team_id: Some("t 1/2".to_string()) }),
        "/api/v1/projects?teamId=t%201%2F2"
    );
    assert_eq!(project_path("p_1", "status"), "/api/v1/projects/p_1/status");
    assert_eq!(project_path("a b", "cancel"), "/api/v1/projects/a%20b/cancel");
    assert_eq!(
        conversations_path("p_1", &ConversationsOptions { limit: 10 }),
        "/api/v1/projects/p_1/conversations?limit=10"
    );
    assert_eq!(
        conversations_path("p_1", &ConversationsOptions::default()),
        "/api/v1/projects/p_1/conversations"
    );
}

#[test]
fn get_finds_by_id_or_subdomain() {
    let all = vec![project("p_0", None), project("p_1", Some("cat")), project("cat", None)];
    assert_eq!(find_project(all.clone(), "cat").unwrap().id, "p_1");
    assert_eq!(find_project(all.clone(), "p_0").unwrap().id, "p_0");
    let err = find_project(all, "dog").expect_err("missing");
    assert_eq!(err.code, FloopErrorCode::NotFound);
    assert_eq!(err.status, 404);
    assert_eq!(err.message, "project not found: dog");
}

#[test]
fn projects_refine_queued_variant() {
    let res = interpret_refine(r#"{"queued":true,"messageId":"m_1"}"#).unwrap();
    assert!(res.queued.is_some());
    assert!(res.saved_only.is_none());
    assert!(res.processing.is_none());
    assert_eq!(res.queued.unwrap().message_id, "m_1");
}

#[test]
fn refine_other_shapes() {
    let v: serde_json::Value = serde_json::from_str(r#"{"queued":false}"#).unwrap();
    let res = classify_refine(&v).unwrap();
    assert!(res.saved_only.is_some() && res.queued.is_none() && res.processing.is_none());

    let v: serde_json::Value =
        serde_json::from_str(r#"{"processing":true,"deploymentId":"d_9","queuePriority":3}"#)
            .unwrap();
    let p = classify_refine(&v).unwrap().processing.unwrap();
    assert_eq!(p.deployment_id, "d_9");
    assert_eq!(p.queue_priority, 3);

    let v: serde_json::Value = serde_json::from_str(r#"{"processing":true}"#).unwrap();
    let p = classify_refine(&v).unwrap().processing.unwrap();
    assert_eq!(p.deployment_id, "");
    assert_eq!(p.queue_priority, 0);

    let v: serde_json::Value = serde_json::from_str(r#"{"processing":false}"#).unwrap();
    let err = classify_refine(&v).expect_err("unknown shape");
    assert_eq!(err.code, FloopErrorCode::Unknown);
    assert_eq!(err.message, "refine: unrecognised response shape");

    let err = interpret_refine("<html>").expect_err("not json");
    assert_eq!(err.code, FloopErrorCode::Unknown);
    assert!(err.message.starts_with("failed to decode response: "));
}

#[test]
fn stream_keys() {
    assert_eq!(stream_event_key("queued", 1, "", None), "queued|1||");
    assert_eq!(stream_event_key("generating", 2, "0.3", Some(-4)), "generating|2|0.3|-4");
}

#[test]
fn stream_terminal_statuses() {
    assert!(matches!(stream_outcome("live", ""), Some(Ok(()))));
    assert!(matches!(stream_outcome("archived", ""), Some(Ok(()))));
    assert!(stream_outcome("generating", "").is_none());
    assert!(stream_outcome("queued", "").is_none());
    let err = stream_outcome("failed", "typecheck failed").unwrap().unwrap_err();
    assert_eq!(err.code, FloopErrorCode::BuildFailed);
    assert_eq!(err.message, "typecheck failed");
    let err = stream_outcome("failed", "").unwrap().unwrap_err();
    assert_eq!(err.message, "build failed");
    let err = stream_outcome("cancelled", "").unwrap().unwrap_err();
    assert_eq!(err.code, FloopErrorCode::BuildCancelled);
    assert_eq!(err.message, "build cancelled");
}

#[test]
fn stream_timing() {
    let o = StreamOptions::default();
    assert_eq!(o.interval, Duration::from_secs(2));
    assert_eq!(o.max_wait, Duration::from_secs(600));
    assert!(stream_deadline_check("p_1", &o.max_wait, &Duration::from_millis(1)).is_ok());
    let err = stream_deadline_check("p_1", &Duration::from_secs(5), &Duration::ZERO)
        .expect_err("timeout");
    assert_eq!(err.code, FloopErrorCode::Timeout);
    assert_eq!(
        err.message,
        "stream: project p_1 did not reach a terminal state within 5s"
    );
    assert_eq!(
        stream_pause(&Duration::from_secs(2), &Duration::from_secs(9)),
        Some(Duration::from_secs(2))
    );
    assert_eq!(
        stream_pause(&Duration::from_secs(2), &Duration::from_millis(300)),
        Some(Duration::from_millis(300))
    );
    assert_eq!(stream_pause(&Duration::from_secs(2), &Duration::ZERO), None);
}
