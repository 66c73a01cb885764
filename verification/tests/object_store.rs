use agentenv::object_store::{
    bearer_authorization, build_object_store_operator, needs_content_length, operator_settings,
    request_limits, AddressingStyle, AttemptFailure, ObjectStoreOperatorConfig,
    ObjectStoreOperatorError, OperatorWithCredential, RefreshRun, RefreshStep, ResolvedCredential,
    DEFAULT_MAX_RETRIES, DEFAULT_TIMEOUT,
};

fn config() -> ObjectStoreOperatorConfig {
    ObjectStoreOperatorConfig {
        bucket: "layers".to_owned(),
        endpoint: "https://objects.example.test//".to_owned(),
        region: "auto".to_owned(),
        addressing_style: AddressingStyle::Path,
        timeout: None,
        max_retries: None,
        bearer_tokens: false,
    }
}

fn credential() -> ResolvedCredential {
    ResolvedCredential {
        access_key_id: "id".to_owned(),
        secret_access_key: "key".to_owned(),
        security_token: Some("token".to_owned()),
    }
}

fn transport() -> opendal::raw::HttpClient {
    opendal::raw::HttpClient::default()
}

fn denied() -> opendal::Error {
    opendal::Error::new(opendal::ErrorKind::PermissionDenied, "expired")
}

#[test]
fn addressing_style_maps_to_expected_s3_modes() {
    assert!(AddressingStyle::Virtual.uses_virtual_host_style());
    assert!(!AddressingStyle::Path.uses_virtual_host_style());
}

#[test]
fn a_credential_is_handed_to_the_service() {
    let settings = operator_settings(&config(), Some(&credential()));
    assert_eq!(settings.bucket, "layers");
    assert_eq!(settings.endpoint.as_deref(), Some("https://objects.example.test"));
    assert_eq!(settings.region.as_deref(), Some("auto"));
    assert!(!settings.enable_virtual_host_style);
    assert!(!settings.disable_config_load);
    assert!(!settings.disable_ec2_metadata);
    assert!(!settings.allow_anonymous);
    assert_eq!(settings.access_key_id.as_deref(), Some("id"));
    assert_eq!(settings.secret_access_key.as_deref(), Some("key"));
    assert_eq!(settings.session_token.as_deref(), Some("token"));
}

#[test]
fn no_credential_means_anonymous_requests() {
    let settings = operator_settings(&config(), None);
    assert!(settings.allow_anonymous);
    assert!(settings.access_key_id.is_none());
    assert!(!settings.disable_config_load);
}

#[test]
fn bearer_tokens_replace_every_other_credential() {
    let mut config = config();
    config.bearer_tokens = true;
    let settings = operator_settings(&config, Some(&credential()));
    assert!(settings.access_key_id.is_none());
    assert!(settings.secret_access_key.is_none());
    assert!(settings.session_token.is_none());
    assert!(settings.disable_config_load);
    assert!(settings.disable_ec2_metadata);
    assert!(settings.allow_anonymous);
}

#[test]
fn empty_texts_are_left_out() {
    let mut config = config();
    config.endpoint = String::new();
    config.region = String::new();
    let empty = ResolvedCredential {
        access_key_id: String::new(),
        secret_access_key: "key".to_owned(),
        security_token: Some(String::new()),
    };
    let settings = operator_settings(&config, Some(&empty));
    assert!(settings.endpoint.is_none());
    assert!(settings.region.is_none());
    assert!(settings.access_key_id.is_none());
    assert_eq!(settings.secret_access_key.as_deref(), Some("key"));
    assert!(settings.session_token.is_none());
}

#[test]
fn limits_default_to_thirty_seconds_and_three_retries() {
    let limits = request_limits(&config());
    assert_eq!(limits.timeout, DEFAULT_TIMEOUT);
    assert_eq!(limits.timeout, 30_000_000_000);
    assert_eq!(limits.max_retries, DEFAULT_MAX_RETRIES);
    assert_eq!(limits.max_retries, 3);
    let mut asked = config();
    asked.timeout = Some(5);
    asked.max_retries = Some(0);
    let limits = request_limits(&asked);
    assert_eq!(limits.timeout, 5);
    assert_eq!(limits.max_retries, 0);
}

#[test]
fn an_operator_is_built_for_the_configured_bucket() {
    let operator = build_object_store_operator(&config(), Some(&credential()), transport()).unwrap();
    assert_eq!(operator.info().name(), "layers");
    let pair = OperatorWithCredential::new(operator, Some(credential()));
    assert_eq!(pair.operator().info().name(), "layers");
    assert_eq!(pair.credential().unwrap().access_key_id, "id");
}

#[test]
fn a_bucket_that_cannot_be_addressed_is_refused() {
    let mut nameless = config();
    nameless.bucket = String::new();
    let refused = build_object_store_operator(&nameless, None, transport());
    assert!(matches!(refused, Err(ObjectStoreOperatorError::OperatorBuild(_))));

    let mut dotted = config();
    dotted.bucket = "a.b".to_owned();
    assert!(build_object_store_operator(&dotted, None, transport()).is_ok());
    dotted.addressing_style = AddressingStyle::Virtual;
    let refused = build_object_store_operator(&dotted, None, transport());
    assert!(matches!(refused, Err(ObjectStoreOperatorError::OperatorBuild(_))));
}

#[test]
fn bearer_tokens_need_a_region() {
    let mut config = config();
    config.bearer_tokens = true;
    assert!(build_object_store_operator(&config, None, transport()).is_ok());
    config.region = String::new();
    let refused = build_object_store_operator(&config, None, transport());
    assert!(matches!(refused, Err(ObjectStoreOperatorError::OperatorBuild(_))));
}

#[test]
fn a_bearer_token_becomes_an_authorization_header() {
    assert_eq!(
        bearer_authorization("oauth-token"),
        Some(b"Bearer oauth-token".to_vec())
    );
    assert_eq!(bearer_authorization("line\nbreak"), None);
    assert_eq!(bearer_authorization("delete\u{7f}"), None);
    assert_eq!(bearer_authorization("tab\t"), Some(b"Bearer tab\t".to_vec()));
}

#[test]
fn only_an_empty_multipart_start_needs_a_content_length() {
    assert!(needs_content_length("POST", true, Some("uploads"), false));
    assert!(needs_content_length("POST", true, Some("x=1&uploads="), false));
    assert!(needs_content_length("POST", true, Some("uploads&x"), false));
    assert!(!needs_content_length("POST", true, Some("uploads"), true));
    assert!(!needs_content_length("POST", false, Some("uploads"), false));
    assert!(!needs_content_length("PUT", true, Some("uploads"), false));
    assert!(!needs_content_length("POST", true, Some("uploadsId=1"), false));
    assert!(!needs_content_length("POST", true, Some("myuploads"), false));
    assert!(!needs_content_length("POST", true, None, false));
}

#[test]
fn a_denied_attempt_is_repeated_once_with_a_new_credential() {
    let run = RefreshRun::run_with_refresh(true, true);
    assert!(matches!(run.step, RefreshStep::Attempt));
    let run = run.attempted(Err(AttemptFailure { permission_denied: true, error: denied() }));
    assert!(matches!(run.step, RefreshStep::Refresh { .. }));
    let run = run.refreshed(Ok(true));
    assert!(matches!(run.step, RefreshStep::Rebuild));
    let run = run.rebuilt(Ok(()));
    assert!(matches!(run.step, RefreshStep::AttemptAgain));
    let run = run.attempted(Ok(()));
    assert!(matches!(run.step, RefreshStep::Done(Ok(true))));
}

#[test]
fn a_second_denial_is_final() {
    let run = RefreshRun { refreshable: true, has_credential: true, step: RefreshStep::AttemptAgain };
    let run = run.attempted(Err(AttemptFailure { permission_denied: true, error: denied() }));
    assert!(matches!(run.step, RefreshStep::Done(Err(ObjectStoreOperatorError::OpenDal(_)))));
}

#[test]
fn nothing_is_refreshed_without_a_resolver_or_a_credential() {
    for (refreshable, has_credential) in [(false, true), (true, false)] {
        let run = RefreshRun::run_with_refresh(refreshable, has_credential);
        let run = run.attempted(Err(AttemptFailure { permission_denied: true, error: denied() }));
        assert!(matches!(run.step, RefreshStep::Done(Err(ObjectStoreOperatorError::OpenDal(_)))));
    }
    let run = RefreshRun::run_with_refresh(true, true);
    let run = run.attempted(Err(AttemptFailure { permission_denied: false, error: denied() }));
    assert!(matches!(run.step, RefreshStep::Done(Err(ObjectStoreOperatorError::OpenDal(_)))));
    let run = RefreshRun::run_with_refresh(true, true).attempted(Ok(()));
    assert!(matches!(run.step, RefreshStep::Done(Ok(false))));
}

#[test]
fn a_failed_refresh_or_rebuild_ends_the_operation() {
    let refresh = || {
        RefreshRun::run_with_refresh(true, true)
            .attempted(Err(AttemptFailure { permission_denied: true, error: denied() }))
    };
    let unchanged = refresh().refreshed(Ok(false));
    assert!(matches!(unchanged.step, RefreshStep::Done(Err(ObjectStoreOperatorError::OpenDal(_)))));
    let failed = refresh().refreshed(Err("no metadata service".to_owned()));
    match failed.step {
        RefreshStep::Done(Err(ObjectStoreOperatorError::CredentialRefresh(text))) => {
            assert_eq!(text, "no metadata service")
        }
        _ => panic!("a failed refresh must be reported"),
    }
    let unbuilt = refresh()
        .refreshed(Ok(true))
        .rebuilt(Err(ObjectStoreOperatorError::OperatorBuild(denied())));
    assert!(matches!(
        unbuilt.step,
        RefreshStep::Done(Err(ObjectStoreOperatorError::OperatorBuild(_)))
    ));
}
