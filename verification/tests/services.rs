use aws_toolkit::credentials::{
    cache_file_name, cache_key, clock_millis, now_millis, token_step, token_step_at, CachedCredentials, RefreshGrant,
    SsoTokenCache, TokenStep,
};
use aws_toolkit::login::{
    client_registration, credentials_from_role, device_authorization, refresh_grant, renewed_token,
    token_cache_entry, token_poll_step, LoginError, LoginField, PollStep, RoleCredentials, TokenReply,
};
use aws_toolkit::platform::{asset_name, install_plan, Architecture, Os, Release, ReleaseAsset};
use aws_toolkit::profile::SsoProfile;
use aws_toolkit::records::{
    bucket_names, bucket_region, collect_limited_page, collect_page, first_task,
    function_summary, image_summary, log_event_summary, log_group_summary, object_summary,
    repository_summary, task_detail, ContainerDefinitionInfo, ContainerInfo, FunctionInfo,
    ImageInfo, LogConfiguration, LogEventInfo, LogGroupInfo, ObjectInfo, RepositoryInfo, TaskInfo,
};

fn now_ms() -> i64 {
    std::time::SystemTime::now()
        .duration_since(std::time::UNIX_EPOCH)
        .unwrap()
        .as_millis() as i64
}

fn profile() -> SsoProfile {
    SsoProfile {
        name: "dev".into(),
        sso_start_url: "https://x.awsapps.com/start".into(),
        sso_region: "eu-west-1".into(),
        sso_account_id: "123".into(),
        sso_role_name: "Admin".into(),
        region: "eu-west-1".into(),
    }
}

#[test]
fn cache_key_is_deterministic() {
    let k1 = cache_key("https://my-org.awsapps.com/start");
    let k2 = cache_key("https://my-org.awsapps.com/start");
    assert_eq!(k1, k2);
    assert_eq!(k1.len(), 64);
}

#[test]
fn cache_key_differs_for_different_urls() {
    let k1 = cache_key("https://a.com/start");
    let k2 = cache_key("https://b.com/start");
    assert_ne!(k1, k2);
}

#[test]
fn cache_key_is_lowercase_hex_sha256() {
    assert_eq!(cache_key(""), "e3b0c44298fc1c149afbf4c8996fb92427ae41e4649b934ca495991b7852b855");
    assert_eq!(
        cache_file_name("abc"),
        "ba7816bf8f01cfea414140de5dae2223b00361a396177a9cb410ff61f20015ad.json"
    );
}

#[test]
fn credentials_expired_when_past() {
    let creds = CachedCredentials {
        access_key_id: "A".into(),
        secret_access_key: "S".into(),
        session_token: "T".into(),
        expiration_ms: now_ms() - 3_600_000,
    };
    assert!(creds.is_expired());
}

#[test]
fn credentials_valid_when_future() {
    let creds = CachedCredentials {
        access_key_id: "A".into(),
        secret_access_key: "S".into(),
        session_token: "T".into(),
        expiration_ms: now_ms() + 3_600_000,
    };
    assert!(!creds.is_expired());
}

#[test]
fn expiry_boundary_counts_as_expired() {
    let t = SsoTokenCache {
        access_token: "tok".into(),
        expires_at_ms: 1000,
        region: "r".into(),
        start_url: "u".into(),
        refresh: None,
    };
    assert!(t.is_expired_at(1000));
    assert!(!t.is_expired_at(999));
}

#[test]
fn token_expiring_at_epoch_is_expired() {
    let mut t = SsoTokenCache {
        access_token: "tok".into(),
        expires_at_ms: 0,
        region: "r".into(),
        start_url: "u".into(),
        refresh: None,
    };
    assert!(t.is_expired());
    t.expires_at_ms = i64::MAX;
    assert!(!t.is_expired());
    let creds = CachedCredentials {
        access_key_id: "A".into(),
        secret_access_key: "S".into(),
        session_token: "T".into(),
        expiration_ms: -1,
    };
    assert!(creds.is_expired());
}

#[test]
fn clock_millis_keeps_what_fits() {
    assert_eq!(clock_millis(0), Some(0));
    assert_eq!(clock_millis(1_700_000_000_000), Some(1_700_000_000_000));
    assert_eq!(clock_millis(i64::MAX as u128), Some(i64::MAX));
    assert_eq!(clock_millis(i64::MAX as u128 + 1), None);
}

#[test]
fn clock_reads_after_the_epoch() {
    let t = now_millis().unwrap();
    assert!(t >= now_ms() - 60_000 && t <= now_ms() + 60_000);
}

fn grant(refresh_token: &str) -> RefreshGrant {
    RefreshGrant { client_id: "cid".into(), client_secret: "sec".into(), refresh_token: refresh_token.into() }
}

#[test]
fn token_step_now_at_the_edges() {
    let profile = profile();
    let mut t = SsoTokenCache {
        access_token: "tok".into(),
        expires_at_ms: i64::MAX,
        region: "r".into(),
        start_url: "u".into(),
        refresh: None,
    };
    assert!(matches!(token_step(Some(t.clone()), &profile), Ok(TokenStep::Use(a)) if a == "tok"));
    t.expires_at_ms = 0;
    let e = token_step(Some(t.clone()), &profile).err().unwrap();
    assert_eq!(e.message(), "Not authenticated. Run sso_login with profile \"dev\" first.");
    t.refresh = Some(grant("r1"));
    assert!(matches!(token_step(Some(t), &profile), Ok(TokenStep::Refresh(g)) if g.refresh_token == "r1"));
    assert!(token_step(None, &profile).is_err());
}

#[test]
fn expired_token_is_renewed_where_it_can_be() {
    let mut t = SsoTokenCache {
        access_token: "tok".into(),
        expires_at_ms: 1000,
        region: "r".into(),
        start_url: "u".into(),
        refresh: None,
    };
    assert!(matches!(token_step_at(Some(t.clone()), 10, &profile()), Ok(TokenStep::Use(a)) if a == "tok"));
    let e = token_step_at(Some(t.clone()), 1000, &profile()).err().unwrap();
    assert_eq!(e.message(), "Not authenticated. Run sso_login with profile \"dev\" first.");
    t.refresh = Some(grant("r1"));
    match token_step_at(Some(t), 1000, &profile()) {
        Ok(TokenStep::Refresh(g)) => {
            assert_eq!(g.client_id, "cid");
            assert_eq!(g.client_secret, "sec");
            assert_eq!(g.refresh_token, "r1");
        }
        _ => panic!("expected a renewal"),
    }
    let e = token_step_at(None, 10, &profile()).err().unwrap();
    assert_eq!(e.message(), "Not authenticated. Run sso_login with profile \"dev\" first.");
}

#[test]
fn renewed_token_replaces_the_cached_one() {
    let reply = TokenReply { access_token: Some("new".into()), expires_in_secs: 3600, refresh_token: None };
    let t = renewed_token(&profile(), grant("r1"), Some(reply), 5_000).ok().unwrap();
    assert_eq!(t.access_token, "new");
    assert_eq!(t.expires_at_ms, 3_605_000);
    assert_eq!(t.region, "eu-west-1");
    assert_eq!(t.refresh.as_ref().unwrap().refresh_token, "r1");
    let reply = TokenReply { access_token: Some("new".into()), expires_in_secs: 60, refresh_token: Some("r2".into()) };
    let t = renewed_token(&profile(), grant("r1"), Some(reply), 0).ok().unwrap();
    assert_eq!(t.refresh.unwrap().refresh_token, "r2");
    let e = renewed_token(&profile(), grant("r1"), None, 0).err().unwrap();
    assert_eq!(e.message(), "Not authenticated. Run sso_login with profile \"dev\" first.");
    let reply = TokenReply { access_token: None, expires_in_secs: 60, refresh_token: None };
    assert!(renewed_token(&profile(), grant("r1"), Some(reply), 0).is_err());
}

#[test]
fn sign_in_keeps_its_refresh_grant() {
    let client = client_registration(Some("cid".into()), Some("sec".into())).ok().unwrap();
    assert!(refresh_grant(&client, None).is_none());
    let g = refresh_grant(&client, Some("r9".into())).unwrap();
    assert_eq!((g.client_id.as_str(), g.client_secret.as_str(), g.refresh_token.as_str()), ("cid", "sec", "r9"));
    let t = token_cache_entry(&profile(), Some("tok".into()), 60, 0, Some(g)).ok().unwrap();
    assert_eq!(t.refresh.unwrap().refresh_token, "r9");
}

#[test]
fn login_replies_must_be_complete() {
    let e = client_registration(Some("id".into()), None).err().unwrap();
    assert_eq!(e.message(), "missing client_secret");
    let a = device_authorization(Some("d".into()), Some("u".into()), None, Some("https://v".into()), 1).ok().unwrap();
    assert_eq!(a.verification_uri, "https://v");
    assert_eq!(a.poll_secs, 5);
    let a = device_authorization(Some("d".into()), Some("u".into()), Some("https://c".into()), Some("https://v".into()), 9).ok().unwrap();
    assert_eq!(a.verification_uri, "https://c");
    assert_eq!(a.poll_secs, 9);
    let e = device_authorization(Some("d".into()), Some("u".into()), None, None, 9).err().unwrap();
    assert!(matches!(e, LoginError::Missing(LoginField::VerificationUri)));
}

#[test]
fn pending_authorization_keeps_polling() {
    assert!(matches!(token_poll_step("service error: AuthorizationPendingException".into()), PollStep::KeepWaiting));
    assert!(matches!(token_poll_step("SlowDownException: wait".into()), PollStep::KeepWaiting));
    match token_poll_step("AccessDeniedException".into()) {
        PollStep::Fail(e) => assert_eq!(e.message(), "SSO token exchange failed: AccessDeniedException"),
        PollStep::KeepWaiting => panic!("must fail"),
    }
}

#[test]
fn token_cache_entry_expires_later() {
    let t = token_cache_entry(&profile(), Some("tok".into()), 60, 1_000, None).ok().unwrap();
    assert_eq!(t.expires_at_ms, 61_000);
    assert_eq!(t.region, "eu-west-1");
    assert_eq!(t.start_url, "https://x.awsapps.com/start");
    assert!(token_cache_entry(&profile(), None, 60, 1_000, None).is_err());
}

#[test]
fn role_credentials_are_checked_in_order() {
    let c = credentials_from_role(Some(RoleCredentials {
        access_key_id: Some("A".into()),
        secret_access_key: Some("S".into()),
        session_token: Some("T".into()),
        expiration_ms: 1_700_000_000_000,
    })).ok().unwrap();
    assert_eq!(c.session_token, "T");
    let e = credentials_from_role(Some(RoleCredentials {
        access_key_id: None,
        secret_access_key: None,
        session_token: Some("T".into()),
        expiration_ms: i64::MAX,
    })).err().unwrap();
    assert_eq!(e.message(), "invalid expiration timestamp");
    let e = credentials_from_role(None).err().unwrap();
    assert_eq!(e.message(), "missing role_credentials");
}

#[test]
fn search_result_shape() {
    let e = log_event_summary(LogEventInfo {
        timestamp_ms: Some(1700000000000_i64),
        message: Some("ERROR something failed".into()),
        stream: Some("my-stream".into()),
    });
    assert!(e.message.contains("ERROR"));
    assert_eq!(e.stream, "my-stream");
}

#[test]
fn log_group_defaults() {
    let g = log_group_summary(LogGroupInfo { name: None, retention_days: Some(7), stored_bytes: None });
    assert_eq!(g.name, "");
    assert_eq!(g.stored_bytes, 0);
    assert_eq!(g.retention_days, Some(7));
}

#[test]
fn list_repos_output_shape() {
    let known = repository_summary(RepositoryInfo {
        name: Some("my-app".into()),
        uri: Some("123456789012.dkr.ecr.eu-central-1.amazonaws.com/my-app".into()),
        created_at: Some("2026-01-01T00:00:00Z".into()),
        image_tag_mutability: Some("MUTABLE".into()),
    });
    assert_eq!(known.name, "my-app");
    assert!(known.uri.contains("dkr.ecr"));
    assert_eq!(known.image_tag_mutability, "MUTABLE");
    let unknown = repository_summary(RepositoryInfo {
        name: Some("my-app".into()),
        uri: Some("123456789012.dkr.ecr.eu-central-1.amazonaws.com/my-app".into()),
        created_at: None,
        image_tag_mutability: None,
    });
    assert_eq!(unknown.image_tag_mutability, "unknown");
    assert!(unknown.created_at.is_none());
}

fn image(i: usize) -> ImageInfo {
    ImageInfo {
        digest: Some(format!("sha256:{:064}", i)),
        tags: vec!["latest".to_string()],
        pushed_at: Some("2026-01-01T00:00:00Z".into()),
        size_bytes: Some(1024_i64),
    }
}

#[test]
fn list_images_max_truncation_logic() {
    let mut images = Vec::new();
    let page: Vec<_> = (0..10).map(|i| image_summary(image(i))).collect();
    let next = collect_limited_page(&mut images, page, Some(3_i32), Some("more".to_string()));
    assert!(next.is_none());
    assert_eq!(images.len(), 3);
    assert_eq!(images[0].tags[0], "latest");
    assert_eq!(images[0].size_bytes, Some(1024));
}

#[test]
fn list_images_no_max_keeps_all() {
    let mut images = Vec::new();
    let page: Vec<_> = (0..5).map(|i| image_summary(image(i))).collect();
    let next = collect_limited_page(&mut images, page, None, None);
    assert!(next.is_none());
    assert_eq!(images.len(), 5);
}

#[test]
fn limited_listing_goes_on_below_the_limit() {
    let mut images = vec![1, 2];
    let next = collect_limited_page(&mut images, vec![3], Some(5), Some("t".to_string()));
    assert_eq!(next.as_deref(), Some("t"));
    assert_eq!(images, vec![1, 2, 3]);
    let next = collect_limited_page(&mut images, vec![4], Some(-1), None);
    assert!(next.is_none());
    assert_eq!(images, vec![1, 2, 3, 4]);
    let next = collect_page(&mut images, vec![5], Some("u".to_string()));
    assert_eq!(next.as_deref(), Some("u"));
    assert_eq!(images.len(), 5);
}

#[test]
fn list_functions_result_shape() {
    let f = function_summary(FunctionInfo {
        name: Some("my-fn".into()),
        runtime: Some("python3.12".into()),
        handler: Some("index.handler".into()),
        memory_mb: Some(128),
        timeout_secs: Some(30),
        last_modified: Some("2026-01-01T00:00:00.000+0000".into()),
        description: Some("".into()),
    });
    assert_eq!(f.name, "my-fn");
    assert_eq!(f.memory_mb, 128);
    let d = function_summary(FunctionInfo {
        name: None,
        runtime: None,
        handler: None,
        memory_mb: None,
        timeout_secs: None,
        last_modified: None,
        description: None,
    });
    assert_eq!(d.runtime, "unknown");
    assert_eq!(d.memory_mb, 128);
    assert_eq!(d.timeout_secs, 3);
}

#[test]
fn list_buckets_returns_vec() {
    let names: Vec<String> = bucket_names(vec![Some("my-bucket".into()), None]);
    assert_eq!(names[0], "my-bucket");
    assert_eq!(names.len(), 1);
}

#[test]
fn bucket_region_defaults_to_us_east_1() {
    assert_eq!(bucket_region(None), "us-east-1");
    assert_eq!(bucket_region(Some(String::new())), "us-east-1");
    assert_eq!(bucket_region(Some("eu-west-3".into())), "eu-west-3");
}

#[test]
fn object_summary_defaults() {
    let o = object_summary(ObjectInfo { key: Some("k".into()), size: None, last_modified: None });
    assert_eq!(o.key, "k");
    assert_eq!(o.size, 0);
}

#[test]
fn list_clusters_returns_vec() {
    let mut arns: Vec<String> = Vec::new();
    let next = collect_page(&mut arns, vec!["arn:aws:ecs:eu-central-1:123:cluster/my-cluster".into()], None);
    assert!(next.is_none());
    assert_eq!(arns.len(), 1);
    assert!(arns[0].contains("cluster"));
}

#[test]
fn describe_task_shape() {
    let task = TaskInfo {
        task_definition_arn: Some("arn:aws:ecs:eu-central-1:123456789012:task-definition/my-task:1".into()),
        last_status: Some("RUNNING".into()),
        desired_status: Some("RUNNING".into()),
        started_at: Some("2026-05-19T10:00:00Z".into()),
        stopped_at: None,
        stopped_reason: None,
        containers: vec![ContainerInfo {
            name: Some("app".into()),
            image: Some("nginx:latest".into()),
            last_status: Some("RUNNING".into()),
        }],
    };
    let task = first_task(vec![task], "arn:aws:ecs:eu-central-1:123456789012:task/my-cluster/abc123").ok().unwrap();
    let defs = vec![
        ContainerDefinitionInfo {
            name: Some("app".into()),
            log_configuration: Some(LogConfiguration { log_driver: "awslogs".into(), options: Some(vec![]) }),
        },
        ContainerDefinitionInfo { name: Some("sidecar".into()), log_configuration: None },
    ];
    let t = task_detail("arn:aws:ecs:eu-central-1:123456789012:task/my-cluster/abc123".into(), task, defs);
    assert_eq!(t.last_status, "RUNNING");
    assert_eq!(t.containers.len(), 1);
    assert_eq!(t.containers[0].image, "nginx:latest");
    assert_eq!(t.log_config.len(), 1);
    assert_eq!(t.log_config[0].container, "app");
    assert_eq!(t.log_config[0].log_driver, "awslogs");
}

#[test]
fn describe_missing_task_fails() {
    let e = first_task(Vec::new(), "arn:x").err().unwrap();
    assert_eq!(e.message(), "task not found: arn:x");
}

#[test]
fn platform_assets() {
    assert_eq!(asset_name(Os::Mac, Architecture::Aarch64), Some("zed-aws-sidecar-macos-aarch64"));
    assert_eq!(asset_name(Os::Linux, Architecture::X8664), Some("zed-aws-sidecar-linux-x86_64"));
    assert_eq!(asset_name(Os::Windows, Architecture::X8664), None);
    assert_eq!(asset_name(Os::Linux, Architecture::X86), None);
    let release = Release {
        version: "v0.5.0".into(),
        assets: vec![
            ReleaseAsset { name: "other".into(), download_url: "https://o".into() },
            ReleaseAsset { name: "zed-aws-sidecar-linux-x86_64".into(), download_url: "https://l".into() },
        ],
    };
    let plan = install_plan(&release, "zed-aws-sidecar-linux-x86_64").ok().unwrap();
    assert_eq!(plan.download_url, "https://l");
    assert_eq!(plan.binary_path, "zed-aws-sidecar-v0.5.0");
    let e = install_plan(&release, "zed-aws-sidecar-macos-aarch64").err().unwrap();
    assert_eq!(e, "no asset zed-aws-sidecar-macos-aarch64 in release v0.5.0");
}

#[test]
fn expiry_range_is_chrono_range() {
    let role = |ms: i64| RoleCredentials {
        access_key_id: Some("A".into()),
        secret_access_key: Some("S".into()),
        session_token: Some("T".into()),
        expiration_ms: ms,
    };
    assert!(credentials_from_role(Some(role(8_210_266_876_799_999))).is_ok());
    assert!(credentials_from_role(Some(role(8_210_266_876_800_000))).is_err());
    assert!(credentials_from_role(Some(role(-8_334_601_228_800_000))).is_ok());
    assert!(credentials_from_role(Some(role(-8_334_601_228_800_001))).is_err());
}
