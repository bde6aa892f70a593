use aws_toolkit::base64::{base64_encode, object_content, payload_text, ContentEncoding};
use aws_toolkit::profile::SsoProfile;
use aws_toolkit::requests::{
    check_call, describe_task_request, keep_last, lambda_log_group, list_objects_request, log_start_ms,
    named_request, object_request, presign_request, put_object_request, search_request,
    ArgValue, ToolArgs, SEARCH_WINDOW_MS, TAIL_WINDOW_MS,
};
use aws_toolkit::state::{activate, active_profile, new_shared_state, AuthState};
use serde_json::Value;

fn arg_value(v: &Value) -> ArgValue {
    match v {
        Value::Null => ArgValue::Null,
        Value::Bool(b) => ArgValue::Bool(*b),
        Value::Number(n) => {
            if let Some(u) = n.as_u64() {
                ArgValue::PosInt(u)
            } else if let Some(i) = n.as_i64() {
                ArgValue::NegInt(i)
            } else {
                ArgValue::Float
            }
        }
        Value::String(s) => ArgValue::Text(s.clone()),
        Value::Array(_) => ArgValue::Array,
        Value::Object(_) => ArgValue::Object,
    }
}

fn args(json: &str) -> ToolArgs {
    let v: Value = serde_json::from_str(json).unwrap();
    let mut entries = Vec::new();
    if let Value::Object(map) = v {
        for (k, x) in map.iter() {
            entries.push((k.clone(), arg_value(x)));
        }
    }
    ToolArgs { entries }
}

fn profile(name: &str) -> SsoProfile {
    SsoProfile {
        name: name.into(),
        sso_start_url: "https://x.awsapps.com/start".into(),
        sso_region: "eu-west-1".into(),
        sso_account_id: "123".into(),
        sso_role_name: "Admin".into(),
        region: "eu-west-1".into(),
    }
}

fn signed_in() -> AuthState {
    let mut s = new_shared_state();
    activate(&mut s, profile("dev"));
    s
}

fn no_profile_message() -> String {
    let state = new_shared_state();
    active_profile(&state).err().unwrap().message()
}

#[test]
fn s3_active_profile_no_profile_errors() {
    assert!(no_profile_message().contains("No active AWS profile"));
}

#[test]
fn cloudwatch_active_profile_no_profile_errors() {
    assert!(no_profile_message().contains("No active AWS profile"));
}

#[test]
fn ecr_active_profile_no_profile_errors() {
    assert!(no_profile_message().contains("No active AWS profile"));
}

#[test]
fn ecs_active_profile_no_profile_errors() {
    assert!(no_profile_message().contains("No active AWS profile"));
}

#[test]
fn lambda_active_profile_no_profile_errors() {
    assert!(no_profile_message().contains("No active AWS profile"));
}

#[test]
fn no_profile_message_is_exact() {
    assert_eq!(
        no_profile_message(),
        "No active AWS profile. Run list_accounts then switch_account first."
    );
}

#[test]
fn missing_bucket_param_errors() {
    let params = args("{}");
    let result = params.required("bucket");
    assert!(result.err().unwrap().message().contains("bucket"));
}

#[test]
fn missing_group_param() {
    let params = args("{}");
    let result = params.required("group");
    assert!(result.err().unwrap().message().contains("group"));
}

#[test]
fn missing_query_param() {
    let params = args("{}");
    let result = params.required("query");
    assert!(result.err().unwrap().message().contains("query"));
}

#[test]
fn missing_repo_param_errors() {
    let params = args("{}");
    let result = params.required("repo");
    assert!(result.err().unwrap().message().contains("repo"));
}

#[test]
fn missing_cluster_param_errors() {
    let params = args("{}");
    let result = params.required("cluster");
    assert!(result.err().unwrap().message().contains("cluster"));
}

#[test]
fn missing_task_arn_param_errors() {
    let params = args("{}");
    let result = params.required("task_arn");
    assert!(result.err().unwrap().message().contains("task_arn"));
}

#[test]
fn missing_name_param() {
    let params = args("{}");
    let result = params.required("name");
    assert!(result.err().unwrap().message().contains("name"));
}

#[test]
fn missing_param_message_is_exact() {
    let e = args("{\"bucket\": 3}").required("bucket").err().unwrap();
    assert_eq!(e.message(), "missing required param: bucket");
}

#[test]
fn max_param_absent_is_none() {
    let params = args(r#"{ "repo": "my-app" }"#);
    let max = params.int32("max");
    assert!(max.is_none());
}

#[test]
fn max_param_present_parsed_correctly() {
    let params = args(r#"{ "repo": "my-app", "max": 5 }"#);
    let max = params.int32("max");
    assert_eq!(max, Some(5));
}

#[test]
fn integer_argument_is_cut_like_a_cast() {
    let params = args(r#"{ "max": 4294967297, "neg": -2, "big": 18446744073709551615, "f": 1.5 }"#);
    assert_eq!(params.int32("max"), Some(1));
    assert_eq!(params.integer("neg"), Some(-2));
    assert_eq!(params.integer("big"), None);
    assert_eq!(params.uint("big"), Some(u64::MAX));
    assert_eq!(params.integer("f"), None);
    assert_eq!(params.uint("neg"), None);
}

#[test]
fn optional_service_param_is_none_when_absent() {
    let params = args(r#"{ "cluster": "my-cluster" }"#);
    let service = params.text("service");
    assert!(service.is_none());
}

#[test]
fn optional_service_param_is_some_when_present() {
    let params = args(r#"{ "cluster": "my-cluster", "service": "my-service" }"#);
    let service = params.text("service");
    assert_eq!(service.as_deref(), Some("my-service"));
}

#[test]
fn profile_is_checked_before_arguments() {
    let state = new_shared_state();
    let e = object_request(&state, &args("{}")).err().unwrap();
    assert!(e.message().contains("No active AWS profile"));
    let e = object_request(&signed_in(), &args(r#"{"bucket": "b"}"#)).err().unwrap();
    assert_eq!(e.message(), "missing required param: key");
}

#[test]
fn list_objects_request_reads_optional_arguments() {
    let q = list_objects_request(&signed_in(), &args(r#"{"bucket": "b", "prefix": "logs/", "max_keys": 10}"#)).ok().unwrap();
    assert_eq!(q.profile.name, "dev");
    assert_eq!(q.bucket, "b");
    assert_eq!(q.prefix.as_deref(), Some("logs/"));
    assert_eq!(q.max_keys, Some(10));
}

#[test]
fn put_object_request_takes_utf8_body() {
    let q = put_object_request(&signed_in(), &args(r#"{"bucket": "b", "key": "k", "body": "héllo"}"#)).ok().unwrap();
    assert_eq!(q.body, "héllo".as_bytes().to_vec());
    let e = put_object_request(&signed_in(), &args(r#"{"bucket": "b", "key": "k"}"#)).err().unwrap();
    assert_eq!(e.message(), "missing required param: body");
}

#[test]
fn presign_defaults_to_an_hour() {
    let q = presign_request(&signed_in(), &args(r#"{"bucket": "b", "key": "k"}"#)).ok().unwrap();
    assert_eq!(q.expires_secs, 3600);
    let q = presign_request(&signed_in(), &args(r#"{"bucket": "b", "key": "k", "expires_secs": 60}"#)).ok().unwrap();
    assert_eq!(q.expires_secs, 60);
}

#[test]
fn named_request_reads_its_arguments() {
    let q = named_request(&signed_in(), &args(r#"{"group": "g", "stream": "s", "since": 30}"#), "group", Some("stream"), Some("since")).ok().unwrap();
    assert_eq!(q.target, "g");
    assert_eq!(q.option.as_deref(), Some("s"));
    assert_eq!(q.number, Some(30));
    let q = named_request(&signed_in(), &args(r#"{"cluster": "c", "service": "s"}"#), "cluster", None, None).ok().unwrap();
    assert!(q.option.is_none());
}

#[test]
fn search_and_describe_requests_need_both_arguments() {
    let e = search_request(&signed_in(), &args(r#"{"group": "g"}"#)).err().unwrap();
    assert_eq!(e.message(), "missing required param: query");
    let q = describe_task_request(&signed_in(), &args(r#"{"cluster": "c", "task_arn": "t"}"#)).ok().unwrap();
    assert_eq!(q.task_arn, "t");
}

#[test]
fn lambda_log_group_name() {
    let name = "my-function".to_string();
    let group = lambda_log_group(&name);
    assert_eq!(group, "/aws/lambda/my-function");
}

#[test]
fn tail_default_since_is_15_minutes_ago() {
    let now_ms = std::time::SystemTime::now()
        .duration_since(std::time::UNIX_EPOCH)
        .unwrap()
        .as_millis() as i64;
    let expected_start = now_ms - 15 * 60 * 1000;
    let actual = log_start_ms(now_ms, None, TAIL_WINDOW_MS);
    assert!((actual - expected_start).abs() < 1000);
}

#[test]
fn log_start_uses_since_seconds() {
    assert_eq!(log_start_ms(1_000_000, Some(30), TAIL_WINDOW_MS), 970_000);
    assert_eq!(log_start_ms(10_000_000, None, SEARCH_WINDOW_MS), 6_400_000);
    assert_eq!(log_start_ms(0, Some(i64::MAX), TAIL_WINDOW_MS), 0i64.wrapping_sub(i64::MAX.wrapping_mul(1000)));
}

#[test]
fn keep_last_keeps_most_recent() {
    assert_eq!(keep_last(vec![1, 2, 3, 4, 5], 2), vec![4, 5]);
    assert_eq!(keep_last(vec![1, 2], 5), vec![1, 2]);
    assert_eq!(keep_last(vec![1, 2], -1), Vec::<i32>::new());
}

#[test]
fn base64_encode_hello() {
    assert_eq!(base64_encode(b"Hello"), "SGVsbG8=");
}

#[test]
fn base64_encode_empty() {
    assert_eq!(base64_encode(b""), "");
}

#[test]
fn base64_padding_and_alphabet() {
    assert_eq!(base64_encode(b"M"), "TQ==");
    assert_eq!(base64_encode(b"Ma"), "TWE=");
    assert_eq!(base64_encode(b"Man"), "TWFu");
    assert_eq!(base64_encode(&[0xfb, 0xff, 0xbf]), "+/+/");
    assert_eq!(base64_encode(b"Hello").len(), 8);
}

#[test]
fn base64_of_concatenation() {
    let a = b"abc";
    let b = b"de";
    let ab = b"abcde";
    assert_eq!(base64_encode(ab), format!("{}{}", base64_encode(a), base64_encode(b)));
}

#[test]
fn object_content_is_text_or_base64() {
    let c = object_content("hé".as_bytes());
    assert_eq!(c.content, "hé");
    assert_eq!(c.encoding.name(), "utf8");
    let c = object_content(&[0xff, 0x00]);
    assert_eq!(c.content, "/wA=");
    assert!(matches!(c.encoding, ContentEncoding::Base64));
    assert_eq!(c.encoding.name(), "base64");
}

#[test]
fn payload_text_is_empty_for_invalid_utf8() {
    assert_eq!(payload_text(b"{\"ok\":1}"), "{\"ok\":1}");
    assert_eq!(payload_text(&[0xc3]), "");
}

#[test]
fn every_tool_checks_profile_then_required_in_order() {
    let none = new_shared_state();
    let e = check_call("logs_search", &none, &args("{}")).err().unwrap();
    assert_eq!(e.message(), no_profile_message());
    let e = check_call("logs_search", &signed_in(), &args("{\"query\": \"x\"}")).err().unwrap();
    assert_eq!(e.message(), "missing required param: group");
    let e = check_call("s3_put_object", &signed_in(), &args("{\"bucket\": \"b\", \"key\": 3}")).err().unwrap();
    assert_eq!(e.message(), "missing required param: key");
    assert!(check_call("s3_put_object", &signed_in(), &args("{\"bucket\": \"b\", \"key\": \"k\", \"body\": \"\"}")).is_ok());
    assert!(check_call("s3_list_buckets", &signed_in(), &args("{}")).is_ok());
}

#[test]
fn account_tools_need_no_profile() {
    let none = new_shared_state();
    assert!(check_call("list_accounts", &none, &args("{}")).is_ok());
    let e = check_call("switch_account", &none, &args("{}")).err().unwrap();
    assert_eq!(e.message(), "missing required param: profile");
    assert!(check_call("sso_login", &none, &args("{\"profile\": \"dev\"}")).is_ok());
    assert!(check_call("sso_logout", &none, &args("{}")).is_ok());
    assert!(check_call("no_such_tool", &none, &args("{}")).is_ok());
}
