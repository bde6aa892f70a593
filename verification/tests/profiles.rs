use aws_toolkit::profile::{parse_sso_profiles, ConfigError, ProfileField};
use aws_toolkit::state::{new_shared_state, activate, active_profile, list_accounts, sign_out, switch_account};
use aws_toolkit::profile::SsoProfile;

const SAMPLE_CONFIG: &str = r#"
[default]
region = eu-west-1

[profile dev]
sso_start_url = https://my-org.awsapps.com/start
sso_region = eu-west-1
sso_account_id = 123456789012
sso_role_name = DeveloperAccess
region = eu-west-1

[profile prod]
sso_start_url = https://my-org.awsapps.com/start
sso_region = eu-west-1
sso_account_id = 987654321098
sso_role_name = ReadOnlyAccess
region = eu-west-1
"#;

fn sample_profile(name: &str) -> SsoProfile {
    SsoProfile {
        name: name.into(),
        sso_start_url: "https://x.awsapps.com/start".into(),
        sso_region: "eu-west-1".into(),
        sso_account_id: "123".into(),
        sso_role_name: "Admin".into(),
        region: "eu-west-1".into(),
    }
}

#[test]
fn parse_two_sso_profiles() {
    let profiles = parse_sso_profiles(SAMPLE_CONFIG).ok().unwrap();
    assert_eq!(profiles.len(), 2);
    assert_eq!(profiles[0].name, "dev");
    assert_eq!(profiles[0].sso_account_id, "123456789012");
    assert_eq!(profiles[1].name, "prod");
    assert_eq!(profiles[1].sso_role_name, "ReadOnlyAccess");
}

#[test]
fn skip_profile_missing_sso_fields() {
    let config = "[default]\nregion = us-east-1\n";
    let profiles = parse_sso_profiles(config).ok().unwrap();
    assert_eq!(profiles.len(), 0);
}

#[test]
fn default_region_fallback() {
    let config = "[profile minimal]\nsso_start_url = https://x\nsso_region = us-east-1\nsso_account_id = 111\nsso_role_name = Admin\n";
    let profiles = parse_sso_profiles(config).ok().unwrap();
    assert_eq!(profiles[0].region, "us-east-1");
}

#[test]
fn list_accounts_parse_empty_config() {
    let content = "";
    let profiles = parse_sso_profiles(content).ok().unwrap();
    assert_eq!(profiles.len(), 0);
}

#[test]
fn later_setting_replaces_earlier_and_whitespace_is_trimmed() {
    let config = "  [ignored]\n[profile a]\r\nsso_start_url=u1\nsso_start_url = u2 \n\tsso_region =r\nsso_account_id= 1\nsso_role_name = role = x\nnot a setting\n";
    let profiles = parse_sso_profiles(config).ok().unwrap();
    assert_eq!(profiles.len(), 1);
    assert_eq!(profiles[0].name, "a");
    assert_eq!(profiles[0].sso_start_url, "u2");
    assert_eq!(profiles[0].sso_region, "r");
    assert_eq!(profiles[0].sso_account_id, "1");
    assert_eq!(profiles[0].sso_role_name, "role = x");
    assert_eq!(profiles[0].region, "us-east-1");
}

#[test]
fn header_without_profile_prefix_keeps_its_name() {
    let config = "[sso-only]\nsso_start_url=u\nsso_region=r\nsso_account_id=a\nsso_role_name=n\nregion=eu-north-1";
    let profiles = parse_sso_profiles(config).ok().unwrap();
    assert_eq!(profiles.len(), 1);
    assert_eq!(profiles[0].name, "sso-only");
    assert_eq!(profiles[0].region, "eu-north-1");
}

#[test]
fn sections_parse_independently() {
    let a = "[profile a]\nsso_start_url=u\nsso_region=r\nsso_account_id=1\nsso_role_name=x\n";
    let b = "[profile b]\nsso_start_url=v\nsso_region=s\nsso_account_id=2\nsso_role_name=y\n";
    let both = format!("{a}{b}");
    let pa = parse_sso_profiles(a).ok().unwrap();
    let pb = parse_sso_profiles(b).ok().unwrap();
    let pab = parse_sso_profiles(&both).ok().unwrap();
    assert_eq!(pab.len(), pa.len() + pb.len());
    assert_eq!(pab[0].name, pa[0].name);
    assert_eq!(pab[1].name, pb[0].name);
}

#[test]
fn config_error_names_missing_key() {
    let e = ConfigError::MissingField(ProfileField::SsoRegion);
    assert_eq!(e.message(), "missing sso_region");
}

#[test]
fn default_state_has_no_profile() {
    let state = new_shared_state();
    assert!(state.active_profile.is_none());
}

#[test]
fn can_set_active_profile() {
    let mut state = new_shared_state();
    activate(&mut state, sample_profile("dev"));
    assert_eq!(state.active_profile.as_ref().unwrap().name, "dev");
}

#[test]
fn switch_then_active_profile_reads_it_back() {
    let mut state = new_shared_state();
    let profiles = vec![sample_profile("dev"), sample_profile("prod")];
    let switched = switch_account(&mut state, profiles, "prod").ok().unwrap();
    assert_eq!(switched, "prod");
    assert_eq!(active_profile(&state).ok().unwrap().name, "prod");
}

#[test]
fn switch_to_unknown_profile_fails_and_keeps_state() {
    let mut state = new_shared_state();
    activate(&mut state, sample_profile("dev"));
    let err = switch_account(&mut state, vec![sample_profile("prod")], "qa").err().unwrap();
    assert_eq!(err.message(), "profile not found: qa");
    assert_eq!(state.active_profile.as_ref().unwrap().name, "dev");
}

#[test]
fn sign_out_clears_only_the_active_profile() {
    let mut state = new_shared_state();
    activate(&mut state, sample_profile("dev"));
    sign_out(&mut state, "prod");
    assert!(state.active_profile.is_some());
    sign_out(&mut state, "dev");
    assert!(state.active_profile.is_none());
    assert!(active_profile(&state).err().unwrap().message().contains("No active AWS profile"));
}

#[test]
fn account_list_marks_the_active_account() {
    let mut state = new_shared_state();
    let profiles = vec![sample_profile("dev"), sample_profile("prod")];
    activate(&mut state, sample_profile("prod"));
    let accounts = list_accounts(&profiles, &state);
    assert_eq!(accounts.len(), 2);
    assert!(!accounts[0].active);
    assert!(accounts[1].active);
    assert_eq!(accounts[1].account_id, "123");
    assert_eq!(accounts[1].role, "Admin");
}
