use apiary::keys::can_mask;
use apiary::api_keys::{format_management_id, validate_configuration_key, validate_management_key, KeyCheck, KeyValidationRow};
use apiary::client::HoneycombClient;
use apiary::keys::{
    determine_source, is_configuration_key, is_management_key, mask_identifier, resolve_api_url,
    resolve_credentials, ConfigurationKeyMaterial, CredentialInputs, KeySource, ManagementKeyMaterial,
};

fn s(v: &str) -> String {
    v.to_string()
}

fn no_inputs() -> CredentialInputs {
    CredentialInputs {
        management_key_id: None,
        management_key_secret: None,
        config_key: None,
        api_key: None,
        env_management_key_id: None,
        env_config_key: None,
        env_api_key: None,
    }
}

#[test]
fn mask_short_identifier_is_all_stars() {
    assert_eq!(mask_identifier("abc"), "***");
    assert_eq!(mask_identifier("12345678"), "********");
    assert_eq!(mask_identifier(""), "");
}

#[test]
fn mask_long_identifier_keeps_ends() {
    assert_eq!(mask_identifier("123456789"), "1234***6789");
    assert_eq!(mask_identifier("hcaik_abcdefghijkl"), "hcai***ijkl");
}

#[test]
fn key_shapes() {
    assert!(is_management_key("hcxmk_123"));
    assert!(is_management_key("hcamk_123"));
    assert!(!is_management_key("hcaik_123"));
    assert!(is_configuration_key("hcaik_123"));
    assert!(is_configuration_key(&"a".repeat(64)));
    assert!(!is_configuration_key(&"a".repeat(63)));
    assert!(!is_configuration_key("hcxmk_1"));
}

#[test]
fn source_follows_environment_value() {
    let env = determine_source("abc", Some("abc"), "VAR", "--flag");
    assert_eq!(env.to_string(), "env:VAR");
    let flag = determine_source("abc", Some("xyz"), "VAR", "--flag");
    assert_eq!(flag.to_string(), "flag:--flag");
    let none = determine_source("abc", None, "VAR", "--flag");
    assert!(matches!(none, KeySource::Flag("--flag")));
}

#[test]
fn explicit_management_key_with_secret() {
    let mut i = no_inputs();
    i.management_key_id = Some(s("hcxmk_id"));
    i.management_key_secret = Some(s("secret"));
    i.env_management_key_id = Some(s("hcxmk_id"));
    let c = resolve_credentials(&i);
    assert_eq!(c.management_key.as_deref(), Some("hcxmk_id:secret"));
    let m = c.key_material.management.unwrap();
    assert_eq!(m.id, "hcxmk_id");
    assert!(!m.masked);
    assert!(m.has_secret);
    assert_eq!(m.source.to_string(), "env:HONEYCOMB_MANAGEMENT_API_KEY_ID");
    assert!(c.config_key.is_none());
    assert!(c.key_material.configuration.is_none());
}

#[test]
fn management_id_without_secret_gives_no_key() {
    let mut i = no_inputs();
    i.management_key_id = Some(s("hcxmk_id"));
    let c = resolve_credentials(&i);
    assert!(c.management_key.is_none());
    let m = c.key_material.management.unwrap();
    assert!(!m.has_secret);
    assert_eq!(m.source.to_string(), "flag:--management-key-id");
}

#[test]
fn legacy_key_serves_as_management_key_only() {
    let mut i = no_inputs();
    let key = format!("hcxmk_{}", "a".repeat(58));
    i.api_key = Some(key.clone());
    let c = resolve_credentials(&i);
    assert_eq!(c.management_key.as_deref(), Some(key.as_str()));
    assert!(c.config_key.is_none());
    let m = c.key_material.management.unwrap();
    assert!(m.masked);
    assert!(m.has_secret);
    assert_eq!(m.source.to_string(), "flag:--api-key");
}

#[test]
fn legacy_key_serves_as_configuration_key() {
    let mut i = no_inputs();
    i.api_key = Some(s("hcaik_abc"));
    i.env_api_key = Some(s("hcaik_abc"));
    let c = resolve_credentials(&i);
    assert!(c.management_key.is_none());
    assert_eq!(c.config_key.as_deref(), Some("hcaik_abc"));
    let k = c.key_material.configuration.unwrap();
    assert_eq!(k.source.to_string(), "env:HONEYCOMB_API_KEY");
}

#[test]
fn explicit_configuration_key_wins_over_legacy() {
    let mut i = no_inputs();
    i.config_key = Some(s("cfg"));
    i.api_key = Some(s("hcaik_abc"));
    let c = resolve_credentials(&i);
    assert_eq!(c.config_key.as_deref(), Some("cfg"));
    assert_eq!(c.key_material.configuration.unwrap().source.to_string(), "flag:--config-key");
}

#[test]
fn unrecognised_legacy_key_is_ignored() {
    let mut i = no_inputs();
    i.api_key = Some(s("something"));
    let c = resolve_credentials(&i);
    assert!(c.management_key.is_none());
    assert!(c.config_key.is_none());
}

#[test]
fn api_url_resolution() {
    assert_eq!(resolve_api_url(Some(s("http://x")), Some(s("y"))).as_deref(), Some("http://x"));
    assert_eq!(resolve_api_url(None, Some(s("api.eu1.example.io"))).as_deref(), Some("https://api.eu1.example.io"));
    assert_eq!(resolve_api_url(None, Some(s("http://local"))).as_deref(), Some("http://local"));
    assert_eq!(resolve_api_url(None, Some(s("https://secure"))).as_deref(), Some("https://secure"));
    assert_eq!(resolve_api_url(None, None), None);
}

#[test]
fn management_id_shown_masked_only_for_whole_keys() {
    let plain = ManagementKeyMaterial { id: s("hcxmk_identifier"), source: KeySource::Flag("--x"), masked: false, has_secret: true };
    assert_eq!(format_management_id(&plain), "hcxmk_identifier");
    let hidden = ManagementKeyMaterial { id: s("hcxmk_identifier"), source: KeySource::Flag("--x"), masked: true, has_secret: true };
    assert_eq!(format_management_id(&hidden), "hcxm***fier");
}

#[test]
fn key_rows() {
    let row = KeyValidationRow::not_configured("management");
    assert_eq!(row.status, "not configured");
    assert_eq!(row.source, "-");
    let v = KeyValidationRow::valid("configuration", s("env:X"), s("id"), s("ok"));
    assert_eq!(v.status, "valid");
    let bad = KeyValidationRow::invalid("configuration", s("env:X"), s("id"), s("no"));
    assert_eq!(bad.status, "invalid");
    assert_eq!(bad.cells(), vec![s("configuration"), s("env:X"), s("id"), s("invalid"), s("no")]);
    assert_eq!(
        bad.pretty_lines(),
        vec![s("configuration key"), s("  Source : env:X"), s("  Key ID : id"), s("  Status : invalid"), s("  Details: no"), s("")]
    );
}

#[test]
fn management_key_checks() {
    let with_key = HoneycombClient::new(Some(s("k")), None, None);
    let without = HoneycombClient::new(None, None, None);
    match validate_management_key(&with_key, &None) {
        KeyCheck::Decided(row) => assert_eq!(row.status, "not configured"),
        _ => panic!("expected a decided row"),
    }
    let no_secret = Some(ManagementKeyMaterial { id: s("hcxmk_1"), source: KeySource::Env("V"), masked: false, has_secret: false });
    match validate_management_key(&with_key, &no_secret) {
        KeyCheck::Decided(row) => {
            assert_eq!(row.status, "invalid");
            assert_eq!(row.details, "Missing management key secret");
            assert_eq!(row.source, "env:V");
        }
        _ => panic!("expected a decided row"),
    }
    let full = Some(ManagementKeyMaterial { id: s("hcxmk_1"), source: KeySource::Env("V"), masked: false, has_secret: true });
    match validate_management_key(&without, &full) {
        KeyCheck::Decided(row) => assert_eq!(row.details, "Management key not configured for client"),
        _ => panic!("expected a decided row"),
    }
    let check = validate_management_key(&with_key, &full);
    assert!(matches!(check, KeyCheck::Probe { path: "/2/auth", .. }));
    let ok = check.clone().conclude(Ok(()));
    assert_eq!(ok.status, "valid");
    assert_eq!(ok.details, "Validated via /2/auth");
    let failed = check.conclude(Err(s("Request failed with status 401 Unauthorized: nope")));
    assert_eq!(failed.status, "invalid");
    assert_eq!(failed.details, "Request failed with status 401 Unauthorized: nope");
}

#[test]
fn configuration_key_checks() {
    let with_key = HoneycombClient::new(None, Some(s("c")), None);
    let without = HoneycombClient::new(None, None, None);
    let material = Some(ConfigurationKeyMaterial { id: s("hcaik_0123456789"), source: KeySource::Flag("--config-key") });
    match validate_configuration_key(&without, &material) {
        KeyCheck::Decided(row) => {
            assert_eq!(row.details, "Configuration key not configured for client");
            assert_eq!(row.key_id, "hcai***6789");
        }
        _ => panic!("expected a decided row"),
    }
    let check = validate_configuration_key(&with_key, &material);
    let row = check.conclude(Ok(()));
    assert_eq!(row.details, "Validated via /1/auth");
    assert_eq!(row.key_type, "configuration");
}

#[test]
fn mask_counts_bytes_not_characters() {
    // five 'é' are ten bytes: the first and last four bytes stay
    assert_eq!(mask_identifier("ééééé"), "éé***éé");
    // two 'é' are four bytes: four stars, as for any four-byte identifier
    assert_eq!(mask_identifier("éé"), "****");
    assert_eq!(mask_identifier("éé"), mask_identifier("abcd"));
}

#[test]
fn mask_precondition_follows_char_boundaries() {

    assert!(can_mask("ééééé"));
    assert!(can_mask("éé"));
    // 'aéééé': byte 4 falls inside the third 'é'
    assert!(!can_mask("aéééé"));
}
