use local_config::config::LocalConfig;
use local_config::identity::{dev_instance_name, dev_secret, ConfigError, InstanceSecret, SecretError};
use local_config::text::u16_dec_string;

fn default_config() -> LocalConfig {
    LocalConfig::default()
}

#[test]
fn http_bind_address_returns_interface_and_port() {
    let mut c = default_config();
    c.interface = [10, 0, 0, 7];
    c.port = 8080;
    assert_eq!(c.http_bind_address(), ([10, 0, 0, 7], 8080));
}

#[test]
fn http_bind_address_defaults() {
    let c = default_config();
    assert_eq!(c.http_bind_address(), ([0, 0, 0, 0], 3210));
}

#[test]
fn site_bind_address_is_present_with_site_proxy_port() {
    let mut c = default_config();
    c.interface = [127, 0, 0, 1];
    c.site_proxy_port = 4000;
    assert_eq!(c.site_bind_address(), Some(([127, 0, 0, 1], 4000)));
}

#[test]
fn origin_url_falls_back_to_local_port() {
    let c = default_config();
    assert_eq!(c.convex_origin_url(), "http://127.0.0.1:3210");
}

#[test]
fn origin_url_uses_explicit_origin_verbatim() {
    let mut c = default_config();
    c.convex_origin = Some("https://example.com".to_string());
    c.port = 9999;
    assert_eq!(c.convex_origin_url(), "https://example.com");
}

#[test]
fn origin_url_is_idempotent() {
    let mut c = default_config();
    c.port = 4321;
    assert_eq!(c.convex_origin_url(), c.convex_origin_url());
    c.convex_origin = Some("https://example.com".to_string());
    assert_eq!(c.convex_origin_url(), c.convex_origin_url());
}

#[test]
fn site_url_falls_back_to_local_site_proxy_port() {
    let c = default_config();
    assert_eq!(c.convex_site_url(), "http://127.0.0.1:3211");
}

#[test]
fn site_url_uses_explicit_site_verbatim() {
    let mut c = default_config();
    c.convex_site = Some("https://site.example.com".to_string());
    c.site_proxy_port = 1234;
    assert_eq!(c.convex_site_url(), "https://site.example.com");
}

#[test]
fn origin_url_port_edges() {
    let mut c = default_config();
    c.port = 0;
    assert_eq!(c.convex_origin_url(), "http://127.0.0.1:0");
    c.port = 65535;
    assert_eq!(c.convex_origin_url(), "http://127.0.0.1:65535");
}

#[test]
fn dec_string_exact_values() {
    assert_eq!(u16_dec_string(0), "0");
    assert_eq!(u16_dec_string(7), "7");
    assert_eq!(u16_dec_string(10), "10");
    assert_eq!(u16_dec_string(3210), "3210");
    assert_eq!(u16_dec_string(65535), "65535");
}

#[test]
fn storage_dir_is_local_storage_unchanged() {
    let c = default_config();
    assert_eq!(c.storage_dir(), "convex_local_storage");
    let mut c = default_config();
    c.local_storage = "some/dir/../with dots".to_string();
    assert_eq!(c.storage_dir(), "some/dir/../with dots");
}

#[test]
fn default_identity_succeeds_with_development_values() {
    let c = default_config();
    let kb = c.key_broker().unwrap();
    assert_eq!(kb.name, dev_instance_name());
    let expected = InstanceSecret::try_from(dev_secret()).unwrap();
    assert_eq!(kb.secret.bytes(), expected.bytes());
    assert_eq!(kb.secret.bytes().len(), 32);
    assert_eq!(kb.secret.bytes()[0], 0x43);
}

#[test]
fn default_name_is_development_name() {
    let c = default_config();
    assert_eq!(c.name(), "carnitas");
    assert_eq!(dev_instance_name(), "carnitas");
}

#[test]
fn explicit_name_is_used() {
    let mut c = default_config();
    c.instance_name = Some("acme".to_string());
    c.instance_secret = Some(dev_secret().to_string());
    assert_eq!(c.name(), "acme");
    let kb = c.key_broker().unwrap();
    assert_eq!(kb.name, "acme");
}

#[test]
fn invalid_secret_fails_key_broker() {
    let mut c = default_config();
    c.instance_name = Some("acme".to_string());
    c.instance_secret = Some("not-a-valid-secret".to_string());
    let err = match c.key_broker() {
        Ok(_) => panic!("expected key broker construction to fail"),
        Err(e) => e,
    };
    assert!(matches!(err, ConfigError::InvalidSecret(_)));
    assert_eq!(err, ConfigError::InvalidSecret(SecretError::WrongLength));
}

#[test]
fn secret_with_wrong_length_is_rejected() {
    match InstanceSecret::try_from("abcd") {
        Ok(_) => panic!("expected a length error"),
        Err(e) => assert_eq!(e, ConfigError::InvalidSecret(SecretError::WrongLength)),
    }
}

#[test]
fn secret_with_non_hex_character_is_rejected() {
    let mut s = "0".repeat(63);
    s.push('z');
    match InstanceSecret::try_from(s.as_str()) {
        Ok(_) => panic!("expected a hex-digit error"),
        Err(e) => assert_eq!(e, ConfigError::InvalidSecret(SecretError::NotHex)),
    }
}

#[test]
fn valid_secret_decodes_to_bytes() {
    let zeros = "0".repeat(64);
    let sec = InstanceSecret::try_from(zeros.as_str()).unwrap();
    assert_eq!(sec.bytes(), &vec![0u8; 32]);

    let sec = InstanceSecret::try_from(
        "000102030405060708090a0b0c0d0e0f101112131415161718191a1b1c1d1eFF",
    )
    .unwrap();
    let mut expected: Vec<u8> = (0u8..31).collect();
    expected.push(0xff);
    assert_eq!(sec.bytes(), &expected);
}

#[test]
fn dev_secret_is_valid_and_decodes() {
    let sec = InstanceSecret::try_from(dev_secret()).unwrap();
    assert_eq!(sec.bytes(), &b"Carnitas, literally meaning \"lit".to_vec());
}

#[test]
fn http_proxy_is_carried_through() {
    let mut c = default_config();
    c.convex_http_proxy = Some(url::Url::parse("http://proxy.example.com:8080").unwrap());
    let c2 = c.clone();
    assert_eq!(
        c2.convex_http_proxy.as_ref().map(|u| u.as_str()),
        Some("http://proxy.example.com:8080/")
    );
    assert_eq!(c2.convex_origin_url(), "http://127.0.0.1:3210");
}

#[test]
fn defaults_match_expected_values() {
    let c = default_config();
    assert_eq!(c.db_spec, "convex_local_backend.sqlite3");
    assert_eq!(c.interface, [0, 0, 0, 0]);
    assert_eq!(c.port, 3210);
    assert_eq!(c.site_proxy_port, 3211);
    assert!(c.convex_origin.is_none());
    assert!(c.convex_site.is_none());
    assert!(c.convex_http_proxy.is_none());
    assert!(c.instance_name.is_none());
    assert!(c.instance_secret.is_none());
    assert!(c.sentry_identifier.is_none());
    assert_eq!(c.local_storage, "convex_local_storage");
}
