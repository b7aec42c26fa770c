use ssh_casign::attrs::AttrMap;
use ssh_casign::authority::file::{Config as FileConfig, State};
use ssh_casign::authority::{Config, LoadError, ProviderConfig, SignError, Signer};
use ssh_casign::claims::{CertificateClaims, ClaimValue};
use ssh_casign::options::{CertType, CertificateOptions};
use ssh_casign::request::{sign_certificate, sign_key, RequestError};
use ssh_casign::settings::{ApplyError, CertificateSettings, ProfileSelector, Profiles};

fn ca_key_text() -> String {
    let key = ssh_key::PrivateKey::random(&mut rand::rngs::OsRng, ssh_key::Algorithm::Ed25519)
        .expect("key generation");
    key.to_openssh(ssh_key::LineEnding::LF).expect("encoding").to_string()
}

fn client_key() -> ssh_key::PublicKey {
    ssh_key::PrivateKey::random(&mut rand::rngs::OsRng, ssh_key::Algorithm::Ed25519)
        .expect("key generation")
        .public_key()
        .clone()
}

fn authority(types: Vec<CertType>) -> State {
    FileConfig { private_key: ca_key_text(), cert_types: types }.load().expect("authority")
}

fn user_options(principals: &[&str], validity: Option<u64>) -> CertificateOptions {
    let mut o = CertificateOptions::new_user(client_key());
    for p in principals {
        o.add_principal(p.to_string());
    }
    if let Some(v) = validity {
        o.set_validity(v);
    }
    o
}

fn claims(principals: &[&str], validity: Option<u64>) -> CertificateClaims {
    CertificateClaims {
        validity,
        key_id: None,
        valid_principals: principals.iter().map(|p| p.to_string()).collect(),
        comment: None,
        critical_options: None,
        extensions: None,
        other: vec![("team".to_string(), ClaimValue::Str("infra".to_string()))],
    }
}

fn settings(authority: &str, validity: u64) -> CertificateSettings {
    CertificateSettings {
        ssh_ca: authority.to_string(),
        validity,
        comment: None,
        critical_options: None,
        extensions: None,
    }
}

fn attrs(pairs: &[(&str, &str)]) -> AttrMap {
    let mut m = AttrMap::new();
    for (k, v) in pairs {
        m.set(k.to_string(), v.to_string());
    }
    m
}

fn prod_profiles() -> Profiles {
    Profiles {
        map: vec![ProfileSelector {
            claim: "team".to_string(),
            value: "infra".to_string(),
            settings: settings("prod", 3600),
        }],
        default: None,
    }
}

fn prod_config(types: Vec<CertType>) -> Config {
    Config {
        providers: vec![(
            "prod".to_string(),
            ProviderConfig::File(FileConfig { private_key: ca_key_text(), cert_types: types }),
        )],
    }
}

#[test]
fn options_collapse_duplicate_principals() {
    let mut o = user_options(&["alice", "bob", "alice"], None);
    assert_eq!(o.principals(), &vec!["alice".to_string(), "bob".to_string()]);
    o.clear_principals();
    assert!(o.principals().is_empty());
    assert_eq!(o.cert_type(), CertType::User);
    assert_eq!(CertificateOptions::new_host(client_key()).cert_type(), CertType::Host);
}

#[test]
fn options_setters_and_clearers() {
    let mut o = user_options(&[], None);
    o.set_validity(10);
    o.set_key_id("id".to_string());
    o.set_comment("c".to_string());
    o.set_extension("e".to_string(), "1".to_string());
    o.set_critical_option("force-command".to_string(), "ls".to_string());
    assert_eq!(o.validity(), Some(10));
    assert_eq!(o.key_id(), Some("id"));
    assert_eq!(o.comment(), Some("c"));
    assert_eq!(o.extensions().len(), 1);
    assert_eq!(o.critical_options().len(), 1);
    o.unset_extension(&"e".to_string());
    o.unset_critical_option(&"force-command".to_string());
    assert_eq!(o.extensions().len(), 0);
    assert_eq!(o.critical_options().len(), 0);
    o.set_extension("x".to_string(), "1".to_string());
    o.clear_extensions();
    o.set_critical_option("y".to_string(), "1".to_string());
    o.clear_critical_options();
    o.clear_validity();
    o.clear_key_id();
    o.clear_comment();
    assert_eq!(o.validity(), None);
    assert_eq!(o.key_id(), None);
    assert_eq!(o.comment(), None);
    assert_eq!(o.extensions().len(), 0);
    assert_eq!(o.critical_options().len(), 0);
}

#[test]
fn apply_without_principals_changes_nothing() {
    let mut o = user_options(&["root"], Some(5));
    o.set_comment("kept".to_string());
    let mut s = settings("prod", 3600);
    s.comment = Some("policy".to_string());
    s.extensions = Some(attrs(&[("b", "2")]));
    let r = s.apply(&mut o, &claims(&[], Some(600)));
    assert_eq!(r, Err(ApplyError::NoPrincipals));
    assert_eq!(o.principals(), &vec!["root".to_string()]);
    assert_eq!(o.validity(), Some(5));
    assert_eq!(o.comment(), Some("kept"));
    assert_eq!(o.extensions().len(), 0);
}

#[test]
fn claimed_extensions_replace_policy_extensions() {
    let mut o = user_options(&[], None);
    let mut s = settings("prod", 3600);
    s.extensions = Some(attrs(&[("b", "2")]));
    let mut c = claims(&["alice"], None);
    c.extensions = Some(attrs(&[("a", "1")]));
    assert_eq!(s.apply(&mut o, &c), Ok(()));
    assert_eq!(o.extensions().entries(), &vec![("a".to_string(), "1".to_string())]);
}

#[test]
fn policy_defaults_fill_what_claims_leave_out() {
    let mut o = user_options(&[], None);
    let mut s = settings("prod", 3600);
    s.comment = Some("policy".to_string());
    s.extensions = Some(attrs(&[("b", "2")]));
    s.critical_options = Some(attrs(&[("source-address", "10.0.0.0/8")]));
    let mut c = claims(&["alice", "bob"], None);
    c.key_id = Some("kid".to_string());
    assert_eq!(s.apply(&mut o, &c), Ok(()));
    assert_eq!(o.principals(), &vec!["alice".to_string(), "bob".to_string()]);
    assert_eq!(o.validity(), Some(3600));
    assert_eq!(o.key_id(), Some("kid"));
    assert_eq!(o.comment(), Some("policy"));
    assert_eq!(o.extensions().entries(), &vec![("b".to_string(), "2".to_string())]);
    assert_eq!(o.critical_options().len(), 1);
}

#[test]
fn claims_win_over_policy_defaults() {
    let mut o = user_options(&[], None);
    let mut s = settings("prod", 3600);
    s.comment = Some("policy".to_string());
    s.critical_options = Some(attrs(&[("x", "1")]));
    let mut c = claims(&["alice"], Some(600));
    c.comment = Some("mine".to_string());
    c.critical_options = Some(attrs(&[("y", "2")]));
    assert_eq!(s.apply(&mut o, &c), Ok(()));
    assert_eq!(o.validity(), Some(600));
    assert_eq!(o.comment(), Some("mine"));
    assert_eq!(o.key_id(), None);
    assert_eq!(o.critical_options().entries(), &vec![("y".to_string(), "2".to_string())]);
}

#[test]
fn user_only_authority_rejects_host_certificates() {
    let ca = authority(vec![CertType::User]);
    let mut o = CertificateOptions::new_host(client_key());
    o.add_principal("web1".to_string());
    o.set_validity(3600);
    assert!(matches!(ca.check(&o), Err(SignError::UnsupportedCertType)));
    assert!(matches!(ca.sign(&o), Err(SignError::UnsupportedCertType)));
    assert!(matches!(ca.sign_at(&o, 1_700_000_000), Err(SignError::UnsupportedCertType)));
}

#[test]
fn checks_come_in_order() {
    let ca = authority(vec![CertType::User]);
    let mut host = CertificateOptions::new_host(client_key());
    assert!(matches!(ca.sign(&host), Err(SignError::NoPrincipals)));
    host.add_principal("web1".to_string());
    assert!(matches!(ca.sign(&host), Err(SignError::UnsupportedCertType)));
    let o = user_options(&["alice"], None);
    assert!(matches!(ca.sign(&o), Err(SignError::UnknownValidity)));
    assert!(matches!(ca.check(&user_options(&["alice"], Some(7))), Ok(7)));
}

#[test]
fn validity_window_starts_at_the_clock() {
    let ca = authority(vec![CertType::User]);
    let o = user_options(&["alice"], Some(3600));
    let t = 1_700_000_000u64;
    assert!(matches!(ca.validity_window(&o, t), Ok((a, b)) if a == t && b == t + 3600));
    let cert = ca.sign_at(&o, t).expect("certificate");
    assert_eq!(cert.valid_after(), t);
    assert_eq!(cert.valid_before(), t + 3600);
}

#[test]
fn window_past_the_largest_time_fails() {
    let ca = authority(vec![CertType::User]);
    let o = user_options(&["alice"], Some(u64::MAX));
    assert!(matches!(ca.validity_window(&o, 1), Err(SignError::TimestampOverflow)));
    assert!(matches!(ca.sign_at(&o, 1), Err(SignError::TimestampOverflow)));
    let o = user_options(&["alice"], Some(u64::MAX - 10));
    assert!(matches!(ca.sign_at(&o, 1), Err(SignError::Certificate(_))));
}

#[test]
fn nonces_differ_between_certificates() {
    let ca = authority(vec![CertType::User]);
    let o = user_options(&["alice"], Some(60));
    let a = ca.sign_at(&o, 1_700_000_000).expect("certificate");
    let b = ca.sign_at(&o, 1_700_000_000).expect("certificate");
    assert_eq!(a.nonce().len(), 32);
    assert_eq!(b.nonce().len(), 32);
    assert_ne!(a.nonce(), b.nonce());
}

#[test]
fn certificate_carries_every_option() {
    let ca = authority(vec![CertType::User, CertType::Host]);
    let mut o = CertificateOptions::new_host(client_key());
    o.add_principal("web1".to_string());
    o.add_principal("web2".to_string());
    o.set_validity(60);
    o.set_key_id("kid".to_string());
    o.set_comment("note".to_string());
    o.set_extension("permit-pty".to_string(), "".to_string());
    o.set_critical_option("force-command".to_string(), "ls".to_string());
    let cert = ca.sign(&o).expect("certificate");
    assert_eq!(cert.valid_principals(), &["web1".to_string(), "web2".to_string()]);
    assert_eq!(cert.cert_type(), ssh_key::certificate::CertType::Host);
    assert_eq!(cert.key_id(), "kid");
    assert_eq!(cert.comment(), "note");
    assert_eq!(cert.extensions().len(), 1);
    assert_eq!(cert.critical_options().get("force-command").map(String::as_str), Some("ls"));
    assert_eq!(cert.valid_before() - cert.valid_after(), 60);
    assert!(cert.valid_after() > 1_600_000_000);
}

#[test]
fn load_builds_named_authorities() {
    let registry = prod_config(vec![CertType::User]).load().expect("registry");
    assert!(registry.get(&"prod".to_string()).is_some());
    assert!(registry.get(&"test".to_string()).is_none());
}

#[test]
fn load_fails_on_a_bad_key() {
    let config = Config {
        providers: vec![(
            "broken".to_string(),
            ProviderConfig::File(FileConfig { private_key: "not a key".to_string(), cert_types: vec![] }),
        )],
    };
    assert!(matches!(config.load(), Err(LoadError::PrivateKey(name, _)) if name == "broken"));
}

#[test]
fn end_to_end_issues_a_certificate() {
    let registry = prod_config(vec![CertType::User]).load().expect("registry");
    let c = claims(&["alice"], Some(600));
    let cert = sign_certificate(&prod_profiles(), &registry, &c, client_key(), CertType::User)
        .expect("certificate");
    assert_eq!(cert.valid_principals(), &["alice".to_string()]);
    assert_eq!(cert.valid_before() - cert.valid_after(), 600);
    let key_text = client_key().to_openssh().expect("encoding");
    let text = sign_key(&prod_profiles(), &registry, &c, &key_text, CertType::User).expect("certificate");
    let parsed = ssh_key::Certificate::from_openssh(&text).expect("parse");
    assert_eq!(parsed.valid_principals(), &["alice".to_string()]);
    assert_eq!(parsed.valid_before() - parsed.valid_after(), 600);
}

#[test]
fn end_to_end_without_principals_is_denied() {
    let registry = prod_config(vec![CertType::User]).load().expect("registry");
    let c = claims(&[], Some(600));
    let r = sign_certificate(&prod_profiles(), &registry, &c, client_key(), CertType::User);
    let e = r.err().expect("denial");
    assert!(matches!(e, RequestError::NoPrincipals));
    assert_eq!(e.status(), 403);
    assert_eq!(e.message(), "No applicable profile for client");
}

#[test]
fn request_errors_are_classified() {
    let registry = prod_config(vec![CertType::User]).load().expect("registry");
    let c = claims(&["alice"], None);
    let bad = sign_key(&prod_profiles(), &registry, &c, "ssh-ed25519 garbage", CertType::User)
        .err()
        .expect("error");
    assert!(matches!(bad, RequestError::InvalidPublicKey(_)));
    assert_eq!(bad.status(), 400);
    assert_eq!(bad.message(), "Not a valid ssh public key");

    let mut other = claims(&["alice"], None);
    other.other = vec![];
    let e = sign_certificate(&prod_profiles(), &registry, &other, client_key(), CertType::User)
        .err()
        .expect("error");
    assert!(matches!(e, RequestError::NoProfile));
    assert_eq!(e.status(), 403);

    let e = sign_certificate(&prod_profiles(), &registry, &c, client_key(), CertType::Host)
        .err()
        .expect("error");
    assert!(matches!(e, RequestError::Sign(SignError::UnsupportedCertType)));
    assert_eq!(e.status(), 403);
    assert_eq!(e.message(), "Failed to generate certificate");

    let empty = Config { providers: vec![] }.load().expect("registry");
    let e = sign_certificate(&prod_profiles(), &empty, &c, client_key(), CertType::User)
        .err()
        .expect("error");
    assert!(matches!(e, RequestError::UnknownAuthority));
    assert_eq!(e.status(), 500);
    assert_eq!(e.message(), "Provider unavailable");
}

#[test]
fn certificate_fields_record_the_options() {
    let ca = authority(vec![CertType::User]);
    let mut o = user_options(&["alice", "bob"], Some(600));
    o.set_key_id("kid".to_string());
    o.set_extension("permit-pty".to_string(), "".to_string());
    let f = ca.certificate_fields(&o, 1000, vec![7u8; 32]).expect("fields");
    assert_eq!(f.valid_after, 1000);
    assert_eq!(f.valid_before, 1600);
    assert_eq!(f.nonce, vec![7u8; 32]);
    assert_eq!(f.cert_type, CertType::User);
    assert_eq!(f.principals, vec!["alice".to_string(), "bob".to_string()]);
    assert_eq!(f.key_id, Some("kid".to_string()));
    assert_eq!(f.comment, None);
    assert_eq!(f.extensions.entries(), &vec![("permit-pty".to_string(), "".to_string())]);
    assert_eq!(f.critical_options.len(), 0);
    let cert = ca.sign_fields(f, o.public_key()).expect("certificate");
    assert_eq!(cert.nonce(), &[7u8; 32][..]);
    assert_eq!(cert.valid_after(), 1000);
    assert_eq!(cert.valid_before(), 1600);
    assert_eq!(cert.valid_principals(), &["alice".to_string(), "bob".to_string()]);
    assert_eq!(cert.public_key(), o.public_key().key_data());
}

#[test]
fn certificate_fields_refuse_what_the_checks_refuse() {
    let ca = authority(vec![CertType::User]);
    let host = {
        let mut o = CertificateOptions::new_host(client_key());
        o.add_principal("web1".to_string());
        o
    };
    assert!(matches!(ca.certificate_fields(&host, 1, vec![]), Err(SignError::UnsupportedCertType)));
    let o = user_options(&["alice"], None);
    assert!(matches!(ca.certificate_fields(&o, 1, vec![]), Err(SignError::UnknownValidity)));
}

#[test]
fn type_is_checked_before_validity() {
    let ca = authority(vec![CertType::User]);
    let mut host = CertificateOptions::new_host(client_key());
    host.add_principal("web1".to_string());
    assert!(matches!(ca.sign(&host), Err(SignError::UnsupportedCertType)));
    assert!(matches!(ca.issue(&host), Err(SignError::UnsupportedCertType)));
}

#[test]
fn load_names_the_first_bad_key() {
    let good = ProviderConfig::File(FileConfig { private_key: ca_key_text(), cert_types: vec![CertType::User] });
    let bad = |k: &str| ProviderConfig::File(FileConfig { private_key: k.to_string(), cert_types: vec![] });
    let config = Config {
        providers: vec![
            ("prod".to_string(), good),
            ("first".to_string(), bad("nope")),
            ("second".to_string(), bad("also nope")),
        ],
    };
    assert!(matches!(config.load(), Err(LoadError::PrivateKey(name, _)) if name == "first"));
    assert!(FileConfig { private_key: ca_key_text(), cert_types: vec![] }.load().is_ok());
    assert!(FileConfig { private_key: String::new(), cert_types: vec![] }.load().is_err());
}
