use ssh_casign::attrs::AttrMap;
use ssh_casign::claims::{CertificateClaims, ClaimValue};
use ssh_casign::settings::{CertificateSettings, ProfileSelector, Profiles};

fn settings(authority: &str) -> CertificateSettings {
    CertificateSettings {
        ssh_ca: authority.to_string(),
        validity: 3600,
        comment: None,
        critical_options: None,
        extensions: None,
    }
}

fn claims_with(other: Vec<(String, ClaimValue)>) -> CertificateClaims {
    CertificateClaims {
        validity: None,
        key_id: None,
        valid_principals: vec!["alice".to_string()],
        comment: None,
        critical_options: None,
        extensions: None,
        other,
    }
}

fn selector(claim: &str, value: &str, authority: &str) -> ProfileSelector {
    ProfileSelector {
        claim: claim.to_string(),
        value: value.to_string(),
        settings: settings(authority),
    }
}

fn table(with_default: bool) -> Profiles {
    Profiles {
        map: vec![selector("team", "infra", "s1"), selector("team", "*", "s2")],
        default: if with_default { Some(settings("d")) } else { None },
    }
}

fn text(s: &str) -> ClaimValue {
    ClaimValue::Str(s.to_string())
}

#[test]
fn first_matching_selector_wins() {
    let profiles = Profiles {
        map: vec![selector("team", "infra", "s1"), selector("team", "infra", "s2")],
        default: Some(settings("d")),
    };
    let claims = claims_with(vec![("team".to_string(), text("infra"))]);
    assert_eq!(profiles.lookup(&claims).unwrap().ssh_ca(), "s1");
}

#[test]
fn selector_order_resolves_infra_to_first() {
    let claims = claims_with(vec![("team".to_string(), text("infra"))]);
    assert_eq!(table(true).lookup(&claims).unwrap().ssh_ca(), "s1");
}

#[test]
fn unmatched_claims_get_default() {
    let claims = claims_with(vec![("team".to_string(), text("other"))]);
    assert_eq!(table(true).lookup(&claims).unwrap().ssh_ca(), "d");
}

#[test]
fn unmatched_claims_without_default_get_nothing() {
    let claims = claims_with(vec![("team".to_string(), text("other"))]);
    assert!(table(false).lookup(&claims).is_none());
}

#[test]
fn missing_claim_gets_default() {
    let claims = claims_with(vec![]);
    assert_eq!(table(true).lookup(&claims).unwrap().ssh_ca(), "d");
}

#[test]
fn wildcard_value_is_literal() {
    let claims = claims_with(vec![("team".to_string(), text("*"))]);
    assert_eq!(table(false).lookup(&claims).unwrap().ssh_ca(), "s2");
}

#[test]
fn array_claim_containing_value_matches_in_any_order() {
    let a = ClaimValue::Array(vec![text("ops"), text("infra"), ClaimValue::Other]);
    let b = ClaimValue::Array(vec![ClaimValue::Other, text("infra"), text("ops")]);
    assert!(a.matches(&"infra".to_string()));
    assert!(b.matches(&"infra".to_string()));
    let claims = claims_with(vec![("team".to_string(), b)]);
    assert_eq!(table(false).lookup(&claims).unwrap().ssh_ca(), "s1");
}

#[test]
fn array_claim_without_value_does_not_match() {
    let a = ClaimValue::Array(vec![text("ops"), text("dev")]);
    assert!(!a.matches(&"infra".to_string()));
    let claims = claims_with(vec![("team".to_string(), a)]);
    assert_eq!(table(true).lookup(&claims).unwrap().ssh_ca(), "d");
}

#[test]
fn nested_array_and_other_values_do_not_match() {
    let nested = ClaimValue::Array(vec![ClaimValue::Array(vec![text("infra")])]);
    assert!(!nested.matches(&"infra".to_string()));
    assert!(!ClaimValue::Other.matches(&"infra".to_string()));
    assert!(!text("infrastructure").matches(&"infra".to_string()));
}

#[test]
fn first_claim_of_a_name_is_read() {
    let claims = claims_with(vec![
        ("team".to_string(), text("ops")),
        ("team".to_string(), text("infra")),
    ]);
    assert!(matches!(claims.get_other(&"team".to_string()), Some(ClaimValue::Str(s)) if s == "ops"));
    assert!(claims.get_other(&"role".to_string()).is_none());
}

#[test]
fn attr_map_keeps_names_unique() {
    let mut m = AttrMap::new();
    m.set("a".to_string(), "1".to_string());
    m.set("b".to_string(), "2".to_string());
    m.set("a".to_string(), "3".to_string());
    assert_eq!(m.len(), 2);
    assert_eq!(m.entries()[0], ("a".to_string(), "3".to_string()));
    assert_eq!(m.get(&"b".to_string()), Some(&"2".to_string()));
    m.unset(&"a".to_string());
    assert_eq!(m.entries(), &vec![("b".to_string(), "2".to_string())]);
    m.unset(&"zzz".to_string());
    assert_eq!(m.len(), 1);
    let copy = m.duplicate();
    m.clear();
    assert_eq!(m.len(), 0);
    assert_eq!(copy.len(), 1);
}
