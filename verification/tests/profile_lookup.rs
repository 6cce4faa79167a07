use habbo_verifier::profile::{classify_fetch, parse_lookup, FetchError};

#[test]
fn transport_failure_classifies_as_transport() {
    let r = classify_fetch(None);
    assert!(matches!(r, Err(FetchError::Transport)));
}

#[test]
fn upstream_error_text_is_surfaced_verbatim() {
    let body = "{\"error\":\"user-not-found\"}";
    let r = parse_lookup(body);
    assert_eq!(r.err(), Some("user-not-found".to_owned()));
    let c = classify_fetch(Some(body));
    match c {
        Err(FetchError::Upstream(text)) => assert_eq!(text, "user-not-found"),
        _ => panic!("expected an upstream error"),
    }
}

#[test]
fn profile_fields_are_extracted() {
    let body = "{\
        \"uniqueId\":\"u-77\",\
        \"figureString\":\"hd-180-1\",\
        \"motto\":\"aB3xZ\",\
        \"online\":true,\
        \"lastAccessTime\":\"2024-06-01\",\
        \"memberSince\":\"2024-05-01\",\
        \"selectedBadges\":[{\"code\":\"ACH1\",\"name\":\"First\"},{\"code\":\"ACH2\",\"name\":\"Second\"}]\
    }";
    let p = parse_lookup(body).expect("profile");
    assert_eq!(p.unique_id, "u-77");
    assert_eq!(p.figure_string, "hd-180-1");
    assert_eq!(p.motto, "aB3xZ");
    assert!(p.online);
    assert_eq!(p.last_access_time, "2024-06-01");
    assert_eq!(p.member_since, "2024-05-01");
    assert_eq!(p.selected_badges.len(), 2);
    assert_eq!(p.selected_badges[0].code, "ACH1");
    assert_eq!(p.selected_badges[0].name, "First");
    assert_eq!(p.selected_badges[1].code, "ACH2");
    assert_eq!(p.selected_badges[1].name, "Second");
}

#[test]
fn missing_optional_fields_default_instead_of_failing() {
    let p = parse_lookup("{}").expect("profile");
    assert_eq!(p.unique_id, "");
    assert_eq!(p.motto, "");
    assert!(!p.online);
    assert!(p.selected_badges.is_empty());
}

#[test]
fn malformed_body_defaults_to_an_unmatchable_profile() {
    let p = parse_lookup("this is not json").expect("profile");
    assert_eq!(p.motto, "");
    assert!(p.selected_badges.is_empty());
}

#[test]
fn wrong_typed_fields_default_field_wise() {
    let body = "{\"motto\":42,\"online\":\"yes\",\"uniqueId\":\"ok\",\"selectedBadges\":7}";
    let p = parse_lookup(body).expect("profile");
    assert_eq!(p.motto, "");
    assert!(!p.online);
    assert_eq!(p.unique_id, "ok");
    assert!(p.selected_badges.is_empty());
}
