use jira_client::params::Params;
use jira_client::text::{bool_text, decimal_text, join, parse_decimal};
use jira_client::v2::application_role::ApplicationRoleOptions;
use jira_client::v2::user::{expand_to_hashmap, Expand, Pagination, UserOptions};

fn entries(p: &Params) -> Vec<(String, String)> {
    let mut out = Vec::new();
    for i in 0..p.len() {
        out.push((p.key_at(i).clone(), p.value_at(i).clone()));
    }
    out
}

fn pair(k: &str, v: &str) -> (String, String) {
    (k.to_string(), v.to_string())
}

#[test]
fn test_expand_to_hashmap() {
    let e = vec![Expand::ApplicationRoles, Expand::Groups];
    let h = expand_to_hashmap(&e);

    assert!(h.get("expand").unwrap().contains("groups"));
    assert!(h.get("expand").unwrap().contains("applicationRoles"));
}

#[test]
fn expand_value_is_comma_joined_in_input_order() {
    let h = expand_to_hashmap(&[Expand::Groups, Expand::ApplicationRoles]);
    assert_eq!(entries(&h), vec![pair("expand", "groups,applicationRoles")]);
    let h = expand_to_hashmap(&[Expand::ApplicationRoles, Expand::Groups]);
    assert_eq!(entries(&h), vec![pair("expand", "applicationRoles,groups")]);
}

#[test]
fn expand_single_token_has_no_comma() {
    let h = expand_to_hashmap(&[Expand::Groups]);
    assert_eq!(h.get("expand").unwrap(), "groups");
    let h = expand_to_hashmap(&[Expand::ApplicationRoles]);
    assert_eq!(h.get("expand").unwrap(), "applicationRoles");
}

#[test]
fn expand_repeated_token_is_written_each_time() {
    let h = expand_to_hashmap(&[Expand::Groups, Expand::Groups]);
    assert_eq!(h.get("expand").unwrap(), "groups,groups");
}

#[test]
fn expand_value_splits_back_into_the_tokens() {
    let tokens = [Expand::Groups, Expand::ApplicationRoles, Expand::Groups];
    let h = expand_to_hashmap(&tokens);
    let value = h.get("expand").unwrap();
    let pieces: Vec<&str> = value.split(',').collect();
    let names: Vec<&str> = tokens.iter().map(|t| t.to_string()).collect();
    assert_eq!(pieces, names);
    assert!(!value.starts_with(','));
    assert!(!value.ends_with(','));
}

#[test]
fn expand_empty_list_yields_no_entry() {
    let h = expand_to_hashmap(&[]);
    assert!(h.is_empty());
    assert_eq!(h.len(), 0);
    assert!(h.get("expand").is_none());
    assert!(!h.contains_key("expand"));
}

#[test]
fn expand_to_string_gives_wire_names() {
    assert_eq!(Expand::Groups.to_string(), "groups");
    assert_eq!(Expand::ApplicationRoles.to_string(), "applicationRoles");
}

#[test]
fn unset_pagination_yields_empty_mapping() {
    let p = Pagination { start_at: None, max_results: None };
    assert!(p.to_query().is_empty());
}

#[test]
fn pagination_writes_only_what_is_set() {
    let p = Pagination { start_at: Some(20), max_results: None };
    assert_eq!(entries(&p.to_query()), vec![pair("startAt", "20")]);
    let p = Pagination { start_at: None, max_results: Some(50) };
    assert_eq!(entries(&p.to_query()), vec![pair("maxResults", "50")]);
    let p = Pagination { start_at: Some(0), max_results: Some(18446744073709551615) };
    assert_eq!(
        entries(&p.to_query()),
        vec![pair("startAt", "0"), pair("maxResults", "18446744073709551615")]
    );
}

#[test]
fn unset_user_options_yield_empty_mapping() {
    let o = UserOptions { include_inactive: None, include_active: None };
    assert!(o.to_query().is_empty());
}

#[test]
fn user_options_write_only_what_is_set() {
    let o = UserOptions { include_inactive: Some(true), include_active: None };
    assert_eq!(entries(&o.to_query()), vec![pair("includeInactive", "true")]);
    let o = UserOptions { include_inactive: None, include_active: Some(false) };
    assert_eq!(entries(&o.to_query()), vec![pair("includeActive", "false")]);
    let o = UserOptions { include_inactive: Some(false), include_active: Some(true) };
    assert_eq!(
        entries(&o.to_query()),
        vec![pair("includeInactive", "false"), pair("includeActive", "true")]
    );
}

#[test]
fn role_options_write_if_match_only_when_set() {
    let o = ApplicationRoleOptions { if_match: None };
    assert!(o.to_headers().is_empty());
    let o = ApplicationRoleOptions { if_match: Some("abc123".to_string()) };
    assert_eq!(entries(&o.to_headers()), vec![pair("If-Match", "abc123")]);
}

#[test]
fn builders_give_the_same_output_twice() {
    let p = Pagination { start_at: Some(5), max_results: Some(10) };
    assert_eq!(entries(&p.to_query()), entries(&p.to_query()));
    let o = UserOptions { include_inactive: Some(true), include_active: Some(true) };
    assert_eq!(entries(&o.to_query()), entries(&o.to_query()));
    let r = ApplicationRoleOptions { if_match: Some("v1".to_string()) };
    assert_eq!(entries(&r.to_headers()), entries(&r.to_headers()));
    let e = [Expand::Groups, Expand::ApplicationRoles];
    assert_eq!(entries(&expand_to_hashmap(&e)), entries(&expand_to_hashmap(&e)));
}

#[test]
fn params_insert_replaces_in_place_and_appends_new_names() {
    let mut p = Params::new();
    p.insert("a".to_string(), "1".to_string());
    p.insert("b".to_string(), "2".to_string());
    p.insert("a".to_string(), "3".to_string());
    assert_eq!(entries(&p), vec![pair("a", "3"), pair("b", "2")]);
    assert_eq!(p.get("a").unwrap(), "3");
    assert_eq!(p.get("b").unwrap(), "2");
    assert!(p.get("c").is_none());
    assert!(p.contains_key("a"));
    assert!(!p.contains_key("A"));
    assert_eq!(p.len(), 2);
}

#[test]
fn params_with_returns_the_updated_list() {
    let p = Params::new().with("x".to_string(), "1".to_string()).with("x".to_string(), "2".to_string());
    assert_eq!(entries(&p), vec![pair("x", "2")]);
}

#[test]
fn params_extend_lets_the_later_value_stand() {
    let mut base = Params::new();
    base.insert("Accept".to_string(), "text/plain".to_string());
    base.insert("X-Trace".to_string(), "1".to_string());
    let mut extra = Params::new();
    extra.insert("If-Match".to_string(), "v9".to_string());
    extra.insert("Accept".to_string(), "application/json".to_string());
    base.extend(&extra);
    assert_eq!(
        entries(&base),
        vec![pair("Accept", "application/json"), pair("X-Trace", "1"), pair("If-Match", "v9")]
    );
    assert_eq!(entries(&extra), vec![pair("If-Match", "v9"), pair("Accept", "application/json")]);
}

#[test]
fn params_clone_is_independent() {
    let mut a = Params::new();
    a.insert("k".to_string(), "v".to_string());
    let mut b = a.clone();
    b.insert("k".to_string(), "w".to_string());
    b.insert("n".to_string(), "m".to_string());
    assert_eq!(entries(&a), vec![pair("k", "v")]);
    assert_eq!(entries(&b), vec![pair("k", "w"), pair("n", "m")]);
}

#[test]
fn decimal_text_writes_numbers() {
    assert_eq!(decimal_text(0), "0");
    assert_eq!(decimal_text(7), "7");
    assert_eq!(decimal_text(10), "10");
    assert_eq!(decimal_text(1234567890), "1234567890");
    assert_eq!(decimal_text(u64::MAX), "18446744073709551615");
}

#[test]
fn parse_decimal_reads_what_decimal_text_writes() {
    for n in [0u64, 1, 9, 10, 99, 100, 4096, u64::MAX - 1, u64::MAX] {
        assert_eq!(parse_decimal(&decimal_text(n)), Some(n));
    }
}

#[test]
fn parse_decimal_refuses_what_is_no_decimal_text() {
    assert_eq!(parse_decimal(""), None);
    assert_eq!(parse_decimal("00"), None);
    assert_eq!(parse_decimal("007"), None);
    assert_eq!(parse_decimal("-1"), None);
    assert_eq!(parse_decimal("+1"), None);
    assert_eq!(parse_decimal("1.0"), None);
    assert_eq!(parse_decimal("12a"), None);
    assert_eq!(parse_decimal(" 12"), None);
    assert_eq!(parse_decimal("١٢"), None);
    assert_eq!(parse_decimal("18446744073709551616"), None);
    assert_eq!(parse_decimal("99999999999999999999999"), None);
    assert_eq!(parse_decimal("0"), Some(0));
    assert_eq!(parse_decimal("18446744073709551615"), Some(u64::MAX));
}

#[test]
fn bool_text_writes_true_and_false() {
    assert_eq!(bool_text(true), "true");
    assert_eq!(bool_text(false), "false");
}

#[test]
fn join_puts_the_separator_between_parts() {
    assert_eq!(join(&vec![], ","), "");
    assert_eq!(join(&vec!["a".to_string()], ","), "a");
    assert_eq!(join(&vec!["a".to_string(), "b".to_string(), "".to_string()], ", "), "a, b, ");
}
