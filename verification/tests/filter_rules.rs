use hyper_proxy_lite::addon::filter::blocked_response;
use hyper_proxy_lite::addon::filter::domain_of;
use hyper_proxy_lite::addon::filter::FilterMode;
use hyper_proxy_lite::addon::filter::FilterRules;

fn list(names: &[&str]) -> Vec<String> {
    names.iter().map(|s| s.to_string()).collect()
}

#[test]
fn domain_is_what_stands_before_the_first_colon() {
    assert_eq!(domain_of("blocked.example:443"), "blocked.example");
    assert_eq!(domain_of("blocked.example"), "blocked.example");
    assert_eq!(domain_of("a:b:c"), "a");
    assert_eq!(domain_of(":8080"), "");
    assert_eq!(domain_of("host:"), "host");
    assert_eq!(domain_of(""), "");
}

#[test]
fn domain_of_counts_characters_not_bytes() {
    assert_eq!(domain_of("ex\u{e4}mple.com:80"), "ex\u{e4}mple.com");
    assert_eq!(domain_of("\u{65e5}\u{672c}:1"), "\u{65e5}\u{672c}");
}

#[test]
fn blacklist_refuses_exactly_the_listed_domains() {
    let rules = FilterRules::new_blacklist(list(&["blocked.example", "other.example"]));
    assert!(!rules.is_allowed("blocked.example"));
    assert!(!rules.is_allowed("blocked.example:443"));
    assert!(!rules.is_allowed("other.example:8080"));
    assert!(rules.is_allowed("allowed.example"));
    assert!(rules.is_allowed("allowed.example:443"));
    assert!(rules.is_allowed("sub.blocked.example"));
    assert!(rules.is_allowed("blocked.exampl"));
    assert!(rules.is_allowed(""));
}

#[test]
fn whitelist_admits_exactly_the_listed_domains() {
    let rules = FilterRules::new_whitelist(list(&["ok.example"]));
    assert!(rules.is_allowed("ok.example"));
    assert!(rules.is_allowed("ok.example:443"));
    assert!(!rules.is_allowed("other.example:443"));
    assert!(!rules.is_allowed("OK.example"));
    assert!(!rules.is_allowed(""));
}

#[test]
fn a_listed_domain_with_a_port_never_matches() {
    let deny = FilterRules::new_blacklist(list(&["blocked.example:443"]));
    assert!(deny.is_allowed("blocked.example:443"));
    assert!(deny.contains("blocked.example:443"));
    let allow = FilterRules::new_whitelist(list(&["ok.example:443"]));
    assert!(!allow.is_allowed("ok.example:443"));
}

#[test]
fn empty_filters() {
    let deny = FilterRules::new_blacklist(Vec::new());
    assert!(deny.is_allowed("anything.example"));
    assert_eq!(deny.len(), 0);
    let allow = FilterRules::new_whitelist(Vec::new());
    assert!(!allow.is_allowed("anything.example"));
    assert_eq!(allow.len(), 0);
}

#[test]
fn the_empty_domain_can_be_listed() {
    let deny = FilterRules::new_blacklist(list(&[""]));
    assert!(!deny.is_allowed(""));
    assert!(!deny.is_allowed(":443"));
    assert!(deny.is_allowed("a"));
}

#[test]
fn asking_again_gives_the_same_answer() {
    let rules = FilterRules::new_blacklist(list(&["blocked.example"]));
    for host in ["blocked.example:443", "allowed.example", "", ":"] {
        let first = rules.is_allowed(host);
        for _ in 0..5 {
            assert_eq!(rules.is_allowed(host), first);
        }
    }
}

#[test]
fn order_and_repetition_do_not_change_the_answers() {
    let a = FilterRules::new_whitelist(list(&["x.example", "y.example"]));
    let b = FilterRules::new_whitelist(list(&["y.example", "x.example", "y.example"]));
    for host in ["x.example", "y.example:1", "z.example", "x.example:80", "y.example:81"] {
        assert_eq!(a.is_allowed(host), b.is_allowed(host));
    }
    assert_eq!(a.len(), 2);
    assert_eq!(b.len(), 2);
}

#[test]
fn the_two_modes_answer_opposite() {
    let names = ["a.example", "b.example"];
    let deny = FilterRules::new_blacklist(list(&names));
    let allow = FilterRules::new_whitelist(list(&names));
    for host in ["a.example", "b.example:443", "c.example", ""] {
        assert_eq!(deny.is_allowed(host), !allow.is_allowed(host));
    }
}

#[test]
fn mode_and_domains_are_kept() {
    let deny = FilterRules::new_blacklist(list(&["example.com", "example.org", "example.com"]));
    assert_eq!(deny.mode(), FilterMode::Blacklist);
    assert!(deny.contains("example.com"));
    assert!(deny.contains("example.org"));
    assert!(!deny.contains("example.net"));
    assert!(!deny.contains("example.com:443"));
    assert_eq!(deny.len(), 2);
    assert_eq!(deny.domains(), list(&["example.com", "example.org"]));
    let allow = FilterRules::new_whitelist(list(&["example.com"]));
    assert_eq!(allow.mode(), FilterMode::Whitelist);
    assert_eq!(allow.domains(), list(&["example.com"]));
}

#[test]
fn blocked_response_is_a_403_in_plain_text() {
    let response = blocked_response("blocked.example:443");
    assert_eq!(response.status, 403);
    assert_eq!(
        response.headers,
        vec![("Content-Type".to_string(), "text/plain".to_string())]
    );
    assert_eq!(
        response.body,
        "Access to blocked.example:443 is blocked by proxy filter rules"
    );
}

#[test]
fn blocked_response_for_the_empty_host() {
    let response = blocked_response("");
    assert_eq!(response.status, 403);
    assert_eq!(response.body, "Access to  is blocked by proxy filter rules");
}
