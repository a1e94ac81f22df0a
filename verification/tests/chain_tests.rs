use rule_chain::chain::SecurityTool;
use rule_chain::rules::{
    BlacklistRule, InvalidPatternError, RegexRule, RuleType, SecurityRule, WhitelistRule,
};

fn whitelist(pattern: &str) -> RuleType {
    RuleType::Whitelist(WhitelistRule::new(pattern.to_string()))
}

fn blacklist(pattern: &str) -> RuleType {
    RuleType::Blacklist(BlacklistRule::new(pattern.to_string()))
}

fn regex(pattern: &str) -> RuleType {
    match RegexRule::new(pattern) {
        Ok(rule) => RuleType::Regex(rule),
        Err(_) => panic!("pattern should compile: {}", pattern),
    }
}

fn demo_chain() -> SecurityTool {
    let mut tool = SecurityTool::new();
    tool.add_rule(whitelist("example.com"));
    tool.add_rule(blacklist("bad.example.com"));
    tool.add_rule(regex("^[a-zA-Z0-9]+$"));
    tool
}

#[test]
fn empty_chain_accepts_everything() {
    let tool = SecurityTool::new();
    assert!(tool.parse_input(""));
    assert!(tool.parse_input("anything at all"));
    assert!(tool.parse_input("bad.example.com"));
}

#[test]
fn whitelist_accepts_exactly_inputs_containing_pattern() {
    let rule = WhitelistRule::new("example.com".to_string());
    assert!(rule.parse("example.com"));
    assert!(rule.parse("www.example.com/path"));
    assert!(!rule.parse("example"));
    assert!(!rule.parse(""));
}

#[test]
fn whitelist_empty_pattern_always_accepts() {
    let rule = WhitelistRule::new(String::new());
    assert!(rule.parse(""));
    assert!(rule.parse("abc"));
}

#[test]
fn blacklist_rejects_exactly_inputs_containing_pattern() {
    let rule = BlacklistRule::new("bad.example.com".to_string());
    assert!(!rule.parse("bad.example.com"));
    assert!(!rule.parse("www.bad.example.com/path"));
    assert!(rule.parse("example.com"));
    assert!(rule.parse(""));
}

#[test]
fn blacklist_empty_pattern_always_rejects() {
    let rule = BlacklistRule::new(String::new());
    assert!(!rule.parse(""));
    assert!(!rule.parse("abc"));
}

#[test]
fn blacklist_is_negation_of_whitelist() {
    let cases = [
        ("example.com", "www.example.com"),
        ("example.com", "elsewhere.org"),
        ("", ""),
        ("", "abc"),
        ("abc", ""),
    ];
    for (pattern, input) in cases {
        let allow = WhitelistRule::new(pattern.to_string());
        let deny = BlacklistRule::new(pattern.to_string());
        assert_ne!(allow.parse(input), deny.parse(input));
    }
}

#[test]
fn regex_rule_matches_anywhere_in_input() {
    let anchored = match RegexRule::new("^[a-zA-Z0-9]+$") {
        Ok(rule) => rule,
        Err(_) => panic!("anchored pattern should compile"),
    };
    assert!(anchored.parse("example123"));
    assert!(!anchored.parse("example.com"));
    assert!(!anchored.parse(""));

    let unanchored = match RegexRule::new("b.d") {
        Ok(rule) => rule,
        Err(_) => panic!("unanchored pattern should compile"),
    };
    assert!(unanchored.parse("xbady"));
    assert!(unanchored.parse("bed"));
    assert!(!unanchored.parse("bd"));
}

#[test]
fn invalid_regex_pattern_fails_at_construction() {
    let result = RegexRule::new("[");
    assert!(matches!(result, Err(InvalidPatternError)));
    assert!(RegexRule::new("^[a-zA-Z0-9]+$").is_ok());
}

#[test]
fn first_failing_rule_decides_the_chain() {
    let mut tool = SecurityTool::new();
    tool.add_rule(whitelist("zzz"));
    tool.add_rule(whitelist("abc"));
    assert!(!tool.parse_input("abc"));

    let mut reversed = SecurityTool::new();
    reversed.add_rule(whitelist("abc"));
    reversed.add_rule(whitelist("zzz"));
    assert!(!reversed.parse_input("abc"));
}

#[test]
fn chain_accepts_only_when_every_rule_passes() {
    let mut tool = SecurityTool::new();
    tool.add_rule(whitelist("abc"));
    tool.add_rule(blacklist("xyz"));
    tool.add_rule(regex("^[a-z0-9]+$"));
    assert!(tool.parse_input("abc123"));
    assert!(!tool.parse_input("abc123xyz"));
    assert!(!tool.parse_input("abc!"));
    assert!(!tool.parse_input("def"));
}

#[test]
fn duplicate_rules_are_each_evaluated() {
    let mut tool = SecurityTool::new();
    tool.add_rule(whitelist("a"));
    tool.add_rule(whitelist("a"));
    assert!(tool.parse_input("a"));
    assert!(!tool.parse_input("b"));
}

#[test]
fn demo_chain_rejects_its_own_demo_input() {
    let tool = demo_chain();
    assert!(!tool.parse_input("example.com"));
}

#[test]
fn demo_chain_rejects_input_failing_the_whitelist() {
    let tool = demo_chain();
    assert!(!tool.parse_input("example123"));
}
