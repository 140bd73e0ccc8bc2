use rtk::rules_dev::dev_rules;

#[test]
fn dev_rule_commands_are_unique() {
    let rules = dev_rules();
    for (index, rule) in rules.iter().enumerate() {
        assert!(!rules[index + 1..]
            .iter()
            .any(|other| other.rtk_cmd == rule.rtk_cmd));
    }
}

#[test]
fn dev_rules_rewrite_their_prefix_to_the_rtk_command() {
    let rules = dev_rules();
    assert_eq!(rules.len(), 8);
    for rule in &rules {
        assert_eq!(rule.rewrite_prefixes.len(), 1);
        assert_eq!(rule.rtk_cmd, format!("rtk {}", rule.rewrite_prefixes[0]));
        assert!(rule.pattern.starts_with('^'));
    }
    assert_eq!(rules[1].rtk_cmd, "rtk dart pub");
    assert_eq!(rules[1].category, "PackageManager");
    assert_eq!(rules[1].savings_pct, 70);
    assert_eq!(rules[7].pattern, r"^flutter\s+build\b");
    assert_eq!(rules[7].savings_pct, 75);
}
