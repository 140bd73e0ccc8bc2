use vstd::prelude::*;

verus! {

/// A rule that recognises a command and names the rtk command that replaces it.
#[derive(Debug)]
pub struct RtkRule {
    /// Regular expression that a command matches.
    pub pattern: &'static str,
    /// The rtk command that handles it.
    pub rtk_cmd: &'static str,
    /// Command prefixes that are rewritten to `rtk_cmd`.
    pub rewrite_prefixes: Vec<&'static str>,
    /// Category the command is reported under.
    pub category: &'static str,
    /// Expected token savings, in whole percent.
    pub savings_pct: u32,
}

/// A rule as plain values.
pub struct RuleModel {
    pub pattern: Seq<char>,
    pub rtk_cmd: Seq<char>,
    pub rewrite_prefixes: Seq<Seq<char>>,
    pub category: Seq<char>,
    pub savings_pct: u32,
}

impl View for RtkRule {
    type V = RuleModel;

    open spec fn view(&self) -> RuleModel {
        RuleModel {
            pattern: self.pattern@,
            rtk_cmd: self.rtk_cmd@,
            rewrite_prefixes: self.rewrite_prefixes@.map_values(|p: &'static str| p@),
            category: self.category@,
            savings_pct: self.savings_pct,
        }
    }
}

pub open spec fn rule_model(
    pattern: Seq<char>,
    rtk_cmd: Seq<char>,
    prefix: Seq<char>,
    category: Seq<char>,
    savings_pct: u32,
) -> RuleModel {
    RuleModel { pattern, rtk_cmd, rewrite_prefixes: seq![prefix], category, savings_pct }
}

/// The rules this project maintains on top of the upstream rule set.
pub open spec fn dev_rule_table() -> Seq<RuleModel> {
    seq![
        rule_model(r"^dart\s+analyze\b"@, "rtk dart analyze"@, "dart analyze"@, "Build"@, 75),
        rule_model(
            r"^dart\s+pub\s+(get|add|upgrade|downgrade|outdated)\b"@,
            "rtk dart pub"@,
            "dart pub"@,
            "PackageManager"@,
            70,
        ),
        rule_model(r"^dart\s+test\b"@, "rtk dart test"@, "dart test"@, "Build"@, 75),
        rule_model(
            r"^dart\s+run\s+build_runner\b"@,
            "rtk dart run build_runner"@,
            "dart run build_runner"@,
            "Build"@,
            70,
        ),
        rule_model(
            r"^flutter\s+pub\s+(get|add|upgrade|downgrade|outdated)\b"@,
            "rtk flutter pub"@,
            "flutter pub"@,
            "PackageManager"@,
            70,
        ),
        rule_model(r"^flutter\s+test\b"@, "rtk flutter test"@, "flutter test"@, "Build"@, 75),
        rule_model(r"^flutter\s+analyze\b"@, "rtk flutter analyze"@, "flutter analyze"@, "Build"@, 75),
        rule_model(r"^flutter\s+build\b"@, "rtk flutter build"@, "flutter build"@, "Build"@, 75),
    ]
}


/// No two of these rules name the same rtk command.
pub proof fn dev_rule_commands_are_unique()
    ensures
        forall|i: int, j: int|
            0 <= i < j < dev_rule_table().len() ==> #[trigger] dev_rule_table()[i].rtk_cmd
                != #[trigger] dev_rule_table()[j].rtk_cmd,
{
    reveal_strlit("rtk dart analyze");
    reveal_strlit("rtk dart pub");
    reveal_strlit("rtk dart test");
    reveal_strlit("rtk dart run build_runner");
    reveal_strlit("rtk flutter pub");
    reveal_strlit("rtk flutter test");
    reveal_strlit("rtk flutter analyze");
    reveal_strlit("rtk flutter build");
    let t = dev_rule_table();
    assert forall|i: int, j: int| 0 <= i < j < t.len() implies t[i].rtk_cmd != t[j].rtk_cmd by {
        if t[i].rtk_cmd.len() == t[j].rtk_cmd.len() {
            assert(t[i].rtk_cmd[4] != t[j].rtk_cmd[4] || t[i].rtk_cmd[9] != t[j].rtk_cmd[9]
                || t[i].rtk_cmd[12] != t[j].rtk_cmd[12]);
        }
    }
}

/// Each rule's rtk command is `rtk` followed by the prefix it rewrites.
pub proof fn dev_rule_commands_follow_prefixes()
    ensures
        forall|i: int|
            0 <= i < dev_rule_table().len() ==> #[trigger] dev_rule_table()[i].rtk_cmd == "rtk "@
                + dev_rule_table()[i].rewrite_prefixes[0],
{
    reveal_strlit("rtk ");
    reveal_strlit("rtk dart analyze");
    reveal_strlit("rtk dart pub");
    reveal_strlit("rtk dart test");
    reveal_strlit("rtk dart run build_runner");
    reveal_strlit("rtk flutter pub");
    reveal_strlit("rtk flutter test");
    reveal_strlit("rtk flutter analyze");
    reveal_strlit("rtk flutter build");
    reveal_strlit("dart analyze");
    reveal_strlit("dart pub");
    reveal_strlit("dart test");
    reveal_strlit("dart run build_runner");
    reveal_strlit("flutter pub");
    reveal_strlit("flutter test");
    reveal_strlit("flutter analyze");
    reveal_strlit("flutter build");
    let t = dev_rule_table();
    assert forall|i: int| 0 <= i < t.len() implies t[i].rtk_cmd == "rtk "@ + t[i].rewrite_prefixes[0] by {
        assert(t[i].rtk_cmd =~= "rtk "@ + t[i].rewrite_prefixes[0]);
    }
}

/// A rewrite prefix written as a regular expression: each space between words accepts
/// any run of whitespace.
pub open spec fn words_pattern(prefix: Seq<char>) -> Seq<char>
    decreases prefix.len(),
{
    if prefix.len() == 0 {
        Seq::empty()
    } else {
        (if prefix[0] == ' ' { r"\s+"@ } else { seq![prefix[0]] }) + words_pattern(prefix.drop_first())
    }
}

/// The subcommands of `pub` that a package-manager rule accepts.
pub open spec fn pub_subcommands() -> Seq<char> {
    r"\s+(get|add|upgrade|downgrade|outdated)\b"@
}

/// Whether the prefix's last word is `pub`.
pub open spec fn ends_with_pub(prefix: Seq<char>) -> bool {
    let n = prefix.len() as int;
    n >= 4 && prefix[n - 4] == ' ' && prefix[n - 3] == 'p' && prefix[n - 2] == 'u' && prefix[n - 1] == 'b'
}

/// The pattern a rule should have for its rewrite prefix.
pub open spec fn prefix_pattern(prefix: Seq<char>) -> Seq<char> {
    "^"@ + words_pattern(prefix) + if ends_with_pub(prefix) {
        pub_subcommands()
    } else {
        r"\b"@
    }
}

pub open spec fn is_word(w: Seq<char>) -> bool {
    forall|i: int| 0 <= i < w.len() ==> w[i] != ' '
}

proof fn words_pattern_concat(a: Seq<char>, b: Seq<char>)
    ensures
        words_pattern(a + b) == words_pattern(a) + words_pattern(b),
    decreases a.len(),
{
    if a.len() == 0 {
        assert(a + b =~= b);
        assert(words_pattern(a) + words_pattern(b) =~= words_pattern(b));
    } else {
        assert((a + b).drop_first() =~= a.drop_first() + b);
        words_pattern_concat(a.drop_first(), b);
        let head = if a[0] == ' ' { r"\s+"@ } else { seq![a[0]] };
        assert(head + (words_pattern(a.drop_first()) + words_pattern(b)) =~= (head
            + words_pattern(a.drop_first())) + words_pattern(b));
    }
}

proof fn words_pattern_word(w: Seq<char>)
    requires
        is_word(w),
    ensures
        words_pattern(w) == w,
    decreases w.len(),
{
    if w.len() > 0 {
        assert(is_word(w.drop_first()));
        words_pattern_word(w.drop_first());
        assert(w =~= seq![w[0]] + w.drop_first());
    }
}

proof fn words_pattern_space()
    ensures
        words_pattern(" "@) == r"\s+"@,
{
    reveal_strlit(" ");
    assert(" "@.drop_first() =~= Seq::<char>::empty());
    assert(words_pattern(Seq::<char>::empty()) == Seq::<char>::empty());
    assert(r"\s+"@ + Seq::<char>::empty() =~= r"\s+"@);
}

proof fn words_pattern_two(w1: Seq<char>, w2: Seq<char>)
    requires
        is_word(w1),
        is_word(w2),
    ensures
        words_pattern(w1 + " "@ + w2) == w1 + r"\s+"@ + w2,
{
    words_pattern_concat(w1 + " "@, w2);
    words_pattern_concat(w1, " "@);
    words_pattern_word(w1);
    words_pattern_word(w2);
    words_pattern_space();
}

proof fn words_pattern_three(w1: Seq<char>, w2: Seq<char>, w3: Seq<char>)
    requires
        is_word(w1),
        is_word(w2),
        is_word(w3),
    ensures
        words_pattern(w1 + " "@ + w2 + " "@ + w3) == w1 + r"\s+"@ + w2 + r"\s+"@ + w3,
{
    words_pattern_concat(w1 + " "@ + w2, " "@ + w3);
    assert(w1 + " "@ + w2 + " "@ + w3 =~= (w1 + " "@ + w2) + (" "@ + w3));
    words_pattern_two(w1, w2);
    words_pattern_concat(" "@, w3);
    words_pattern_word(w3);
    words_pattern_space();
    assert(w1 + r"\s+"@ + w2 + (r"\s+"@ + w3) =~= w1 + r"\s+"@ + w2 + r"\s+"@ + w3);
}


proof fn rule_pattern_two(prefix: Seq<char>, pattern: Seq<char>, w1: Seq<char>, w2: Seq<char>, tail: Seq<char>)
    requires
        is_word(w1),
        is_word(w2),
        prefix == w1 + " "@ + w2,
        tail == (if ends_with_pub(prefix) { pub_subcommands() } else { r"\b"@ }),
        pattern == "^"@ + w1 + r"\s+"@ + w2 + tail,
    ensures
        pattern == prefix_pattern(prefix),
{
    words_pattern_two(w1, w2);
    assert("^"@ + w1 + r"\s+"@ + w2 + tail =~= "^"@ + (w1 + r"\s+"@ + w2) + tail);
}

proof fn rule_pattern_three(
    prefix: Seq<char>,
    pattern: Seq<char>,
    w1: Seq<char>,
    w2: Seq<char>,
    w3: Seq<char>,
    tail: Seq<char>,
)
    requires
        is_word(w1),
        is_word(w2),
        is_word(w3),
        prefix == w1 + " "@ + w2 + " "@ + w3,
        tail == (if ends_with_pub(prefix) { pub_subcommands() } else { r"\b"@ }),
        pattern == "^"@ + w1 + r"\s+"@ + w2 + r"\s+"@ + w3 + tail,
    ensures
        pattern == prefix_pattern(prefix),
{
    words_pattern_three(w1, w2, w3);
    assert("^"@ + w1 + r"\s+"@ + w2 + r"\s+"@ + w3 + tail =~= "^"@ + (w1 + r"\s+"@ + w2
        + r"\s+"@ + w3) + tail);
}

/// Each rule's pattern recognises its rewrite prefix at the start of a command, as whole
/// words separated by any whitespace; a rule for `pub` also requires one of the
/// subcommands get, add, upgrade, downgrade or outdated; every other rule ends at a word
/// boundary.
pub proof fn dev_rule_patterns_follow_prefixes()
    ensures
        forall|i: int|
            0 <= i < dev_rule_table().len() ==> #[trigger] dev_rule_table()[i].pattern
                == prefix_pattern(dev_rule_table()[i].rewrite_prefixes[0]),
{
    let t = dev_rule_table();
    reveal_strlit("^");
    reveal_strlit(r"\s+");
    reveal_strlit(r"\b");
    reveal_strlit(" ");
    reveal_strlit(r"\s+(get|add|upgrade|downgrade|outdated)\b");
    reveal_strlit("dart");
    reveal_strlit("flutter");
    reveal_strlit("analyze");
    reveal_strlit("pub");
    reveal_strlit("test");
    reveal_strlit("run");
    reveal_strlit("build_runner");
    reveal_strlit("build");
    assert(is_word("dart"@));
    assert(is_word("flutter"@));
    assert(is_word("analyze"@));
    assert(is_word("pub"@));
    assert(is_word("test"@));
    assert(is_word("run"@));
    assert(is_word("build_runner"@));
    assert(is_word("build"@));
    assert(t[0].pattern == prefix_pattern(t[0].rewrite_prefixes[0])) by {
        reveal_strlit("dart analyze");
        reveal_strlit(r"^dart\s+analyze\b");
        let p = t[0].rewrite_prefixes[0];
        assert(p =~= "dart"@ + " "@ + "analyze"@);
        assert(!ends_with_pub(p));
        assert(t[0].pattern =~= "^"@ + "dart"@ + r"\s+"@ + "analyze"@ + r"\b"@);
        rule_pattern_two(p, t[0].pattern, "dart"@, "analyze"@, r"\b"@);
    }
    assert(t[1].pattern == prefix_pattern(t[1].rewrite_prefixes[0])) by {
        reveal_strlit("dart pub");
        reveal_strlit(r"^dart\s+pub\s+(get|add|upgrade|downgrade|outdated)\b");
        let p = t[1].rewrite_prefixes[0];
        assert(p =~= "dart"@ + " "@ + "pub"@);
        assert(ends_with_pub(p));
        assert(t[1].pattern =~= "^"@ + "dart"@ + r"\s+"@ + "pub"@ + pub_subcommands());
        rule_pattern_two(p, t[1].pattern, "dart"@, "pub"@, pub_subcommands());
    }
    assert(t[2].pattern == prefix_pattern(t[2].rewrite_prefixes[0])) by {
        reveal_strlit("dart test");
        reveal_strlit(r"^dart\s+test\b");
        let p = t[2].rewrite_prefixes[0];
        assert(p =~= "dart"@ + " "@ + "test"@);
        assert(!ends_with_pub(p));
        assert(t[2].pattern =~= "^"@ + "dart"@ + r"\s+"@ + "test"@ + r"\b"@);
        rule_pattern_two(p, t[2].pattern, "dart"@, "test"@, r"\b"@);
    }
    assert(t[3].pattern == prefix_pattern(t[3].rewrite_prefixes[0])) by {
        reveal_strlit("dart run build_runner");
        reveal_strlit(r"^dart\s+run\s+build_runner\b");
        let p = t[3].rewrite_prefixes[0];
        assert(p =~= "dart"@ + " "@ + "run"@ + " "@ + "build_runner"@);
        assert(!ends_with_pub(p));
        assert(t[3].pattern =~= "^"@ + "dart"@ + r"\s+"@ + "run"@ + r"\s+"@ + "build_runner"@ + r"\b"@);
        rule_pattern_three(p, t[3].pattern, "dart"@, "run"@, "build_runner"@, r"\b"@);
    }
    assert(t[4].pattern == prefix_pattern(t[4].rewrite_prefixes[0])) by {
        reveal_strlit("flutter pub");
        reveal_strlit(r"^flutter\s+pub\s+(get|add|upgrade|downgrade|outdated)\b");
        let p = t[4].rewrite_prefixes[0];
        assert(p =~= "flutter"@ + " "@ + "pub"@);
        assert(ends_with_pub(p));
        assert(t[4].pattern =~= "^"@ + "flutter"@ + r"\s+"@ + "pub"@ + pub_subcommands());
        rule_pattern_two(p, t[4].pattern, "flutter"@, "pub"@, pub_subcommands());
    }
    assert(t[5].pattern == prefix_pattern(t[5].rewrite_prefixes[0])) by {
        reveal_strlit("flutter test");
        reveal_strlit(r"^flutter\s+test\b");
        let p = t[5].rewrite_prefixes[0];
        assert(p =~= "flutter"@ + " "@ + "test"@);
        assert(!ends_with_pub(p));
        assert(t[5].pattern =~= "^"@ + "flutter"@ + r"\s+"@ + "test"@ + r"\b"@);
        rule_pattern_two(p, t[5].pattern, "flutter"@, "test"@, r"\b"@);
    }
    assert(t[6].pattern == prefix_pattern(t[6].rewrite_prefixes[0])) by {
        reveal_strlit("flutter analyze");
        reveal_strlit(r"^flutter\s+analyze\b");
        let p = t[6].rewrite_prefixes[0];
        assert(p =~= "flutter"@ + " "@ + "analyze"@);
        assert(!ends_with_pub(p));
        assert(t[6].pattern =~= "^"@ + "flutter"@ + r"\s+"@ + "analyze"@ + r"\b"@);
        rule_pattern_two(p, t[6].pattern, "flutter"@, "analyze"@, r"\b"@);
    }
    assert(t[7].pattern == prefix_pattern(t[7].rewrite_prefixes[0])) by {
        reveal_strlit("flutter build");
        reveal_strlit(r"^flutter\s+build\b");
        let p = t[7].rewrite_prefixes[0];
        assert(p =~= "flutter"@ + " "@ + "build"@);
        assert(!ends_with_pub(p));
        assert(t[7].pattern =~= "^"@ + "flutter"@ + r"\s+"@ + "build"@ + r"\b"@);
        rule_pattern_two(p, t[7].pattern, "flutter"@, "build"@, r"\b"@);
    }
    assert forall|i: int| 0 <= i < t.len() implies #[trigger] t[i].pattern == prefix_pattern(
        t[i].rewrite_prefixes[0],
    ) by {
        assert(i == 0 || i == 1 || i == 2 || i == 3 || i == 4 || i == 5 || i == 6 || i == 7);
    }
}

/// Rules for `pub` are package-manager rules; every other rule is a build rule. Savings
/// are 70 percent for the package-manager rules and for `dart run build_runner`, and
/// 75 percent for every other rule.
pub proof fn dev_rule_categories_and_savings()
    ensures
        forall|i: int|
            0 <= i < dev_rule_table().len() ==> {
                let r = #[trigger] dev_rule_table()[i];
                let p = r.rewrite_prefixes[0];
                &&& (ends_with_pub(p) ==> r.category == "PackageManager"@)
                &&& (!ends_with_pub(p) ==> r.category == "Build"@)
                &&& (r.savings_pct == 70 <==> (ends_with_pub(p) || p == "dart run build_runner"@))
                &&& (r.savings_pct == 75 <==> !(ends_with_pub(p) || p == "dart run build_runner"@))
            },
{
    let t = dev_rule_table();
    reveal_strlit("dart analyze");
    reveal_strlit("dart pub");
    reveal_strlit("dart test");
    reveal_strlit("dart run build_runner");
    reveal_strlit("flutter pub");
    reveal_strlit("flutter test");
    reveal_strlit("flutter analyze");
    reveal_strlit("flutter build");
    assert(!ends_with_pub(t[0].rewrite_prefixes[0]));
    assert(ends_with_pub(t[1].rewrite_prefixes[0]));
    assert(!ends_with_pub(t[2].rewrite_prefixes[0]));
    assert(!ends_with_pub(t[3].rewrite_prefixes[0]));
    assert(ends_with_pub(t[4].rewrite_prefixes[0]));
    assert(!ends_with_pub(t[5].rewrite_prefixes[0]));
    assert(!ends_with_pub(t[6].rewrite_prefixes[0]));
    assert(!ends_with_pub(t[7].rewrite_prefixes[0]));
    assert forall|i: int| 0 <= i < t.len() implies {
        let r = #[trigger] t[i];
        let p = r.rewrite_prefixes[0];
        &&& (ends_with_pub(p) ==> r.category == "PackageManager"@)
        &&& (!ends_with_pub(p) ==> r.category == "Build"@)
        &&& (r.savings_pct == 70 <==> (ends_with_pub(p) || p == "dart run build_runner"@))
        &&& (r.savings_pct == 75 <==> !(ends_with_pub(p) || p == "dart run build_runner"@))
    } by {
        assert(i == 0 || i == 1 || i == 2 || i == 3 || i == 4 || i == 5 || i == 6 || i == 7);
    }
}

fn rule(
    pattern: &'static str,
    rtk_cmd: &'static str,
    prefix: &'static str,
    category: &'static str,
    savings_pct: u32,
) -> (r: RtkRule)
    ensures
        r@ == rule_model(pattern@, rtk_cmd@, prefix@, category@, savings_pct),
{
    let mut rewrite_prefixes: Vec<&'static str> = Vec::new();
    rewrite_prefixes.push(prefix);
    let r = RtkRule { pattern, rtk_cmd, rewrite_prefixes, category, savings_pct };
    assert(r@.rewrite_prefixes =~= seq![prefix@]);
    r
}

/// The rules this project maintains on top of the upstream rule set.
pub fn dev_rules() -> (r: Vec<RtkRule>)
    ensures
        r@.map_values(|x: RtkRule| x@) == dev_rule_table(),
{
    let mut v: Vec<RtkRule> = Vec::new();
    v.push(rule(r"^dart\s+analyze\b", "rtk dart analyze", "dart analyze", "Build", 75));
    v.push(
        rule(
            r"^dart\s+pub\s+(get|add|upgrade|downgrade|outdated)\b",
            "rtk dart pub",
            "dart pub",
            "PackageManager",
            70,
        ),
    );
    v.push(rule(r"^dart\s+test\b", "rtk dart test", "dart test", "Build", 75));
    v.push(
        rule(
            r"^dart\s+run\s+build_runner\b",
            "rtk dart run build_runner",
            "dart run build_runner",
            "Build",
            70,
        ),
    );
    v.push(
        rule(
            r"^flutter\s+pub\s+(get|add|upgrade|downgrade|outdated)\b",
            "rtk flutter pub",
            "flutter pub",
            "PackageManager",
            70,
        ),
    );
    v.push(rule(r"^flutter\s+test\b", "rtk flutter test", "flutter test", "Build", 75));
    v.push(rule(r"^flutter\s+analyze\b", "rtk flutter analyze", "flutter analyze", "Build", 75));
    v.push(rule(r"^flutter\s+build\b", "rtk flutter build", "flutter build", "Build", 75));
    assert(v@.map_values(|x: RtkRule| x@) =~= dev_rule_table());
    v
}

} // verus!
