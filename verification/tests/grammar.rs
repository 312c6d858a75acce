use pocketsphinx::jsgf::{grammar_file_name, grammar_text};
use pocketsphinx::{Atom, ErrorKind, Jsgf, Rule};

fn atom(name: &str, tags: &[&str]) -> Atom {
    Atom::new(name.to_string(), tags.iter().map(|t| t.to_string()).collect())
}

fn rule(name: &str, public: bool, rhs: Vec<Vec<Atom>>) -> Rule {
    Rule::new(name.to_string(), public, rhs)
}

/// The structure of `public <r> = a | b c;`.
fn two_alternatives() -> Jsgf {
    let r = rule(
        "r",
        true,
        vec![vec![atom("a", &[])], vec![atom("b", &[]), atom("c", &[])]],
    );
    Jsgf::new("g".to_string(), vec![r]).unwrap()
}

#[test]
fn rule_structure_round_trip() {
    let grammar = two_alternatives();
    let r = grammar.rule("r").unwrap();
    assert!(r.is_public());
    assert_eq!(r.name(), "r");

    let mut alternatives = r.internal().alternatives();
    let mut first = alternatives.next().unwrap();
    assert_eq!(first.next().unwrap().name(), "a");
    assert!(first.next().is_none());

    let mut second = alternatives.next().unwrap();
    assert_eq!(second.next().unwrap().name(), "b");
    assert_eq!(second.next().unwrap().name(), "c");
    assert!(second.next().is_none());

    assert!(alternatives.next().is_none());
}

#[test]
fn tags_come_in_the_order_given() {
    let tagged = atom("turn", &["left", "right", "left"]);
    let mut tags = tagged.tags();
    assert_eq!(tags.next(), Some("left"));
    assert_eq!(tags.next(), Some("right"));
    assert_eq!(tags.next(), Some("left"));
    assert_eq!(tags.next(), None);
    assert_eq!(tags.next(), None);
}

#[test]
fn atom_without_tags_has_an_empty_cursor() {
    let plain = atom("word", &[]);
    assert_eq!(plain.name(), "word");
    assert_eq!(plain.tags().next(), None);
}

#[test]
fn a_cursor_starts_afresh_on_every_request() {
    let tagged = atom("go", &["x", "y"]);
    let mut first = tagged.tags();
    assert_eq!(first.next(), Some("x"));
    let mut second = tagged.tags();
    assert_eq!(second.next(), Some("x"));
    assert_eq!(first.next(), Some("y"));
}

#[test]
fn a_cloned_cursor_walks_on_its_own() {
    let tagged = atom("go", &["x", "y"]);
    let mut walked = tagged.tags();
    walked.next();
    let mut copy = walked.clone();
    assert_eq!(walked.next(), Some("y"));
    assert_eq!(copy.next(), Some("y"));
    assert_eq!(copy.next(), None);
}

#[test]
fn grammar_name_is_kept() {
    assert_eq!(two_alternatives().name(), "g");
}

#[test]
fn rules_come_in_the_order_given() {
    let grammar = Jsgf::new(
        "g".to_string(),
        vec![
            rule("x", false, vec![]),
            rule("y", true, vec![]),
            rule("z", true, vec![]),
        ],
    )
    .unwrap();
    let mut rules = grammar.rules();
    assert_eq!(rules.next().unwrap().name(), "x");
    assert_eq!(rules.next().unwrap().name(), "y");
    assert_eq!(rules.next().unwrap().name(), "z");
    assert!(rules.next().is_none());
    assert!(rules.next().is_none());
}

#[test]
fn public_rule_is_the_first_public_one() {
    let grammar = Jsgf::new(
        "g".to_string(),
        vec![
            rule("x", false, vec![]),
            rule("y", true, vec![]),
            rule("z", true, vec![]),
        ],
    )
    .unwrap();
    let entry = grammar.public_rule();
    assert_eq!(entry.name(), "y");
    assert!(entry.is_public());
}

#[test]
fn rule_lookup_misses_unknown_names() {
    let grammar = two_alternatives();
    assert!(grammar.rule("s").is_none());
    assert!(grammar.rule("").is_none());
    assert!(grammar.rule("R").is_none());
}

#[test]
fn rule_lookup_finds_private_rules() {
    let grammar = Jsgf::new(
        "g".to_string(),
        vec![rule("top", true, vec![]), rule("inner", false, vec![vec![atom("w", &[])]])],
    )
    .unwrap();
    let inner = grammar.rule("inner").unwrap();
    assert!(!inner.is_public());
    assert_eq!(inner.internal().alternatives().next().unwrap().next().unwrap().name(), "w");
}

#[test]
fn repeated_rule_names_are_a_syntax_error() {
    let made = Jsgf::new(
        "g".to_string(),
        vec![rule("r", true, vec![]), rule("s", false, vec![]), rule("r", false, vec![])],
    );
    assert_eq!(made.unwrap_err().kind, ErrorKind::GrammarSyntaxError);
}

#[test]
fn a_grammar_without_public_rule_is_a_configuration_failure() {
    let made = Jsgf::new("g".to_string(), vec![rule("r", false, vec![])]);
    assert_eq!(made.unwrap_err().kind, ErrorKind::ConfigurationFailure);
    let empty = Jsgf::new("g".to_string(), vec![]);
    assert_eq!(empty.unwrap_err().kind, ErrorKind::ConfigurationFailure);
}

#[test]
fn repeated_names_win_over_a_missing_public_rule() {
    let made = Jsgf::new(
        "g".to_string(),
        vec![rule("r", false, vec![]), rule("r", false, vec![])],
    );
    assert_eq!(made.unwrap_err().kind, ErrorKind::GrammarSyntaxError);
}

#[test]
fn a_rejected_parse_is_a_syntax_error() {
    assert_eq!(Jsgf::from_parsed(None).unwrap_err().kind, ErrorKind::GrammarSyntaxError);
}

#[test]
fn an_accepted_parse_becomes_a_grammar() {
    let parsed = Some(("hello".to_string(), vec![rule("hello", true, vec![vec![
        atom("hello", &[]),
        atom("world", &[]),
    ]])]));
    let grammar = Jsgf::from_parsed(parsed).unwrap();
    assert_eq!(grammar.name(), "hello");
    let mut atoms = grammar.public_rule().internal().alternatives().next().unwrap();
    assert_eq!(atoms.next().unwrap().name(), "hello");
    assert_eq!(atoms.next().unwrap().name(), "world");
    assert!(atoms.next().is_none());
}

#[test]
fn a_rule_without_alternatives_has_an_empty_cursor() {
    let grammar = Jsgf::new("g".to_string(), vec![rule("r", true, vec![])]).unwrap();
    assert!(grammar.public_rule().internal().alternatives().next().is_none());
}

#[test]
fn grammar_text_is_handed_over_with_a_closing_nul() {
    assert_eq!(
        grammar_text("public <r> = a | b c;").unwrap(),
        b"public <r> = a | b c;\0".to_vec()
    );
    assert_eq!(grammar_text("").unwrap(), vec![0]);
}

#[test]
fn a_grammar_text_with_a_nul_is_a_syntax_error() {
    assert_eq!(
        grammar_text("public <r> = a\0 | b;").unwrap_err().kind,
        ErrorKind::GrammarSyntaxError
    );
    assert_eq!(grammar_text("\0").unwrap_err().kind, ErrorKind::GrammarSyntaxError);
}

#[test]
fn a_grammar_file_name_is_handed_over_with_a_closing_nul() {
    assert_eq!(grammar_file_name(b"digits.gram").unwrap(), b"digits.gram\0".to_vec());
    assert_eq!(grammar_file_name(&[0xff, 0x2f]).unwrap(), vec![0xff, 0x2f, 0]);
}

#[test]
fn a_grammar_file_name_with_a_nul_is_a_syntax_error() {
    assert_eq!(
        grammar_file_name(b"digits\0.gram").unwrap_err().kind,
        ErrorKind::GrammarSyntaxError
    );
}
