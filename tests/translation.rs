use ebnf2pest::ident::{translate_identifier, underscore_separators};
use ebnf2pest::registry::TokenRegistry;
use ebnf2pest::translate;
use ebnf2pest::translate::{
    emit_token_rules, translate_note, translate_production, translate_rule, translate_terminal,
};
use ebnf2pest::tree::{
    Concatenation, Factor, Grammar, Production, ProductionOrEmptyLine, RepeatableFactor, Rule,
    RuleOrNote, TerminalPart,
};

fn plain(f: Factor) -> RepeatableFactor {
    RepeatableFactor { factor: f, repeated: false }
}

fn repeated(f: Factor) -> RepeatableFactor {
    RepeatableFactor { factor: f, repeated: true }
}

fn ident(s: &str) -> Factor {
    Factor::Identifier(s.to_string())
}

fn token(s: &str) -> Factor {
    Factor::Token(s.to_string())
}

fn quoted(s: &str) -> Factor {
    Factor::Terminal(vec![TerminalPart::Unescaped(s.to_string())])
}

fn seq(fs: Vec<RepeatableFactor>) -> Concatenation {
    Concatenation { factors: fs }
}

fn rule(cs: Vec<Concatenation>) -> Rule {
    Rule { alternatives: cs }
}

fn production(name: &str, r: Rule) -> ProductionOrEmptyLine {
    ProductionOrEmptyLine::Production(Production {
        name: name.to_string(),
        body: RuleOrNote::Rule(r),
    })
}

fn grammar(lines: Vec<ProductionOrEmptyLine>) -> Grammar {
    Grammar { lines }
}

#[test]
fn alternation_of_terminals() {
    let g = grammar(vec![production(
        "A",
        rule(vec![seq(vec![plain(quoted("x"))]), seq(vec![plain(quoted("y"))])]),
    )]);
    assert_eq!(translate(&g), "A = {\n(\"x\") | (\"y\")\n}\n");
}

#[test]
fn concatenation_of_identifiers() {
    let g = grammar(vec![production(
        "A",
        rule(vec![seq(vec![plain(ident("B")), plain(ident("C"))])]),
    )]);
    assert_eq!(translate(&g), "A = {\n(B ~ C)\n}\n");
}

#[test]
fn optional_group() {
    let inner = rule(vec![seq(vec![plain(ident("B"))])]);
    let g = grammar(vec![production(
        "A",
        rule(vec![seq(vec![plain(Factor::Optional(inner))])]),
    )]);
    let out = translate(&g);
    assert!(out.contains("(B))?"));
    assert_eq!(out, "A = {\n(((B))?)\n}\n");
}

#[test]
fn repeated_factor_is_one_or_more() {
    let g = grammar(vec![production("A", rule(vec![seq(vec![repeated(ident("B"))])]))]);
    let out = translate(&g);
    assert!(out.contains("(B)+"));
    assert_eq!(out, "A = {\n((B)+)\n}\n");
}

#[test]
fn repetition_binds_to_one_factor() {
    let g = grammar(vec![production(
        "A",
        rule(vec![seq(vec![plain(ident("B")), repeated(ident("C"))])]),
    )]);
    assert_eq!(translate(&g), "A = {\n(B ~ (C)+)\n}\n");
}

#[test]
fn grouping_keeps_inner_alternation() {
    let inner = rule(vec![seq(vec![plain(ident("x"))]), seq(vec![plain(ident("y"))])]);
    let mut reg = TokenRegistry::new();
    let r = rule(vec![seq(vec![plain(Factor::Grouping(inner))])]);
    assert_eq!(translate_rule(&r, &mut reg), "(((X) | (Y)))");
    assert_eq!(reg.len(), 0);
}

#[test]
fn empty_alternative_is_empty_sequence() {
    let r = rule(vec![seq(vec![plain(ident("a"))]), seq(vec![])]);
    let mut reg = TokenRegistry::new();
    assert_eq!(translate_rule(&r, &mut reg), "(A) | ()");
}

#[test]
fn note_in_rule_position() {
    let g = grammar(vec![ProductionOrEmptyLine::Production(Production {
        name: "digit".to_string(),
        body: RuleOrNote::Note("See the Syntax Rules.".to_string()),
    })]);
    assert_eq!(translate(&g), "Digit = {\n/* See the Syntax Rules. */\n}\n");
}

#[test]
fn inline_note_passes_through() {
    assert_eq!(translate_note(" spaced  text "), "/*  spaced  text  */");
    let r = rule(vec![seq(vec![plain(Factor::Note("any char".to_string()))])]);
    let mut reg = TokenRegistry::new();
    assert_eq!(translate_rule(&r, &mut reg), "(/* any char */)");
}

#[test]
fn terminal_escapes_resolved() {
    let parts = vec![
        TerminalPart::Unescaped("a".to_string()),
        TerminalPart::Escaped('n'),
        TerminalPart::Unescaped("bc".to_string()),
    ];
    assert_eq!(translate_terminal(&parts), "\"anbc\"");
    assert_eq!(translate_terminal(&vec![]), "\"\"");
}

#[test]
fn identifier_normalization() {
    assert_eq!(translate_identifier("compound statement"), "CompoundStatement");
    assert_eq!(translate_identifier("SQL-client module/name"), "SqlClientModuleName");
    assert_eq!(underscore_separators("a b/c-d_e"), "a_b_c_d_e");
}

#[test]
fn normalization_is_idempotent() {
    let once = translate_identifier("compound statement");
    assert_eq!(translate_identifier(&once), once);
    assert_eq!(translate_identifier("CompoundStatement"), "CompoundStatement");
}

#[test]
fn one_rule_per_production() {
    let g = grammar(vec![
        production("first rule", rule(vec![seq(vec![plain(ident("second rule"))])])),
        ProductionOrEmptyLine::EmptyLine,
        production("second rule", rule(vec![seq(vec![plain(quoted("z"))])])),
    ]);
    let out = translate(&g);
    assert_eq!(out, "FirstRule = {\n(SecondRule)\n}\nSecondRule = {\n(\"z\")\n}\n");
    assert_eq!(out.matches("FirstRule = {").count(), 1);
    assert_eq!(out.matches("SecondRule = {").count(), 1);
}

#[test]
fn token_rules_deduplicated() {
    let g = grammar(vec![
        production("a", rule(vec![seq(vec![plain(token("SELECT")), plain(token("FROM"))])])),
        production("b", rule(vec![seq(vec![plain(token("SELECT"))])])),
        production("c", rule(vec![seq(vec![plain(token("SELECT")), plain(token("select"))])])),
    ]);
    let out = translate(&g);
    assert_eq!(
        out,
        "A = {\n(SELECT ~ FROM)\n}\nB = {\n(SELECT)\n}\nC = {\n(SELECT ~ select)\n}\n\
         SELECT = { ^\"SELECT\" }\nFROM = { ^\"FROM\" }\nselect = { ^\"select\" }\n"
    );
    assert_eq!(out.matches("SELECT = {").count(), 1);
}

#[test]
fn tokens_inside_nested_constructs() {
    let inner = rule(vec![seq(vec![plain(token("ALL"))])]);
    let g = grammar(vec![production(
        "q",
        rule(vec![seq(vec![plain(Factor::Optional(inner)), repeated(token("ALL"))])]),
    )]);
    assert_eq!(
        translate(&g),
        "Q = {\n(((ALL))? ~ (ALL)+)\n}\nALL = { ^\"ALL\" }\n"
    );
}

#[test]
fn translation_is_deterministic() {
    let build = || {
        grammar(vec![production(
            "x",
            rule(vec![seq(vec![plain(token("B")), plain(token("A")), plain(token("C"))])]),
        )])
    };
    let first = translate(&build());
    let second = translate(&build());
    assert_eq!(first, second);
    assert!(first.ends_with("B = { ^\"B\" }\nA = { ^\"A\" }\nC = { ^\"C\" }\n"));
}

#[test]
fn empty_document_gives_empty_output() {
    assert_eq!(translate(&grammar(vec![])), "");
    assert_eq!(
        translate(&grammar(vec![ProductionOrEmptyLine::EmptyLine, ProductionOrEmptyLine::EmptyLine])),
        ""
    );
}

#[test]
fn no_tokens_no_token_rules() {
    let g = grammar(vec![production("a", rule(vec![seq(vec![plain(quoted("k"))])]))]);
    let out = translate(&g);
    assert!(!out.contains("^\""));
}

#[test]
fn production_appends_to_output() {
    let p = Production {
        name: "my rule".to_string(),
        body: RuleOrNote::Rule(rule(vec![seq(vec![plain(token("K"))])])),
    };
    let mut out = "prefix\n".to_string();
    let mut reg = TokenRegistry::new();
    translate_production(&p, &mut out, &mut reg);
    assert_eq!(out, "prefix\nMyRule = {\n(K)\n}\n");
    assert_eq!(reg.len(), 1);
    assert_eq!(reg.get(0), "K");
    emit_token_rules(&reg, &mut out);
    assert_eq!(out, "prefix\nMyRule = {\n(K)\n}\nK = { ^\"K\" }\n");
}

#[test]
fn registry_keeps_first_occurrence_order() {
    let mut reg = TokenRegistry::new();
    reg.insert(&"b".to_string());
    reg.insert(&"a".to_string());
    reg.insert(&"b".to_string());
    assert_eq!(reg.len(), 2);
    assert_eq!(reg.get(0), "b");
    assert_eq!(reg.get(1), "a");
}
