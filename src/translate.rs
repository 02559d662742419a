use vstd::prelude::*;
use vstd::string::*;
use crate::tree::{
    Concatenation, Factor, Grammar, Production, ProductionOrEmptyLine, RepeatableFactor, Rule,
    RuleOrNote, TerminalPart,
};
use crate::registry::{add_all, lemma_add_all_append, TokenRegistry};
use crate::ident::{normalized, translate_identifier};

verus! {

/// `s` wrapped in parentheses.
pub open spec fn paren(s: Seq<char>) -> Seq<char> {
    "("@ + s + ")"@
}

/// An inline note as a PEG comment.
pub open spec fn note_text(t: Seq<char>) -> Seq<char> {
    "/* "@ + t + " */"@
}

pub open spec fn part_text(p: TerminalPart) -> Seq<char> {
    match p {
        TerminalPart::Escaped(c) => seq![c],
        TerminalPart::Unescaped(u) => u@,
    }
}

/// The characters of a quoted terminal, escapes resolved.
pub open spec fn parts_text(s: Seq<TerminalPart>) -> Seq<char>
    decreases s.len(),
{
    if s.len() == 0 {
        Seq::empty()
    } else {
        parts_text(s.drop_last()) + part_text(s.last())
    }
}

/// A quoted terminal as a PEG string literal.
pub open spec fn terminal_text(s: Seq<TerminalPart>) -> Seq<char> {
    "\""@ + parts_text(s) + "\""@
}

pub open spec fn factor_text(f: Factor) -> Seq<char>
    decreases f,
{
    match f {
        Factor::Grouping(r) => paren(rule_text(r)),
        Factor::Optional(r) => paren(rule_text(r)) + "?"@,
        Factor::Note(t) => note_text(t@),
        Factor::Identifier(n) => normalized(n@),
        Factor::Terminal(parts) => terminal_text(parts@),
        Factor::Token(t) => t@,
    }
}

pub open spec fn repeatable_text(rf: RepeatableFactor) -> Seq<char>
    decreases rf,
{
    if rf.repeated {
        paren(factor_text(rf.factor)) + "+"@
    } else {
        factor_text(rf.factor)
    }
}

/// Factors joined by ` ~ `.
pub open spec fn factors_text(s: Seq<RepeatableFactor>) -> Seq<char>
    decreases s,
{
    if s.len() == 0 {
        Seq::empty()
    } else if s.len() == 1 {
        repeatable_text(s[0])
    } else {
        factors_text(s.drop_last()) + " ~ "@ + repeatable_text(s.last())
    }
}

pub open spec fn concatenation_text(c: Concatenation) -> Seq<char>
    decreases c,
{
    factors_text(c.factors@)
}

/// Alternatives, each in parentheses, joined by ` | `.
pub open spec fn alternatives_text(s: Seq<Concatenation>) -> Seq<char>
    decreases s,
{
    if s.len() == 0 {
        Seq::empty()
    } else if s.len() == 1 {
        paren(concatenation_text(s[0]))
    } else {
        alternatives_text(s.drop_last()) + " | "@ + paren(concatenation_text(s.last()))
    }
}

pub open spec fn rule_text(r: Rule) -> Seq<char>
    decreases r,
{
    alternatives_text(r.alternatives@)
}

/// The token texts met in a factor, left to right, repeats included.
pub open spec fn factor_tokens(f: Factor) -> Seq<Seq<char>>
    decreases f,
{
    match f {
        Factor::Grouping(r) => rule_tokens(r),
        Factor::Optional(r) => rule_tokens(r),
        Factor::Token(t) => seq![t@],
        _ => Seq::empty(),
    }
}

pub open spec fn factors_tokens(s: Seq<RepeatableFactor>) -> Seq<Seq<char>>
    decreases s,
{
    if s.len() == 0 {
        Seq::empty()
    } else {
        factors_tokens(s.drop_last()) + factor_tokens(s.last().factor)
    }
}

pub open spec fn concatenation_tokens(c: Concatenation) -> Seq<Seq<char>>
    decreases c,
{
    factors_tokens(c.factors@)
}

pub open spec fn alternatives_tokens(s: Seq<Concatenation>) -> Seq<Seq<char>>
    decreases s,
{
    if s.len() == 0 {
        Seq::empty()
    } else {
        alternatives_tokens(s.drop_last()) + concatenation_tokens(s.last())
    }
}

pub open spec fn rule_tokens(r: Rule) -> Seq<Seq<char>>
    decreases r,
{
    alternatives_tokens(r.alternatives@)
}

/// Relies on String::push: the character is appended.
#[verifier::external_body]
fn push_char(s: &mut String, c: char)
    ensures
        final(s)@ == old(s)@.push(c),
{
    s.push(c)
}

/// `/* text */`
pub fn translate_note(text: &str) -> (r: String)
    ensures
        r@ == note_text(text@),
{
    let mut out = String::new();
    out.append("/* ");
    out.append(text);
    out.append(" */");
    assert(out@ =~= note_text(text@));
    out
}

/// The characters of a quoted terminal, escapes resolved, between double quotes.
pub fn translate_terminal(parts: &Vec<TerminalPart>) -> (r: String)
    ensures
        r@ == terminal_text(parts@),
{
    let mut out = String::new();
    out.append("\"");
    let mut i: usize = 0;
    while i < parts.len()
        invariant
            0 <= i <= parts@.len(),
            out@ == "\""@ + parts_text(parts@.take(i as int)),
        decreases parts@.len() - i,
    {
        match &parts[i] {
            TerminalPart::Escaped(c) => {
                push_char(&mut out, *c);
            },
            TerminalPart::Unescaped(u) => {
                out.append(u.as_str());
            },
        }
        proof {
            let s = parts@;
            assert(s.take(i + 1).drop_last() =~= s.take(i as int));
            assert(s.take(i + 1).last() == s[i as int]);
        }
        i = i + 1;
    }
    out.append("\"");
    assert(parts@.take(parts@.len() as int) =~= parts@);
    out
}

/// Records a bare token in the registry; the use site names it as it is.
pub fn translate_token(t: &String, reg: &mut TokenRegistry) -> (r: String)
    ensures
        r@ == t@,
        final(reg)@ == add_all(old(reg)@, seq![t@]),
{
    let ghost reg0 = reg@;
    reg.insert(t);
    assert(seq![t@].drop_last() =~= Seq::<Seq<char>>::empty());
    assert(seq![t@].last() == t@);
    assert(add_all(reg0, Seq::<Seq<char>>::empty()) == reg0);
    t.clone()
}

/// `( rule )` becomes `(rule)`.
pub fn translate_grouping(r: &Rule, reg: &mut TokenRegistry) -> (s: String)
    ensures
        s@ == paren(rule_text(*r)),
        final(reg)@ == add_all(old(reg)@, rule_tokens(*r)),
    decreases r, 1nat,
{
    let inner = translate_rule(r, reg);
    let mut out = String::new();
    out.append("(");
    out.append(inner.as_str());
    out.append(")");
    assert(out@ =~= paren(rule_text(*r)));
    out
}

/// `[ rule ]` becomes `(rule)?`.
pub fn translate_option(r: &Rule, reg: &mut TokenRegistry) -> (s: String)
    ensures
        s@ == paren(rule_text(*r)) + "?"@,
        final(reg)@ == add_all(old(reg)@, rule_tokens(*r)),
    decreases r, 1nat,
{
    let inner = translate_rule(r, reg);
    let mut out = String::new();
    out.append("(");
    out.append(inner.as_str());
    out.append(")");
    out.append("?");
    assert(out@ =~= paren(rule_text(*r)) + "?"@);
    out
}

/// A grouping, option, note, identifier, terminal or token, by its kind.
pub fn translate_factor(f: &Factor, reg: &mut TokenRegistry) -> (s: String)
    ensures
        s@ == factor_text(*f),
        final(reg)@ == add_all(old(reg)@, factor_tokens(*f)),
    decreases f, 0nat,
{
    match f {
        Factor::Grouping(r) => translate_grouping(r, reg),
        Factor::Optional(r) => translate_option(r, reg),
        Factor::Note(t) => translate_note(t.as_str()),
        Factor::Identifier(n) => translate_identifier(n.as_str()),
        Factor::Terminal(parts) => translate_terminal(parts),
        Factor::Token(t) => translate_token(t, reg),
    }
}

/// A factor, as `(factor)+` when it carries the ellipsis marker.
pub fn translate_repeatable_factor(rf: &RepeatableFactor, reg: &mut TokenRegistry) -> (s: String)
    ensures
        s@ == repeatable_text(*rf),
        final(reg)@ == add_all(old(reg)@, factor_tokens(rf.factor)),
    decreases rf, 0nat,
{
    let inner = translate_factor(&rf.factor, reg);
    if rf.repeated {
        let mut out = String::new();
        out.append("(");
        out.append(inner.as_str());
        out.append(")");
        out.append("+");
        assert(out@ =~= paren(factor_text(rf.factor)) + "+"@);
        out
    } else {
        inner
    }
}

/// Factors joined by ` ~ `.
pub fn translate_concatenation(c: &Concatenation, reg: &mut TokenRegistry) -> (s: String)
    ensures
        s@ == concatenation_text(*c),
        final(reg)@ == add_all(old(reg)@, concatenation_tokens(*c)),
    decreases c, 0nat,
{
    let ghost reg0 = reg@;
    let mut out = String::new();
    let n = c.factors.len();
    let mut i: usize = 0;
    while i < n
        invariant
            n == c.factors@.len(),
            0 <= i <= n,
            out@ == factors_text(c.factors@.take(i as int)),
            reg@ == add_all(reg0, factors_tokens(c.factors@.take(i as int))),
        decreases n - i,
    {
        assert(decreases_to!(c => c.factors@[i as int]));
        let piece = translate_repeatable_factor(&c.factors[i], reg);
        if i > 0 {
            out.append(" ~ ");
        }
        out.append(piece.as_str());
        proof {
            let s = c.factors@;
            assert(s.take(i + 1).drop_last() =~= s.take(i as int));
            assert(s.take(i + 1).last() == s[i as int]);
            if i == 0 {
                assert(out@ =~= repeatable_text(s[0]));
            } else {
                assert(out@ =~= factors_text(s.take(i as int)) + " ~ "@ + repeatable_text(
                    s[i as int],
                ));
            }
            lemma_add_all_append(reg0, factors_tokens(s.take(i as int)), factor_tokens(s[i as int].factor));
        }
        i = i + 1;
    }
    assert(c.factors@.take(n as int) =~= c.factors@);
    out
}

/// Alternatives, each in parentheses, joined by ` | `.
pub fn translate_rule(r: &Rule, reg: &mut TokenRegistry) -> (s: String)
    ensures
        s@ == rule_text(*r),
        final(reg)@ == add_all(old(reg)@, rule_tokens(*r)),
    decreases r, 0nat,
{
    let ghost reg0 = reg@;
    let mut out = String::new();
    let n = r.alternatives.len();
    let mut i: usize = 0;
    while i < n
        invariant
            n == r.alternatives@.len(),
            0 <= i <= n,
            out@ == alternatives_text(r.alternatives@.take(i as int)),
            reg@ == add_all(reg0, alternatives_tokens(r.alternatives@.take(i as int))),
        decreases n - i,
    {
        assert(decreases_to!(r => r.alternatives@[i as int]));
        let piece = translate_concatenation(&r.alternatives[i], reg);
        if i > 0 {
            out.append(" | ");
        }
        out.append("(");
        out.append(piece.as_str());
        out.append(")");
        proof {
            let s = r.alternatives@;
            assert(s.take(i + 1).drop_last() =~= s.take(i as int));
            assert(s.take(i + 1).last() == s[i as int]);
            if i == 0 {
                assert(out@ =~= paren(concatenation_text(s[0])));
            } else {
                assert(out@ =~= alternatives_text(s.take(i as int)) + " | "@ + paren(
                    concatenation_text(s[i as int]),
                ));
            }
            lemma_add_all_append(reg0, alternatives_tokens(s.take(i as int)), concatenation_tokens(s[i as int]));
        }
        i = i + 1;
    }
    assert(r.alternatives@.take(n as int) =~= r.alternatives@);
    out
}

pub open spec fn body_text(b: RuleOrNote) -> Seq<char> {
    match b {
        RuleOrNote::Rule(r) => rule_text(r),
        RuleOrNote::Note(t) => note_text(t@),
    }
}

pub open spec fn body_tokens(b: RuleOrNote) -> Seq<Seq<char>> {
    match b {
        RuleOrNote::Rule(r) => rule_tokens(r),
        RuleOrNote::Note(_) => Seq::empty(),
    }
}

/// The first line of the PEG rule for a production.
pub open spec fn production_head(p: Production) -> Seq<char> {
    normalized(p.name@) + " = {\n"@
}

/// A PEG rule definition: `ident = {`, the body on its own line, `}`.
pub open spec fn rule_definition(ident: Seq<char>, body: Seq<char>) -> Seq<char> {
    ident + " = {\n"@ + body + "\n}\n"@
}

/// The PEG rule for a production.
pub open spec fn production_text(p: Production) -> Seq<char> {
    rule_definition(normalized(p.name@), body_text(p.body))
}

pub open spec fn line_text(l: ProductionOrEmptyLine) -> Seq<char> {
    match l {
        ProductionOrEmptyLine::Production(p) => production_text(p),
        ProductionOrEmptyLine::EmptyLine => Seq::empty(),
    }
}

pub open spec fn line_tokens(l: ProductionOrEmptyLine) -> Seq<Seq<char>> {
    match l {
        ProductionOrEmptyLine::Production(p) => body_tokens(p.body),
        ProductionOrEmptyLine::EmptyLine => Seq::empty(),
    }
}

pub open spec fn lines_text(s: Seq<ProductionOrEmptyLine>) -> Seq<char>
    decreases s.len(),
{
    if s.len() == 0 {
        Seq::empty()
    } else {
        lines_text(s.drop_last()) + line_text(s.last())
    }
}

pub open spec fn lines_tokens(s: Seq<ProductionOrEmptyLine>) -> Seq<Seq<char>>
    decreases s.len(),
{
    if s.len() == 0 {
        Seq::empty()
    } else {
        lines_tokens(s.drop_last()) + line_tokens(s.last())
    }
}

/// The synthesized rule for a token: `t = { ^"t" }`, matching it in any case.
pub open spec fn token_rule_text(t: Seq<char>) -> Seq<char> {
    t + " = { ^\""@ + t + "\" }\n"@
}

pub open spec fn token_rules_text(reg: Seq<Seq<char>>) -> Seq<char>
    decreases reg.len(),
{
    if reg.len() == 0 {
        Seq::empty()
    } else {
        token_rules_text(reg.drop_last()) + token_rule_text(reg.last())
    }
}

/// The distinct tokens of a grammar, in the order in which each is first met.
pub open spec fn grammar_tokens(g: Grammar) -> Seq<Seq<char>> {
    add_all(Seq::empty(), lines_tokens(g.lines@))
}

/// The whole PEG text for a grammar: one rule per production, in order,
/// then one rule per distinct token.
pub open spec fn translation(g: Grammar) -> Seq<char> {
    lines_text(g.lines@) + token_rules_text(grammar_tokens(g))
}

pub fn translate_rule_or_note(b: &RuleOrNote, reg: &mut TokenRegistry) -> (s: String)
    ensures
        s@ == body_text(*b),
        final(reg)@ == add_all(old(reg)@, body_tokens(*b)),
{
    match b {
        RuleOrNote::Rule(r) => translate_rule(r, reg),
        RuleOrNote::Note(t) => translate_note(t.as_str()),
    }
}

/// Appends the PEG rule for `p` to `output`.
pub fn translate_production(p: &Production, output: &mut String, reg: &mut TokenRegistry)
    ensures
        final(output)@ == old(output)@ + production_text(*p),
        final(reg)@ == add_all(old(reg)@, body_tokens(p.body)),
{
    let ident = translate_identifier(p.name.as_str());
    let body = translate_rule_or_note(&p.body, reg);
    write_rule(ident.as_str(), body.as_str(), output);
}

/// Appends the rule definition for an already normalized identifier and an
/// already translated body.
pub fn write_rule(ident: &str, body: &str, output: &mut String)
    ensures
        final(output)@ == old(output)@ + rule_definition(ident@, body@),
{
    output.append(ident);
    output.append(" = {\n");
    output.append(body);
    output.append("\n}\n");
    assert(output@ =~= old(output)@ + rule_definition(ident@, body@));
}

/// Appends one synthesized rule per registered token, in registry order.
pub fn emit_token_rules(reg: &TokenRegistry, output: &mut String)
    ensures
        final(output)@ == old(output)@ + token_rules_text(reg@),
{
    let n = reg.len();
    let mut i: usize = 0;
    while i < n
        invariant
            n == reg@.len(),
            0 <= i <= n,
            output@ == old(output)@ + token_rules_text(reg@.take(i as int)),
        decreases n - i,
    {
        let t = reg.get(i);
        output.append(t.as_str());
        output.append(" = { ^\"");
        output.append(t.as_str());
        output.append("\" }\n");
        proof {
            let s = reg@;
            assert(s.take(i + 1).drop_last() =~= s.take(i as int));
            assert(s.take(i + 1).last() == s[i as int]);
            assert(output@ =~= old(output)@ + token_rules_text(s.take(i as int)) + token_rule_text(
                s[i as int],
            ));
        }
        i = i + 1;
    }
    assert(reg@.take(n as int) =~= reg@);
}

/// Translates a whole grammar: every production in order, then the
/// synthesized token rules.
pub fn translate(g: &Grammar) -> (s: String)
    ensures
        s@ == translation(*g),
{
    let mut reg = TokenRegistry::new();
    let mut output = String::new();
    let n = g.lines.len();
    let mut i: usize = 0;
    while i < n
        invariant
            n == g.lines@.len(),
            0 <= i <= n,
            output@ == lines_text(g.lines@.take(i as int)),
            reg@ == add_all(Seq::empty(), lines_tokens(g.lines@.take(i as int))),
        decreases n - i,
    {
        let ghost before = output@;
        match &g.lines[i] {
            ProductionOrEmptyLine::Production(p) => translate_production(p, &mut output, &mut reg),
            ProductionOrEmptyLine::EmptyLine => {},
        }
        proof {
            let s = g.lines@;
            assert(s.take(i + 1).drop_last() =~= s.take(i as int));
            assert(s.take(i + 1).last() == s[i as int]);
            lemma_add_all_append(
                Seq::empty(),
                lines_tokens(s.take(i as int)),
                line_tokens(s[i as int]),
            );
            if s[i as int] is EmptyLine {
                assert(output@ =~= before + line_text(s[i as int]));
                assert(lines_tokens(s.take(i as int)) + line_tokens(s[i as int]) =~= lines_tokens(
                    s.take(i as int),
                ));
            }
        }
        i = i + 1;
    }
    assert(g.lines@.take(n as int) =~= g.lines@);
    emit_token_rules(&reg, &mut output);
    output
}

} // verus!
