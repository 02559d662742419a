use vstd::prelude::*;
use crate::tree::{Grammar, Production, ProductionOrEmptyLine};
use crate::registry::lemma_add_all_contents;
use crate::translate::{
    grammar_tokens, lines_text, lines_tokens, production_head, production_text,
    token_rules_text, translation,
};

verus! {

/// The productions of a sequence of lines, in order, empty lines left out.
pub open spec fn productions(s: Seq<ProductionOrEmptyLine>) -> Seq<Production>
    decreases s.len(),
{
    if s.len() == 0 {
        Seq::empty()
    } else {
        match s.last() {
            ProductionOrEmptyLine::Production(p) => productions(s.drop_last()).push(p),
            ProductionOrEmptyLine::EmptyLine => productions(s.drop_last()),
        }
    }
}

/// The PEG rules of the given productions, one after another.
pub open spec fn rules_text(ps: Seq<Production>) -> Seq<char>
    decreases ps.len(),
{
    if ps.len() == 0 {
        Seq::empty()
    } else {
        rules_text(ps.drop_last()) + production_text(ps.last())
    }
}

proof fn lemma_lines_are_rules(s: Seq<ProductionOrEmptyLine>)
    ensures
        lines_text(s) == rules_text(productions(s)),
    decreases s.len(),
{
    if s.len() > 0 {
        lemma_lines_are_rules(s.drop_last());
        match s.last() {
            ProductionOrEmptyLine::Production(p) => {
                assert(productions(s).drop_last() =~= productions(s.drop_last()));
            },
            ProductionOrEmptyLine::EmptyLine => {
                assert(lines_text(s) =~= lines_text(s.drop_last()));
            },
        }
    }
}

/// Every production of the grammar gives exactly one PEG rule, in the order
/// of the productions and before the token rules, and that rule starts with
/// the normalized name of the production.
pub proof fn lemma_one_rule_per_production(g: Grammar)
    ensures
        translation(g) == rules_text(productions(g.lines@)) + token_rules_text(
            grammar_tokens(g),
        ),
        forall|i: int|
            0 <= i < productions(g.lines@).len() ==> (#[trigger] production_text(
                productions(g.lines@)[i],
            )).take(production_head(productions(g.lines@)[i]).len() as int) == production_head(
                productions(g.lines@)[i],
            ),
{
    lemma_lines_are_rules(g.lines@);
    assert forall|i: int| 0 <= i < productions(g.lines@).len() implies (#[trigger] production_text(
        productions(g.lines@)[i],
    )).take(production_head(productions(g.lines@)[i]).len() as int) == production_head(
        productions(g.lines@)[i],
    ) by {
        let p = productions(g.lines@)[i];
        assert(production_text(p).take(production_head(p).len() as int) =~= production_head(p));
    }
}

/// Each token text used anywhere in the grammar gets exactly one synthesized
/// rule, however often it is used, and no other text gets one.
pub proof fn lemma_tokens_deduplicated(g: Grammar)
    ensures
        grammar_tokens(g).no_duplicates(),
        forall|t: Seq<char>| #[trigger]
            grammar_tokens(g).contains(t) <==> lines_tokens(g.lines@).contains(t),
{
    lemma_add_all_contents(Seq::empty(), lines_tokens(g.lines@));
}

proof fn lemma_no_productions(s: Seq<ProductionOrEmptyLine>)
    requires
        forall|i: int| 0 <= i < s.len() ==> s[i] is EmptyLine,
    ensures
        lines_text(s) == Seq::<char>::empty(),
        lines_tokens(s) == Seq::<Seq<char>>::empty(),
    decreases s.len(),
{
    if s.len() > 0 {
        assert(s[s.len() - 1] is EmptyLine);
        lemma_no_productions(s.drop_last());
        assert(lines_text(s) =~= Seq::<char>::empty());
        assert(lines_tokens(s) =~= Seq::<Seq<char>>::empty());
    }
}

/// A document without productions (empty, or blank lines only) translates
/// to the empty text: no rules and no token rules.
pub proof fn lemma_empty_document(g: Grammar)
    requires
        forall|i: int| 0 <= i < g.lines@.len() ==> g.lines@[i] is EmptyLine,
    ensures
        translation(g) == Seq::<char>::empty(),
{
    lemma_no_productions(g.lines@);
    assert(translation(g) =~= Seq::<char>::empty());
}

/// A grammar that uses no token gets no synthesized rule: its translation is
/// the rules of its productions alone.
pub proof fn lemma_no_tokens_no_token_rules(g: Grammar)
    requires
        lines_tokens(g.lines@).len() == 0,
    ensures
        translation(g) == lines_text(g.lines@),
{
    assert(grammar_tokens(g) == Seq::<Seq<char>>::empty());
    assert(translation(g) =~= lines_text(g.lines@));
}

} // verus!
