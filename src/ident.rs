use vstd::prelude::*;
use convert_case::Casing;

verus! {

/// What convert_case's `to_case(Case::UpperCamel)` returns for a text.
pub uninterp spec fn upper_camel_of(s: Seq<char>) -> Seq<char>;

/// Whether `c` separates words in a raw production name.
pub open spec fn is_separator(c: char) -> bool {
    c == ' ' || c == '/' || c == '-'
}

/// The raw name with every space, slash and hyphen turned into an underscore.
pub open spec fn underscored(s: Seq<char>) -> Seq<char> {
    s.map_values(|c: char| if is_separator(c) { '_' } else { c })
}

/// The PEG rule identifier for a raw production name.
pub open spec fn normalized(s: Seq<char>) -> Seq<char> {
    upper_camel_of(underscored(s))
}

/// Relies on str::replace: with a one-character pattern and a one-character
/// replacement, each occurrence of `from` becomes `to` and nothing else changes.
#[verifier::external_body]
fn replace_char(s: &str, from: char, to: &str) -> (r: String)
    requires
        to@.len() == 1,
    ensures
        r@ == s@.map_values(|c: char| if c == from { to@[0] } else { c }),
{
    s.replace(from, to)
}

/// Relies on convert_case's `Casing::to_case` with `Case::UpperCamel`: the
/// result depends on the text alone.
#[verifier::external_body]
fn upper_camel(s: &str) -> (r: String)
    ensures
        r@ == upper_camel_of(s@),
{
    s.to_case(convert_case::Case::UpperCamel)
}

/// Turns every space, slash and hyphen of a raw name into an underscore.
pub fn underscore_separators(raw: &str) -> (r: String)
    ensures
        r@ == underscored(raw@),
{
    proof {
        reveal_strlit("_");
    }
    let a = replace_char(raw, ' ', "_");
    let b = replace_char(a.as_str(), '/', "_");
    let c = replace_char(b.as_str(), '-', "_");
    assert(c@ =~= underscored(raw@));
    c
}

/// Converts a raw production name into a PEG rule identifier
/// (`compound statement` becomes `CompoundStatement`).
pub fn translate_identifier(raw: &str) -> (r: String)
    ensures
        r@ == normalized(raw@),
{
    let u = underscore_separators(raw);
    upper_camel(u.as_str())
}

/// A name without spaces, slashes or hyphens, such as one that is already
/// normalized, goes to the case conversion unchanged.
pub proof fn lemma_normalized_without_separators(s: Seq<char>)
    requires
        forall|i: int| 0 <= i < s.len() ==> !is_separator(#[trigger] s[i]),
    ensures
        normalized(s) == upper_camel_of(s),
{
    assert(underscored(s) =~= s);
}

/// Replacing separators twice is replacing them once.
pub proof fn lemma_underscored_idempotent(s: Seq<char>)
    ensures
        underscored(underscored(s)) == underscored(s),
{
    assert(underscored(underscored(s)) =~= underscored(s));
}

} // verus!
