use vstd::prelude::*;

verus! {

/// One piece of a quoted terminal: a character written after a backslash,
/// or a span of characters written as they are.
pub enum TerminalPart {
    Escaped(char),
    Unescaped(String),
}

/// An atomic or nested construct inside a concatenation.
pub enum Factor {
    /// `( rule )`
    Grouping(Rule),
    /// `[ rule ]`
    Optional(Rule),
    /// An inline free-text note.
    Note(String),
    /// A reference to another production, by its raw name.
    Identifier(String),
    /// A quoted literal.
    Terminal(Vec<TerminalPart>),
    /// A bare literal word.
    Token(String),
}

/// A factor, optionally followed by the ellipsis marker (one or more).
pub struct RepeatableFactor {
    pub factor: Factor,
    pub repeated: bool,
}

/// A sequence of factors; it may be empty.
pub struct Concatenation {
    pub factors: Vec<RepeatableFactor>,
}

/// An alternation of concatenations.
pub struct Rule {
    pub alternatives: Vec<Concatenation>,
}

/// The right-hand side of a production.
pub enum RuleOrNote {
    Rule(Rule),
    Note(String),
}

/// `name = body`
pub struct Production {
    pub name: String,
    pub body: RuleOrNote,
}

/// One line of a grammar document.
pub enum ProductionOrEmptyLine {
    Production(Production),
    EmptyLine,
}

/// A whole grammar document.
pub struct Grammar {
    pub lines: Vec<ProductionOrEmptyLine>,
}

} // verus!
