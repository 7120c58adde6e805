//! Tokens produced by the lexer.

use vstd::prelude::*;

verus! {

/// One token: its kind, the slice of source text it covers, and the line
/// and column it starts at.
#[derive(Debug, Clone, PartialEq)]
pub struct Token<'a> {
    pub kind: TokenKind,
    pub literal: &'a str,
    pub line: usize,
    pub column: usize,
}

/// The kinds of token the language distinguishes.
#[derive(Debug, Clone, Copy, PartialEq, Eq, Structural)]
pub enum TokenKind {
    // Identifiers
    Ident,
    // Literals
    Bool,
    Int,
    Float,
    Char,
    Str,
    // Mutable binding
    Mut,
    Use,
    // Control flow
    If,
    Else,
    While,
    For,
    Loop,
    Match,
    Break,
    Continue,
    Spawn,
    // Type-related
    Type,
    Impl,
    Trait,
    Where,
    As,
    Derive,
    // Function-related
    Function,
    Return,
    Arrow,
    // Punctuation
    Ampersand,
    Pipe,
    Caret,
    Tilde,
    LeftShift,
    RightShift,
    Colon,
    DoubleColon,
    Dot,
    DoubleArrow,
    At,
    Question,
    Semicolon,
    OpenParen,
    CloseParen,
    OpenBracket,
    CloseBracket,
    OpenBrace,
    CloseBrace,
    Comma,
    Underscore,
    // Boolean operators
    And,
    Or,
    Not,
    Equal,
    NotEqual,
    LessThan,
    GreaterThan,
    LessEqual,
    GreaterEqual,
    // Mathematical operators
    Plus,
    Minus,
    Multiply,
    Divide,
    Modulo,
    Power,
    // Assignment operators
    Assign,
    PlusAssign,
    MinusAssign,
    MultiplyAssign,
    DivideAssign,
    ModuloAssign,
    PowerAssign,
    BitAndAssign,
    BitOrAssign,
    BitXorAssign,
    LeftShiftAssign,
    RightShiftAssign,
    // Error handling
    QuestionMark,
    // Miscellaneous
    Pub,
    Const,
    // Comments
    Comment,
    Unknown,
    UntermDoubleQuote,
}

} // verus!
