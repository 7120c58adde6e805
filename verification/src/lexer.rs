//! The lexer: turns source text into a stream of [`Token`]s.
//!
//! The cursor counts characters, and every slice handed out in a token is a
//! character-indexed substring of the source. Classification of word,
//! number and whitespace characters is ASCII-based.

use vstd::prelude::*;
use vstd::string::StrSliceExecFns;
use crate::token::{Token, TokenKind};

verus! {

/// An ASCII letter.
pub open spec fn is_alpha_spec(c: char) -> bool {
    (97 <= c as u32 <= 122) || (65 <= c as u32 <= 90)
}

/// An ASCII digit.
pub open spec fn is_digit_spec(c: char) -> bool {
    48 <= c as u32 <= 57
}

/// ASCII whitespace: space, tab, line feed, carriage return.
pub open spec fn is_whitespace_spec(c: char) -> bool {
    c as u32 == 32 || c as u32 == 9 || c as u32 == 10 || c as u32 == 13
}

/// Decides whether `c` is an ASCII letter.
fn is_alpha(c: char) -> (r: bool)
    ensures
        r == is_alpha_spec(c),
{
    let u = c as u32;
    (97 <= u && u <= 122) || (65 <= u && u <= 90)
}

/// Decides whether `c` is an ASCII digit.
fn is_digit(c: char) -> (r: bool)
    ensures
        r == is_digit_spec(c),
{
    let u = c as u32;
    48 <= u && u <= 57
}

/// Decides whether `c` is ASCII whitespace.
fn is_whitespace(c: char) -> (r: bool)
    ensures
        r == is_whitespace_spec(c),
{
    let u = c as u32;
    u == 32 || u == 9 || u == 10 || u == 13
}

/// Character-wise string equality.
fn str_eq(a: &str, b: &str) -> (r: bool)
    ensures
        r == (a@ == b@),
{
    let alen = a.unicode_len();
    let blen = b.unicode_len();
    if alen != blen {
        return false;
    }
    let mut i: usize = 0;
    while i < alen
        invariant
            i <= alen,
            alen == a@.len(),
            alen == b@.len(),
            forall|j: int| 0 <= j < i ==> a@[j] == b@[j],
        decreases alen - i,
    {
        if a.get_char(i) != b.get_char(i) {
            return false;
        }
        i = i + 1;
    }
    proof {
        assert(a@ =~= b@);
    }
    true
}

/// The sequence holds a full stop somewhere.
pub open spec fn has_dot(s: Seq<char>) -> bool {
    exists|i: int| 0 <= i < s.len() && s[i] == '.'
}

/// Whether the string holds a full stop anywhere.
fn contains_dot(s: &str) -> (r: bool)
    ensures
        r == has_dot(s@),
{
    let len = s.unicode_len();
    let mut i: usize = 0;
    while i < len
        invariant
            i <= len,
            len == s@.len(),
            forall|j: int| 0 <= j < i ==> s@[j] != '.',
        decreases len - i,
    {
        if s.get_char(i) == '.' {
            return true;
        }
        i = i + 1;
    }
    false
}

/// The token kind of a word: a keyword's own kind, or `Ident`.
pub open spec fn word_kind(s: Seq<char>) -> TokenKind {
    if s == "true"@ || s == "false"@ {
        TokenKind::Bool
    } else if s == "use"@ {
        TokenKind::Use
    } else if s == "mut"@ {
        TokenKind::Mut
    } else if s == "if"@ {
        TokenKind::If
    } else if s == "else"@ {
        TokenKind::Else
    } else if s == "return"@ {
        TokenKind::Return
    } else if s == "for"@ {
        TokenKind::For
    } else if s == "while"@ {
        TokenKind::While
    } else if s == "loop"@ {
        TokenKind::Loop
    } else if s == "break"@ {
        TokenKind::Break
    } else if s == "continue"@ {
        TokenKind::Continue
    } else if s == "match"@ {
        TokenKind::Match
    } else if s == "pub"@ {
        TokenKind::Pub
    } else if s == "fn"@ {
        TokenKind::Function
    } else if s == "type"@ {
        TokenKind::Type
    } else if s == "impl"@ {
        TokenKind::Impl
    } else if s == "trait"@ {
        TokenKind::Trait
    } else if s == "where"@ {
        TokenKind::Where
    } else if s == "as"@ {
        TokenKind::As
    } else if s == "const"@ {
        TokenKind::Const
    } else if s == "spawn"@ {
        TokenKind::Spawn
    } else if s == "derive"@ {
        TokenKind::Derive
    } else {
        TokenKind::Ident
    }
}

/// Maps a word to its keyword kind, or to `Ident`.
fn keyword_kind(word: &str) -> (r: TokenKind)
    ensures
        r == word_kind(word@),
{
    if str_eq(word, "true") || str_eq(word, "false") {
        TokenKind::Bool
    } else if str_eq(word, "use") {
        TokenKind::Use
    } else if str_eq(word, "mut") {
        TokenKind::Mut
    } else if str_eq(word, "if") {
        TokenKind::If
    } else if str_eq(word, "else") {
        TokenKind::Else
    } else if str_eq(word, "return") {
        TokenKind::Return
    } else if str_eq(word, "for") {
        TokenKind::For
    } else if str_eq(word, "while") {
        TokenKind::While
    } else if str_eq(word, "loop") {
        TokenKind::Loop
    } else if str_eq(word, "break") {
        TokenKind::Break
    } else if str_eq(word, "continue") {
        TokenKind::Continue
    } else if str_eq(word, "match") {
        TokenKind::Match
    } else if str_eq(word, "pub") {
        TokenKind::Pub
    } else if str_eq(word, "fn") {
        TokenKind::Function
    } else if str_eq(word, "type") {
        TokenKind::Type
    } else if str_eq(word, "impl") {
        TokenKind::Impl
    } else if str_eq(word, "trait") {
        TokenKind::Trait
    } else if str_eq(word, "where") {
        TokenKind::Where
    } else if str_eq(word, "as") {
        TokenKind::As
    } else if str_eq(word, "const") {
        TokenKind::Const
    } else if str_eq(word, "spawn") {
        TokenKind::Spawn
    } else if str_eq(word, "derive") {
        TokenKind::Derive
    } else {
        TokenKind::Ident
    }
}

/// A lexer over one source string.
#[derive(Debug)]
pub struct Lexer<'a> {
    source: &'a str,
    length: usize,
    cursor: usize,
    line: usize,
    column: usize,
}

impl<'a> Lexer<'a> {
    /// The character the cursor sits on.
    pub closed spec fn spec_cursor(&self) -> int {
        self.cursor as int
    }

    /// The source length in characters.
    pub open spec fn spec_len(&self) -> int {
        self.spec_source().len() as int
    }

    /// The source text.
    pub closed spec fn spec_source(&self) -> Seq<char> {
        self.source@
    }

    /// The cached length matches the source.
    pub closed spec fn length_cached(&self) -> bool {
        self.length == self.source@.len()
    }

    /// The cached length matches the source and the cursor stays within it.
    pub open spec fn wf(&self) -> bool {
        &&& self.length_cached()
        &&& self.spec_cursor() <= self.spec_len()
    }

    /// A lexer at the start of `source`, on line one, column one.
    pub fn new(source: &'a str) -> (r: Lexer<'a>)
        ensures
            r.wf(),
            r.spec_cursor() == 0,
            r.spec_source() == source@,
    {
        let length = source.unicode_len();
        Lexer { source, length, cursor: 0, line: 1, column: 1 }
    }

    /// The character under the cursor, or `None` at the end.
    fn curr(&self) -> (r: Option<char>)
        requires
            self.wf(),
        ensures
            self.spec_cursor() < self.spec_len() ==> r == Some(
                self.spec_source()[self.spec_cursor()],
            ),
            self.spec_cursor() >= self.spec_len() ==> r is None,
    {
        if self.cursor < self.length {
            Some(self.source.get_char(self.cursor))
        } else {
            None
        }
    }

    /// The character after the cursor, or `None` at the end.
    fn peek(&self) -> (r: Option<char>)
        requires
            self.wf(),
        ensures
            self.spec_cursor() + 1 < self.spec_len() ==> r == Some(
                self.spec_source()[self.spec_cursor() + 1],
            ),
            self.spec_cursor() + 1 >= self.spec_len() ==> r is None,
    {
        if self.cursor < self.length && self.cursor + 1 < self.length {
            Some(self.source.get_char(self.cursor + 1))
        } else {
            None
        }
    }

    /// Moves the cursor one character forward, tracking line and column;
    /// does nothing at the end of the source.
    fn bump(&mut self)
        requires
            old(self).wf(),
        ensures
            final(self).wf(),
            final(self).spec_source() == old(self).spec_source(),
            old(self).spec_cursor() < old(self).spec_len() ==> final(self).spec_cursor() == old(
                self,
            ).spec_cursor() + 1,
            old(self).spec_cursor() >= old(self).spec_len() ==> final(self).spec_cursor() == old(
                self,
            ).spec_cursor(),
    {
        if self.cursor < self.length {
            self.cursor = self.cursor + 1;
            let at_newline = match self.peek() {
                Some(c) => c == '\n',
                None => false,
            };
            if at_newline {
                if self.line < usize::MAX {
                    self.line = self.line + 1;
                }
                self.column = 0;
            } else {
                if self.column < usize::MAX {
                    self.column = self.column + 1;
                }
            }
        }
    }

    /// Advances the cursor past any whitespace.
    fn skip_whitespace(&mut self)
        requires
            old(self).wf(),
        ensures
            final(self).wf(),
            final(self).spec_source() == old(self).spec_source(),
            old(self).spec_cursor() <= final(self).spec_cursor(),
            final(self).spec_cursor() == final(self).spec_len() || !is_whitespace_spec(
                final(self).spec_source()[final(self).spec_cursor()],
            ),
            forall|j: int|
                old(self).spec_cursor() <= j < final(self).spec_cursor()
                    ==> is_whitespace_spec(final(self).spec_source()[j]),
    {
        loop
            invariant
                self.wf(),
                self.spec_source() == old(self).spec_source(),
                old(self).spec_cursor() <= self.spec_cursor(),
                forall|j: int|
                    old(self).spec_cursor() <= j < self.spec_cursor() ==> is_whitespace_spec(
                        self.spec_source()[j],
                    ),
            ensures
                self.wf(),
                self.spec_source() == old(self).spec_source(),
                old(self).spec_cursor() <= self.spec_cursor(),
                self.spec_cursor() == self.spec_len() || !is_whitespace_spec(
                    self.spec_source()[self.spec_cursor()],
                ),
                forall|j: int|
                    old(self).spec_cursor() <= j < self.spec_cursor() ==> is_whitespace_spec(
                        self.spec_source()[j],
                    ),
            decreases self.spec_len() - self.spec_cursor(),
        {
            match self.curr() {
                Some(c) => {
                    if is_whitespace(c) {
                        self.bump();
                    } else {
                        break ;
                    }
                },
                None => {
                    break ;
                },
            }
        }
    }

    /// Reads a word starting at the cursor: a keyword, an identifier, or a
    /// lone underscore.
    fn read_word(&mut self) -> (r: (&'a str, TokenKind))
        requires
            old(self).wf(),
            old(self).spec_cursor() < old(self).spec_len(),
        ensures
            final(self).wf(),
            final(self).spec_source() == old(self).spec_source(),
            old(self).spec_cursor() <= final(self).spec_cursor() < final(self).spec_len(),
            r.1 == word_kind(r.0@) || r.1 == TokenKind::Underscore,
    {
        let start = self.cursor;
        let lone_underscore = match self.curr() {
            Some(c) => {
                if c == '_' {
                    match self.peek() {
                        None => true,
                        Some(p) => is_whitespace(p),
                    }
                } else {
                    false
                }
            },
            None => false,
        };
        if lone_underscore {
            return (self.source.substring_char(start, start + 1), TokenKind::Underscore);
        }
        loop
            invariant
                self.wf(),
                self.spec_source() == old(self).spec_source(),
                start <= self.spec_cursor() < self.spec_len(),
            ensures
                self.wf(),
                self.spec_source() == old(self).spec_source(),
                start <= self.spec_cursor() < self.spec_len(),
            decreases self.spec_len() - self.spec_cursor(),
        {
            match self.peek() {
                Some(c) => {
                    if is_alpha(c) || is_digit(c) || c == '_' {
                        self.bump();
                    } else {
                        break ;
                    }
                },
                None => {
                    break ;
                },
            }
        }
        let word = self.source.substring_char(start, self.cursor + 1);
        let kind = keyword_kind(word);
        (word, kind)
    }

    /// Reads a number starting at the cursor: `Float` when it holds a full
    /// stop, `Int` otherwise.
    fn read_number(&mut self) -> (r: (&'a str, TokenKind))
        requires
            old(self).wf(),
            old(self).spec_cursor() < old(self).spec_len(),
        ensures
            final(self).wf(),
            final(self).spec_source() == old(self).spec_source(),
            old(self).spec_cursor() <= final(self).spec_cursor() < final(self).spec_len(),
            (r.1 == TokenKind::Float || r.1 == TokenKind::Int),
            r.1 == TokenKind::Float <==> has_dot(r.0@),
    {
        let start = self.cursor;
        loop
            invariant
                self.wf(),
                self.spec_source() == old(self).spec_source(),
                start <= self.spec_cursor() < self.spec_len(),
            ensures
                self.wf(),
                self.spec_source() == old(self).spec_source(),
                start <= self.spec_cursor() < self.spec_len(),
            decreases self.spec_len() - self.spec_cursor(),
        {
            match self.peek() {
                Some(c) => {
                    if is_digit(c) || c == '.' {
                        self.bump();
                    } else {
                        break ;
                    }
                },
                None => {
                    break ;
                },
            }
        }
        let number_str = self.source.substring_char(start, self.cursor + 1);
        let kind = if contains_dot(number_str) {
            TokenKind::Float
        } else {
            TokenKind::Int
        };
        (number_str, kind)
    }

    /// Reads a character literal starting at the opening quote under the
    /// cursor; anything malformed is returned whole as `Unknown`.
    fn read_char(&mut self) -> (r: (&'a str, TokenKind))
        requires
            old(self).wf(),
            old(self).spec_cursor() < old(self).spec_len(),
        ensures
            final(self).wf(),
            final(self).spec_source() == old(self).spec_source(),
            old(self).spec_cursor() <= final(self).spec_cursor(),
    {
        let start = self.cursor;
        self.bump();
        if self.cursor >= self.length {
            return (self.source.substring_char(start, self.length), TokenKind::Unknown);
        }
        let ch = self.source.substring_char(self.cursor, self.cursor + 1);
        self.bump();
        let closing = match self.curr() {
            Some(c) => c == '\'',
            None => false,
        };
        if closing {
            self.bump();
            (ch, TokenKind::Char)
        } else {
            let end = if self.cursor < self.length {
                self.cursor + 1
            } else {
                self.length
            };
            (self.source.substring_char(start, end), TokenKind::Unknown)
        }
    }

    /// Reads a string literal after the opening double quote under the
    /// cursor; a newline or the end of the source before the closing quote
    /// yields `UntermDoubleQuote`.
    fn read_string(&mut self) -> (r: (&'a str, TokenKind))
        requires
            old(self).wf(),
            old(self).spec_cursor() < old(self).spec_len(),
        ensures
            final(self).wf(),
            final(self).spec_source() == old(self).spec_source(),
            old(self).spec_cursor() <= final(self).spec_cursor(),
    {
        self.bump();
        let start = self.cursor;
        let mut closed = false;
        loop
            invariant
                self.wf(),
                self.spec_source() == old(self).spec_source(),
                old(self).spec_cursor() <= self.spec_cursor(),
                start <= self.spec_cursor() <= self.spec_len(),
            ensures
                self.wf(),
                self.spec_source() == old(self).spec_source(),
                old(self).spec_cursor() <= self.spec_cursor(),
                start <= self.spec_cursor() <= self.spec_len(),
            decreases self.spec_len() - self.spec_cursor(),
        {
            match self.peek() {
                Some(ch) => {
                    self.bump();
                    if ch == '\n' {
                        let end = if self.cursor < self.length {
                            self.cursor + 1
                        } else {
                            self.length
                        };
                        return (
                            self.source.substring_char(start, end),
                            TokenKind::UntermDoubleQuote,
                        );
                    }
                    if ch == '"' {
                        closed = true;
                        break ;
                    }
                },
                None => {
                    break ;
                },
            }
        }
        if !closed {
            let end = if self.cursor < self.length {
                self.cursor + 1
            } else {
                self.length
            };
            return (self.source.substring_char(start, end), TokenKind::UntermDoubleQuote);
        }
        (self.source.substring_char(start, self.cursor), TokenKind::Str)
    }

    /// Reads an operator or punctuation token starting at the cursor.
    fn read_operator(&mut self) -> (r: (&'a str, TokenKind))
        requires
            old(self).wf(),
            old(self).spec_cursor() < old(self).spec_len(),
        ensures
            final(self).wf(),
            final(self).spec_source() == old(self).spec_source(),
            old(self).spec_cursor() <= final(self).spec_cursor() < final(self).spec_len(),
    {
        let start = self.cursor;
        let kind = match self.curr() {
            Some(curr) => {
                if curr == '+' {
                    if self.peek_is('=') {
                        self.bump();
                        TokenKind::PlusAssign
                    } else {
                        TokenKind::Plus
                    }
                } else if curr == '=' {
                    if self.peek_is('>') {
                        self.bump();
                        TokenKind::DoubleArrow
                    } else if self.peek_is('=') {
                        self.bump();
                        TokenKind::Equal
                    } else {
                        TokenKind::Assign
                    }
                } else if curr == '-' {
                    if self.peek_is('>') {
                        self.bump();
                        TokenKind::Arrow
                    } else if self.peek_is('=') {
                        self.bump();
                        TokenKind::MinusAssign
                    } else {
                        TokenKind::Minus
                    }
                } else if curr == '/' {
                    if self.peek_is('=') {
                        self.bump();
                        TokenKind::DivideAssign
                    } else {
                        TokenKind::Divide
                    }
                } else if curr == '%' {
                    if self.peek_is('=') {
                        self.bump();
                        TokenKind::ModuloAssign
                    } else {
                        TokenKind::Modulo
                    }
                } else if curr == '<' {
                    if self.peek_is('<') {
                        self.bump();
                        if self.peek_is('=') {
                            self.bump();
                            TokenKind::LeftShiftAssign
                        } else {
                            TokenKind::LeftShift
                        }
                    } else if self.peek_is('=') {
                        self.bump();
                        TokenKind::LessEqual
                    } else {
                        TokenKind::LessThan
                    }
                } else if curr == '>' {
                    if self.peek_is('>') {
                        self.bump();
                        if self.peek_is('=') {
                            self.bump();
                            TokenKind::RightShiftAssign
                        } else {
                            TokenKind::RightShift
                        }
                    } else if self.peek_is('=') {
                        self.bump();
                        TokenKind::GreaterEqual
                    } else {
                        TokenKind::GreaterThan
                    }
                } else if curr == '!' {
                    if self.peek_is('=') {
                        self.bump();
                        TokenKind::NotEqual
                    } else {
                        TokenKind::Not
                    }
                } else if curr == '&' {
                    if self.peek_is('&') {
                        self.bump();
                        TokenKind::And
                    } else if self.peek_is('=') {
                        self.bump();
                        TokenKind::BitAndAssign
                    } else {
                        TokenKind::Ampersand
                    }
                } else if curr == '|' {
                    if self.peek_is('|') {
                        self.bump();
                        TokenKind::Or
                    } else if self.peek_is('=') {
                        self.bump();
                        TokenKind::BitOrAssign
                    } else {
                        TokenKind::Pipe
                    }
                } else if curr == '*' {
                    if self.peek_is('*') {
                        self.bump();
                        if self.peek_is('=') {
                            self.bump();
                            TokenKind::PowerAssign
                        } else {
                            TokenKind::Power
                        }
                    } else if self.peek_is('=') {
                        self.bump();
                        TokenKind::MultiplyAssign
                    } else {
                        TokenKind::Multiply
                    }
                } else if curr == '^' {
                    if self.peek_is('=') {
                        self.bump();
                        TokenKind::BitXorAssign
                    } else {
                        TokenKind::Caret
                    }
                } else if curr == ':' {
                    if self.peek_is(':') {
                        self.bump();
                        TokenKind::DoubleColon
                    } else {
                        TokenKind::Colon
                    }
                } else if curr == '~' {
                    TokenKind::Tilde
                } else if curr == ';' {
                    TokenKind::Semicolon
                } else if curr == ',' {
                    TokenKind::Comma
                } else if curr == '.' {
                    TokenKind::Dot
                } else if curr == '(' {
                    TokenKind::OpenParen
                } else if curr == ')' {
                    TokenKind::CloseParen
                } else if curr == '{' {
                    TokenKind::OpenBrace
                } else if curr == '}' {
                    TokenKind::CloseBrace
                } else if curr == '[' {
                    TokenKind::OpenBracket
                } else if curr == ']' {
                    TokenKind::CloseBracket
                } else if curr == '@' {
                    TokenKind::At
                } else if curr == '?' {
                    TokenKind::Question
                } else {
                    TokenKind::Unknown
                }
            },
            None => TokenKind::Unknown,
        };
        let literal = self.source.substring_char(start, self.cursor + 1);
        (literal, kind)
    }

    /// Whether the character after the cursor is `c`.
    fn peek_is(&self, c: char) -> (r: bool)
        requires
            self.wf(),
        ensures
            r ==> self.spec_cursor() + 1 < self.spec_len(),
    {
        match self.peek() {
            Some(p) => p == c,
            None => false,
        }
    }

    /// The next token of the source, or `None` once the source is
    /// exhausted. Each returned token moves the cursor strictly forward.
    pub fn next_token(&mut self) -> (r: Option<Token<'a>>)
        requires
            old(self).wf(),
        ensures
            final(self).wf(),
            final(self).spec_source() == old(self).spec_source(),
            r is Some ==> old(self).spec_cursor() < final(self).spec_cursor(),
            r is None ==> final(self).spec_cursor() == final(self).spec_len(),
            r is None <==> (forall|j: int|
                old(self).spec_cursor() <= j < old(self).spec_len() ==> is_whitespace_spec(
                    old(self).spec_source()[j],
                )),
    {
        self.skip_whitespace();
        let line = self.line;
        let column = self.column;
        let next = match self.curr() {
            Some(curr) => {
                let pair = if is_alpha(curr) || curr == '_' {
                    self.read_word()
                } else if is_digit(curr) {
                    self.read_number()
                } else if curr == '\'' {
                    self.read_char()
                } else if curr == '"' {
                    self.read_string()
                } else {
                    self.read_operator()
                };
                Some(pair)
            },
            None => None,
        };
        self.bump();
        match next {
            Some((literal, kind)) => Some(Token { literal, kind, line, column }),
            None => None,
        }
    }
}

} // verus!
