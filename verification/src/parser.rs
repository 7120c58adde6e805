//! The parser: builds an [`Ast`] from a token stream.
//!
//! The parser keeps a two-token window over the lexer. Each statement
//! starts at the current token; constructs the grammar does not cover yet
//! are reported as errors rather than consumed.

use vstd::prelude::*;
use crate::ast::{Ast, Expr, ExprRef, Stmt};
use crate::lexer::Lexer;
use crate::token::{Token, TokenKind};

verus! {

/// A parse error: a message and the token it arose at, if one was left.
#[derive(Debug)]
pub struct Error<'a> {
    pub message: &'static str,
    pub token: Option<Token<'a>>,
}

/// The parser: a lexer plus a two-token lookahead window.
pub struct Parser<'a> {
    lexer: Lexer<'a>,
    curr: Option<Token<'a>>,
    peek: Option<Token<'a>>,
}

impl<'a> Parser<'a> {
    /// The lexer inside is well formed.
    pub closed spec fn wf(&self) -> bool {
        self.lexer.wf()
    }

    /// Work left to consume: the unread source, weighted so that taking a
    /// buffered token or reading one from the lexer both shrink it.
    pub closed spec fn spec_measure(&self) -> int {
        2 * (self.lexer.spec_len() - self.lexer.spec_cursor()) + (if self.curr is Some {
            1int
        } else {
            0int
        }) + (if self.peek is Some {
            1int
        } else {
            0int
        })
    }

    /// A parser over `source`, with the lookahead window filled.
    pub fn new(source: &'a str) -> (r: Parser<'a>)
        ensures
            r.wf(),
    {
        let mut parser = Parser { lexer: Lexer::new(source), curr: None, peek: None };
        parser.bump();
        parser.bump();
        parser
    }

    /// Shifts the window: the peeked token becomes current and the lexer
    /// supplies the next peek.
    fn bump(&mut self)
        requires
            old(self).wf(),
        ensures
            final(self).wf(),
            final(self).spec_measure() <= old(self).spec_measure(),
    {
        self.curr = self.peek.take();
        self.peek = self.lexer.next_token();
    }

    /// Builds an error at the next token, consuming it.
    fn peek_error(&mut self, message: &'static str) -> (r: Error<'a>)
        requires
            old(self).wf(),
        ensures
            final(self).wf(),
            final(self).spec_measure() <= old(self).spec_measure(),
    {
        self.bump();
        Error { message, token: self.curr.take() }
    }

    /// Parses the whole source into an arena of statements.
    pub fn parse(&mut self) -> (r: Result<Ast<'a>, Error<'a>>)
        requires
            old(self).wf(),
        ensures
            final(self).wf(),
    {
        let mut ast = Ast::new();
        loop
            invariant
                self.wf(),
            ensures
                self.wf(),
            decreases self.spec_measure(),
        {
            let start = self.curr.take();
            match start {
                None => {
                    break ;
                },
                Some(token) => {
                    let stmt = match self.parse_stmt(token, &mut ast) {
                        Ok(s) => s,
                        Err(e) => {
                            return Err(e);
                        },
                    };
                    ast.add_stmt(stmt);
                    self.bump();
                },
            }
        }
        Ok(ast)
    }

    /// Parses one statement beginning at `start`.
    fn parse_stmt(&mut self, start: Token<'a>, ast: &mut Ast<'a>) -> (r: Result<Stmt, Error<'a>>)
        requires
            old(self).wf(),
        ensures
            final(self).wf(),
            final(self).spec_measure() <= old(self).spec_measure(),
    {
        match start.kind {
            TokenKind::Ident => self.parse_declaration(start.literal, ast),
            TokenKind::Return => self.parse_return_stmt(ast),
            TokenKind::Loop => Err(Error {
                message: "loop statements are not supported yet",
                token: Some(start),
            }),
            TokenKind::For => Err(Error {
                message: "loop statements are not supported yet",
                token: Some(start),
            }),
            TokenKind::While => Err(Error {
                message: "loop statements are not supported yet",
                token: Some(start),
            }),
            TokenKind::Function => Err(Error {
                message: "function statements are not supported yet",
                token: Some(start),
            }),
            TokenKind::Spawn => Err(Error {
                message: "spawn statements are not supported yet",
                token: Some(start),
            }),
            _ => Err(Error { message: "expected a statement", token: Some(start) }),
        }
    }

    /// Parses what follows an identifier at statement position: a binding,
    /// a type signature, or a bare expression statement.
    fn parse_declaration(&mut self, ident: &'a str, ast: &mut Ast<'a>) -> (r: Result<
        Stmt,
        Error<'a>,
    >)
        requires
            old(self).wf(),
        ensures
            final(self).wf(),
            final(self).spec_measure() <= old(self).spec_measure(),
    {
        let peek_kind = match &self.peek {
            Some(t) => Some(t.kind),
            None => None,
        };
        match peek_kind {
            None => {
                let value = ast.add_expr(Expr::Ident(ident));
                Ok(Stmt::Return { value })
            },
            Some(TokenKind::Assign) => {
                self.bump();
                let value = match self.parse_expr(ast) {
                    Ok(e) => e,
                    Err(e) => {
                        return Err(e);
                    },
                };
                let semicolon = match &self.peek {
                    Some(t) => t.kind == TokenKind::Semicolon,
                    None => false,
                };
                if semicolon {
                    self.bump();
                    let ident_ref = ast.add_expr(Expr::Ident(ident));
                    Ok(Stmt::Binding { ident: ident_ref, value })
                } else {
                    Err(Error { message: "Expected Semicolon", token: self.curr.take() })
                }
            },
            Some(TokenKind::Pipe) => self.parse_type_signature(),
            Some(TokenKind::Semicolon) => {
                self.bump();
                let e = ast.add_expr(Expr::Ident(ident));
                Ok(Stmt::Expr(e))
            },
            Some(_) => Err(self.peek_error("Expected binding or type signature")),
        }
    }

    /// Type signatures are not part of the grammar yet.
    fn parse_type_signature(&mut self) -> (r: Result<Stmt, Error<'a>>)
        requires
            old(self).wf(),
        ensures
            final(self).wf(),
            final(self).spec_measure() <= old(self).spec_measure(),
    {
        self.bump();
        Err(Error { message: "type signatures are not supported yet", token: self.curr.take() })
    }

    /// Parses a return statement after its `return` keyword.
    fn parse_return_stmt(&mut self, ast: &mut Ast<'a>) -> (r: Result<Stmt, Error<'a>>)
        requires
            old(self).wf(),
        ensures
            final(self).wf(),
            final(self).spec_measure() <= old(self).spec_measure(),
    {
        let value = match self.parse_expr(ast) {
            Ok(e) => e,
            Err(e) => {
                return Err(e);
            },
        };
        let semicolon = match &self.peek {
            Some(t) => t.kind == TokenKind::Semicolon,
            None => false,
        };
        if semicolon {
            self.bump();
            Ok(Stmt::Return { value })
        } else {
            Err(Error { message: "Expected Semicolon", token: self.curr.take() })
        }
    }

    /// Parses an expression; what the grammar does not cover yet parses as
    /// the unit expression.
    fn parse_expr(&mut self, ast: &mut Ast<'a>) -> (r: Result<ExprRef, Error<'a>>)
        requires
            old(self).wf(),
        ensures
            final(self).wf(),
            final(self).spec_measure() <= old(self).spec_measure(),
    {
        match self.parse_unary(ast) {
            Ok(e) => Ok(e),
            Err(_) => Ok(ast.add_expr(Expr::Unit)),
        }
    }

    /// Parses a unary expression: for now, a literal or an identifier.
    fn parse_unary(&mut self, ast: &mut Ast<'a>) -> (r: Result<ExprRef, Error<'a>>)
        requires
            old(self).wf(),
        ensures
            final(self).wf(),
            final(self).spec_measure() <= old(self).spec_measure(),
    {
        if self.peek.is_some() {
            self.bump();
            match self.curr.take() {
                Some(tok) => match tok.kind {
                    TokenKind::Str => Ok(ast.add_expr(Expr::Str(tok.literal))),
                    TokenKind::Ident => Ok(ast.add_expr(Expr::Ident(tok.literal))),
                    TokenKind::Int => Ok(ast.add_expr(Expr::Int(tok.literal))),
                    TokenKind::Float => Ok(ast.add_expr(Expr::Float(tok.literal))),
                    TokenKind::Bool => Ok(ast.add_expr(Expr::Bool(tok.literal))),
                    TokenKind::Char => Ok(ast.add_expr(Expr::Char(tok.literal))),
                    _ => Err(Error { message: "expected an expression", token: Some(tok) }),
                },
                None => Err(Error { message: "expected an expression", token: None }),
            }
        } else {
            Err(Error { message: "expected an expression", token: None })
        }
    }
}

} // verus!
