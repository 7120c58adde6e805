use morph::ast::{Ast, Expr, Stmt, Type, TypedAst};
use morph::parser::Parser;

#[test]
fn parses_a_binding() {
    let mut parser = Parser::new("x = y;");
    let ast = parser.parse().unwrap();
    assert_eq!(ast.stmts().len(), 1);
    match &ast.stmts()[0] {
        Stmt::Binding { ident, value } => {
            assert!(matches!(ast.get_expr(*ident), Some(Expr::Ident("x"))));
            assert!(matches!(ast.get_expr(*value), Some(Expr::Ident("y"))));
        }
        other => panic!("expected a binding, got {:?}", other),
    }
}

#[test]
fn parses_literal_bindings() {
    let mut parser = Parser::new("x = 5;");
    let ast = parser.parse().unwrap();
    assert_eq!(ast.stmts().len(), 1);
    match &ast.stmts()[0] {
        Stmt::Binding { value, .. } => {
            assert!(matches!(ast.get_expr(*value), Some(Expr::Int("5"))));
        }
        other => panic!("expected a binding, got {:?}", other),
    }
}

#[test]
fn parses_expression_statements() {
    let mut parser = Parser::new("x;");
    let ast = parser.parse().unwrap();
    assert_eq!(ast.stmts().len(), 1);
    assert!(matches!(&ast.stmts()[0], Stmt::Expr(_)));
}

#[test]
fn rejects_unsupported_statements() {
    let mut parser = Parser::new("loop { }");
    assert!(parser.parse().is_err());

    let mut parser = Parser::new("+");
    assert!(parser.parse().is_err());
}

#[test]
fn arena_hands_back_what_was_added() {
    let mut ast = Ast::new();
    let e = ast.add_expr(Expr::Int("7"));
    let s = ast.add_stmt(Stmt::Expr(e));
    assert!(matches!(ast.get_expr(e), Some(Expr::Int("7"))));
    assert!(matches!(ast.get_stmt(s), Some(Stmt::Expr(_))));
}

#[test]
fn infers_literal_types() {
    let mut ast = Ast::new();
    let int_ref = ast.add_expr(Expr::Int("1"));
    let bool_ref = ast.add_expr(Expr::Bool("true"));
    let str_ref = ast.add_expr(Expr::Str("hi"));
    let ident_ref = ast.add_expr(Expr::Ident("x"));
    let mut typed = TypedAst::new(ast);
    assert!(typed.get_type(int_ref).is_none());
    assert!(typed.infer_types().is_ok());
    assert!(matches!(typed.get_type(int_ref), Some(Type::Int)));
    assert!(matches!(typed.get_type(bool_ref), Some(Type::Bool)));
    assert!(matches!(typed.get_type(str_ref), Some(Type::String)));
    assert!(typed.get_type(ident_ref).is_none());
}
