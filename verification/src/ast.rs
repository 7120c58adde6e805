//! The syntax tree, stored as an arena.
//!
//! Expressions and statements live in flat vectors; [`ExprRef`] and
//! [`StmtRef`] are indices into them. Nodes refer to their children through
//! those references, so the tree itself is append-only and never moves a
//! node once added.

use vstd::prelude::*;

verus! {

/// Reference to an expression held by an [`Ast`].
#[derive(Debug, Clone, Copy, PartialEq, Eq, Hash, Structural)]
pub struct ExprRef(usize);

/// Reference to a statement held by an [`Ast`].
#[derive(Debug, Clone, Copy, PartialEq, Eq, Hash, Structural)]
pub struct StmtRef(usize);

/// Mathematical contents of an [`Ast`]: the expression and statement
/// arenas.
pub struct AstView<'a> {
    pub exprs: Seq<Expr<'a>>,
    pub stmts: Seq<Stmt>,
}

/// The arena holding a parsed program.
#[derive(Debug)]
pub struct Ast<'a> {
    exprs: Vec<Expr<'a>>,
    stmts: Vec<Stmt>,
}

/// An expression node.
#[derive(Debug)]
pub enum Expr<'a> {
    Unit,
    Dash,
    Int(&'a str),
    Float(&'a str),
    Bool(&'a str),
    Char(&'a str),
    Str(&'a str),
    Ident(&'a str),
    Array(&'a str),
    Prefix { operator: Operator, operand: ExprRef },
    Infix { operator: Operator, left: ExprRef, right: ExprRef },
    If { condition: ExprRef, consequent: ExprRef, alternative: Option<ExprRef> },
    Match { matched: ExprRef, arms: Vec<(ExprRef, Vec<StmtRef>)> },
    Function { args: Vec<ExprRef>, body: Vec<StmtRef> },
    Tuple,
    Block,
    Path,
    Index,
    Field,
    Closure,
    Method,
    Range,
    Macro,
}

/// A statement node.
#[derive(Debug)]
pub enum Stmt {
    Binding { ident: ExprRef, value: ExprRef },
    Return { value: ExprRef },
    Loop { expr: ExprRef, body: Vec<StmtRef> },
    For { expr: ExprRef, body: Vec<StmtRef> },
    While { expr: ExprRef, body: Vec<StmtRef> },
    Call { function: ExprRef, args: Vec<ExprRef> },
    Scope { body: Vec<StmtRef> },
    Expr(ExprRef),
    Spawn(Vec<StmtRef>),
}

/// A unary or binary operator.
#[derive(Debug, Clone, Copy, PartialEq, Eq, Structural)]
pub enum Operator {
    Plus,
    Minus,
    Multiply,
    Divide,
    Modulo,
    Power,
    Equal,
    NotEqual,
    LessThan,
    GreaterThan,
    LessEqual,
    GreaterEqual,
    And,
    Or,
    Not,
}

/// Reference to a type held by a [`TypedAst`].
#[derive(Debug, Clone, Copy, PartialEq, Eq, Structural)]
pub struct TypeRef(usize);

/// A type in the language.
#[derive(Debug)]
pub enum Type<'a> {
    Unit,
    Bool,
    Int,
    Float,
    Char,
    String,
    Tuple(Vec<TypeRef>),
    Function(TypeRef, TypeRef),
    Custom(&'a str),
}

impl<'a> View for Ast<'a> {
    type V = AstView<'a>;

    closed spec fn view(&self) -> AstView<'a> {
        AstView { exprs: self.exprs@, stmts: self.stmts@ }
    }
}

impl ExprRef {
    /// The index into the expression arena.
    pub closed spec fn spec_index(&self) -> int {
        self.0 as int
    }
}

impl StmtRef {
    /// The index into the statement arena.
    pub closed spec fn spec_index(&self) -> int {
        self.0 as int
    }
}

impl<'a> Ast<'a> {
    /// An empty arena.
    pub fn new() -> (r: Ast<'a>)
        ensures
            r@.exprs == Seq::<Expr<'a>>::empty(),
            r@.stmts == Seq::<Stmt>::empty(),
    {
        let r = Ast { exprs: Vec::new(), stmts: Vec::new() };
        proof {
            assert(r@.exprs =~= Seq::<Expr<'a>>::empty());
            assert(r@.stmts =~= Seq::<Stmt>::empty());
        }
        r
    }

    /// Adds an expression and returns its reference.
    pub fn add_expr(&mut self, expr: Expr<'a>) -> (r: ExprRef)
        ensures
            final(self)@.exprs == old(self)@.exprs.push(expr),
            final(self)@.stmts == old(self)@.stmts,
            r.spec_index() == old(self)@.exprs.len(),
    {
        let idx = self.exprs.len();
        self.exprs.push(expr);
        ExprRef(idx)
    }

    /// Adds a statement and returns its reference.
    pub fn add_stmt(&mut self, stmt: Stmt) -> (r: StmtRef)
        ensures
            final(self)@.stmts == old(self)@.stmts.push(stmt),
            final(self)@.exprs == old(self)@.exprs,
            r.spec_index() == old(self)@.stmts.len(),
    {
        let idx = self.stmts.len();
        self.stmts.push(stmt);
        StmtRef(idx)
    }

    /// The expression a reference points at, or `None` for a reference the
    /// arena never handed out.
    pub fn get_expr(&self, expr_ref: ExprRef) -> (r: Option<&Expr<'a>>)
        ensures
            match r {
                Some(e) => expr_ref.spec_index() < self@.exprs.len() && *e == self@.exprs[
                    expr_ref.spec_index()
                ],
                None => expr_ref.spec_index() >= self@.exprs.len(),
            },
    {
        if expr_ref.0 < self.exprs.len() {
            Some(&self.exprs[expr_ref.0])
        } else {
            None
        }
    }

    /// The statement a reference points at, or `None` for a reference the
    /// arena never handed out.
    pub fn get_stmt(&self, stmt_ref: StmtRef) -> (r: Option<&Stmt>)
        ensures
            match r {
                Some(s) => stmt_ref.spec_index() < self@.stmts.len() && *s == self@.stmts[
                    stmt_ref.spec_index()
                ],
                None => stmt_ref.spec_index() >= self@.stmts.len(),
            },
    {
        if stmt_ref.0 < self.stmts.len() {
            Some(&self.stmts[stmt_ref.0])
        } else {
            None
        }
    }

    /// The statement arena, in the order the statements were added.
    pub fn stmts(&self) -> (r: &Vec<Stmt>)
        ensures
            r@ == self@.stmts,
    {
        &self.stmts
    }
}

impl<'a> Default for Ast<'a> {
    /// An empty arena.
    fn default() -> (r: Self)
        ensures
            r@.exprs == Seq::<Expr<'a>>::empty(),
            r@.stmts == Seq::<Stmt>::empty(),
    {
        Ast::new()
    }
}

/// The type of a literal expression, or `None` for an expression whose type
/// needs inference beyond literals.
pub open spec fn literal_type<'a>(e: Expr<'a>) -> Option<Type<'a>> {
    match e {
        Expr::Unit => Some(Type::Unit),
        Expr::Int(_) => Some(Type::Int),
        Expr::Float(_) => Some(Type::Float),
        Expr::Bool(_) => Some(Type::Bool),
        Expr::Char(_) => Some(Type::Char),
        Expr::Str(_) => Some(Type::String),
        _ => None,
    }
}

/// An [`Ast`] together with the types assigned to its expressions.
#[derive(Debug)]
pub struct TypedAst<'a> {
    ast: Ast<'a>,
    expr_types: Vec<Option<Type<'a>>>,
}

impl<'a> TypedAst<'a> {
    /// Wraps an arena with no types assigned yet.
    pub fn new(ast: Ast<'a>) -> (r: TypedAst<'a>)
        ensures
            r.spec_ast() == ast@,
            r.spec_types() == Seq::<Option<Type<'a>>>::empty(),
    {
        let r = TypedAst { ast, expr_types: Vec::new() };
        proof {
            assert(r.spec_types() =~= Seq::<Option<Type<'a>>>::empty());
        }
        r
    }

    /// The underlying arena.
    pub closed spec fn spec_ast(&self) -> AstView<'a> {
        self.ast@
    }

    /// The assigned types, one slot per typed expression.
    pub closed spec fn spec_types(&self) -> Seq<Option<Type<'a>>> {
        self.expr_types@
    }

    /// The type assigned to an expression, or `None` when it has none.
    pub fn get_type(&self, expr_ref: ExprRef) -> (r: Option<&Type<'a>>)
        ensures
            match r {
                Some(t) => expr_ref.spec_index() < self.spec_types().len() && (self.spec_types()[
                    expr_ref.spec_index()
                ] matches Some(t2) && *t == t2),
                None => expr_ref.spec_index() >= self.spec_types().len() || self.spec_types()[
                    expr_ref.spec_index()
                ] is None,
            },
    {
        if expr_ref.0 < self.expr_types.len() {
            self.expr_types[expr_ref.0].as_ref()
        } else {
            None
        }
    }

    /// Assigns each literal expression its type, leaving every other
    /// expression untyped.
    pub fn infer_types(&mut self) -> (r: Result<(), ()>)
        ensures
            r is Ok,
            final(self).spec_ast() == old(self).spec_ast(),
            final(self).spec_types().len() == final(self).spec_ast().exprs.len(),
            forall|i: int|
                0 <= i < final(self).spec_types().len() ==> final(self).spec_types()[i]
                    == literal_type(final(self).spec_ast().exprs[i]),
    {
        let mut types: Vec<Option<Type<'a>>> = Vec::new();
        let total = self.ast.exprs.len();
        let mut i: usize = 0;
        while i < total
            invariant
                i <= total,
                total == self.ast@.exprs.len(),
                types@.len() == i,
                forall|j: int| 0 <= j < i ==> types@[j] == literal_type(self.ast@.exprs[j]),
            decreases total - i,
        {
            let t: Option<Type<'a>> = match &self.ast.exprs[i] {
                Expr::Unit => Some(Type::Unit),
                Expr::Int(_) => Some(Type::Int),
                Expr::Float(_) => Some(Type::Float),
                Expr::Bool(_) => Some(Type::Bool),
                Expr::Char(_) => Some(Type::Char),
                Expr::Str(_) => Some(Type::String),
                _ => None,
            };
            types.push(t);
            i = i + 1;
        }
        self.expr_types = types;
        Ok(())
    }
}

} // verus!
