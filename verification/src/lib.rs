//! A block-structured bump-pointer allocator with line-granularity space
//! recovery, together with the small language front end that sits on top of
//! it: a chunked append-only list, a lexer, an AST arena and a parser.
//!
//! The allocator hands out addresses from fixed-size, self-aligned blocks.
//! Allocation bumps a cursor downward through a block; when the current gap
//! is exhausted, a per-line mark map is scanned for the next run of free
//! lines. Exhausted blocks move to a recyclable pool and are replaced by
//! fresh ones.

pub mod ast;
pub mod bump;
pub mod errors;
pub mod header;
pub mod heap;
pub mod lexer;
pub mod line_map;
pub mod list;
pub mod parser;
pub mod region;
pub mod region_set;
pub mod token;

pub use ast::{Ast, Expr, ExprRef, Operator, Stmt, StmtRef, Type, TypeRef, TypedAst};
pub use bump::BumpBlock;
pub use header::{AllocHeader, AllocObject, AllocTypeId, ArraySize, Mark};
pub use heap::{Heap, SizeClass};
pub use lexer::Lexer;
pub use line_map::BlockMeta;
pub use list::{Iter, List};
pub use region::{AllocError, Block};
pub use region_set::BlockList;
pub use token::{Token, TokenKind};
