//! The library's error value.

use vstd::prelude::*;
use crate::token::Token;

verus! {

/// An error carrying a message and the token it arose at, if any.
#[derive(Debug)]
pub struct Error<'a>(pub &'static str, pub Option<Token<'a>>);

} // verus!
