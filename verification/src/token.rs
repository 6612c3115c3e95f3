use vstd::prelude::*;

verus! {

/// One lexed token: its type tag and the slice of source text it covers.
/// The lexer that produces these from raw text lives outside the library;
/// the parser consumes them.
#[derive(Debug, Clone, Copy, PartialEq)]
pub struct Token<'a, T> {
    pub token_type: T,
    pub text: &'a str,
}

} // verus!
