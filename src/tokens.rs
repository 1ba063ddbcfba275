//! A flat token model of the annotation syntax handed over by the host parser.
//!
//! Nested groups appear as an `Open` token, their contents and a matching
//! `Close` token. Every token carries the source offset it came from, so that
//! diagnostics can point at it.

use vstd::prelude::*;

verus! {

#[derive(Clone, Copy, Debug, PartialEq, Eq, Structural)]
pub enum Delimiter {
    Parenthesis,
    Bracket,
    Brace,
}

#[derive(Debug)]
pub enum TokenKind {
    /// An identifier or keyword.
    Ident(String),
    /// A string literal, holding its value without quotes.
    Str(String),
    /// Any other literal, as written.
    Literal(String),
    Punct(char),
    Open(Delimiter),
    Close(Delimiter),
}

#[derive(Debug)]
pub struct Token {
    pub kind: TokenKind,
    pub span: u64,
}

impl Token {
    /// A copy of the token.
    pub fn duplicate(&self) -> (r: Token)
        ensures
            r == *self,
    {
        let kind = match &self.kind {
            TokenKind::Ident(s) => TokenKind::Ident(s.clone()),
            TokenKind::Str(s) => TokenKind::Str(s.clone()),
            TokenKind::Literal(s) => TokenKind::Literal(s.clone()),
            TokenKind::Punct(c) => TokenKind::Punct(*c),
            TokenKind::Open(d) => TokenKind::Open(*d),
            TokenKind::Close(d) => TokenKind::Close(*d),
        };
        Token { kind, span: self.span }
    }
}

/// Index of the token that closes the group whose contents start at `i`,
/// scanning with `depth` groups open.
pub open spec fn close_from(s: Seq<Token>, i: int, depth: nat) -> Option<int>
    decreases s.len() - i,
{
    if i < 0 || i >= s.len() {
        None
    } else {
        match s[i].kind {
            TokenKind::Open(_) => close_from(s, i + 1, depth + 1),
            TokenKind::Close(_) => if depth <= 1 {
                Some(i)
            } else {
                close_from(s, i + 1, (depth - 1) as nat)
            },
            _ => close_from(s, i + 1, depth),
        }
    }
}

/// Finds the token that closes the group opened just before `start`.
pub fn find_close(s: &Vec<Token>, start: usize) -> (r: Option<usize>)
    requires
        start >= 1,
    ensures
        match r {
            Some(k) => k < s@.len() && close_from(s@, start as int, 1) == Some(k as int),
            None => close_from(s@, start as int, 1) is None,
        },
{
    if start >= s.len() {
        return None;
    }
    let mut i = start;
    let mut depth: usize = 1;
    while i < s.len()
        invariant
            1 <= start <= i <= s.len(),
            depth >= 1,
            depth <= i - start + 1,
            close_from(s@, start as int, 1) == close_from(s@, i as int, depth as nat),
        decreases s.len() - i,
    {
        match &s[i].kind {
            TokenKind::Open(_) => {
                depth = depth + 1;
            },
            TokenKind::Close(_) => {
                if depth <= 1 {
                    return Some(i);
                }
                depth = depth - 1;
            },
            _ => {},
        }
        i = i + 1;
    }
    None
}

} // verus!
