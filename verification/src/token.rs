//! The tokens of schema text.

use vstd::prelude::*;
use vstd::string::*;

verus! {

/// One token of a schema: a word, the value of a string literal, or a mark.
#[derive(Debug)]
pub enum Token {
    /// An identifier, by its bytes.
    Ident(Vec<u8>),
    /// A string literal, by the bytes between its quotes.
    Str(Vec<u8>),
    /// `:`
    Colon,
    /// `,`
    Comma,
    /// `=`
    Assign,
    /// `(`
    Open,
    /// `)`
    Close,
}

/// What a token is, as a value.
pub enum Tok {
    Ident(Seq<u8>),
    Str(Seq<u8>),
    Colon,
    Comma,
    Assign,
    Open,
    Close,
}

impl View for Token {
    type V = Tok;

    open spec fn view(&self) -> Tok {
        match *self {
            Token::Ident(bytes) => Tok::Ident(bytes@),
            Token::Str(bytes) => Tok::Str(bytes@),
            Token::Colon => Tok::Colon,
            Token::Comma => Tok::Comma,
            Token::Assign => Tok::Assign,
            Token::Open => Tok::Open,
            Token::Close => Tok::Close,
        }
    }
}

impl DeepView for Token {
    type V = Tok;

    open spec fn deep_view(&self) -> Tok {
        self@
    }
}

impl Tok {
    /// Whether the token is the given word.
    pub open spec fn is_word(self, word: &str) -> bool {
        self == Tok::Ident(word.spec_bytes())
    }
}

impl Token {
    /// An identifier token that spells `word`.
    pub fn ident(word: &str) -> (r: Token)
        ensures
            r@ == Tok::Ident(word.spec_bytes()),
    {
        Token::Ident(word.as_bytes_vec())
    }

    /// A string literal token whose value is `value`.
    pub fn string(value: &str) -> (r: Token)
        ensures
            r@ == Tok::Str(value.spec_bytes()),
    {
        Token::Str(value.as_bytes_vec())
    }

    /// Whether the token is the given word.
    pub fn is_word(&self, word: &str) -> (r: bool)
        ensures
            r == self@.is_word(word),
    {
        match self {
            Token::Ident(bytes) => crate::text::is_word(bytes.as_slice(), word),
            _ => false,
        }
    }

    /// Whether the token is `,`.
    pub fn is_comma(&self) -> (r: bool)
        ensures
            r == (self@ == Tok::Comma),
    {
        match self {
            Token::Comma => true,
            _ => false,
        }
    }

    /// Whether the token is `:`.
    pub fn is_colon(&self) -> (r: bool)
        ensures
            r == (self@ == Tok::Colon),
    {
        match self {
            Token::Colon => true,
            _ => false,
        }
    }

    /// Whether the token is `=`.
    pub fn is_assign(&self) -> (r: bool)
        ensures
            r == (self@ == Tok::Assign),
    {
        match self {
            Token::Assign => true,
            _ => false,
        }
    }

    /// Whether the token is `(`.
    pub fn is_open(&self) -> (r: bool)
        ensures
            r == (self@ == Tok::Open),
    {
        match self {
            Token::Open => true,
            _ => false,
        }
    }

    /// Whether the token is `)`.
    pub fn is_close(&self) -> (r: bool)
        ensures
            r == (self@ == Tok::Close),
    {
        match self {
            Token::Close => true,
            _ => false,
        }
    }
}

} // verus!
