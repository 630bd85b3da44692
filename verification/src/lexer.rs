//! Splits schema text into tokens.
//!
//! Words are made of ASCII letters, digits and `_`, and start with no digit.
//! A string literal stands between double quotes and holds neither a double
//! quote nor a backslash. The marks are `:`, `,`, `=`, `(` and `)`. Blanks,
//! tabs and line ends part tokens and mean nothing else.

use vstd::prelude::*;
use vstd::string::*;
use crate::error::{ErrorModel, SchemaError};
use crate::token::{Tok, Token};

verus! {

/// Whether a byte parts tokens.
pub open spec fn is_space(b: u8) -> bool {
    b == 0x20 || b == 0x09 || b == 0x0a || b == 0x0d
}

/// Whether a byte may start a word.
pub open spec fn starts_word(b: u8) -> bool {
    (0x61 <= b <= 0x7a) || (0x41 <= b <= 0x5a) || b == 0x5f
}

/// Whether a byte may go on a word.
pub open spec fn in_word(b: u8) -> bool {
    starts_word(b) || (0x30 <= b <= 0x39)
}

/// The mark that a byte is, if it is one.
pub open spec fn mark(b: u8) -> Option<Tok> {
    if b == 0x3a {
        Some(Tok::Colon)
    } else if b == 0x2c {
        Some(Tok::Comma)
    } else if b == 0x3d {
        Some(Tok::Assign)
    } else if b == 0x28 {
        Some(Tok::Open)
    } else if b == 0x29 {
        Some(Tok::Close)
    } else {
        None
    }
}

/// The number of bytes from `pos` on that go on a word.
pub open spec fn word_len(s: Seq<u8>, pos: int) -> nat
    decreases s.len() - pos,
{
    if 0 <= pos < s.len() && in_word(s[pos]) {
        1 + word_len(s, pos + 1)
    } else {
        0
    }
}

/// The number of bytes from `pos` up to the double quote that closes a
/// string literal; none where the text ends or a backslash comes first.
pub open spec fn literal_len(s: Seq<u8>, pos: int) -> Option<nat>
    decreases s.len() - pos,
{
    if pos < 0 || pos >= s.len() {
        None
    } else if s[pos] == 0x22 {
        Some(0)
    } else if s[pos] == 0x5c {
        None
    } else {
        match literal_len(s, pos + 1) {
            Some(n) => Some(n + 1),
            None => None,
        }
    }
}

/// A token before the tokens that follow it.
pub open spec fn then_tokens(first: Tok, rest: Result<Seq<Tok>, ErrorModel>) -> Result<
    Seq<Tok>,
    ErrorModel,
> {
    match rest {
        Ok(tokens) => Ok(seq![first] + tokens),
        Err(e) => Err(e),
    }
}

/// A word ends within the text.
pub proof fn lemma_word_within(s: Seq<u8>, pos: int)
    requires
        0 <= pos <= s.len(),
    ensures
        pos + word_len(s, pos) <= s.len(),
    decreases s.len() - pos,
{
    if pos < s.len() && in_word(s[pos]) {
        lemma_word_within(s, pos + 1);
    }
}

/// A string literal that is closed is closed within the text.
pub proof fn lemma_literal_within(s: Seq<u8>, pos: int)
    requires
        0 <= pos <= s.len(),
    ensures
        literal_len(s, pos) matches Some(n) ==> pos + n < s.len(),
    decreases s.len() - pos,
{
    if pos < s.len() && s[pos] != 0x22 && s[pos] != 0x5c {
        lemma_literal_within(s, pos + 1);
    }
}

/// The tokens of the text from `pos` on.
pub open spec fn tokens_from(s: Seq<u8>, pos: int) -> Result<Seq<Tok>, ErrorModel>
    decreases s.len() - pos,
    via tokens_from_ends
{
    if pos < 0 || pos >= s.len() {
        Ok(Seq::empty())
    } else if is_space(s[pos]) {
        tokens_from(s, pos + 1)
    } else if mark(s[pos]) is Some {
        then_tokens(mark(s[pos]).unwrap(), tokens_from(s, pos + 1))
    } else if starts_word(s[pos]) {
        let end = pos + 1 + word_len(s, pos + 1);
        then_tokens(Tok::Ident(s.subrange(pos, end)), tokens_from(s, end))
    } else if s[pos] == 0x22 {
        match literal_len(s, pos + 1) {
            Some(n) => then_tokens(
                Tok::Str(s.subrange(pos + 1, pos + 1 + n)),
                tokens_from(s, pos + 1 + n + 1),
            ),
            None => Err(ErrorModel::BadStringLiteral),
        }
    } else {
        Err(ErrorModel::UnexpectedByte)
    }
}

#[via_fn]
proof fn tokens_from_ends(s: Seq<u8>, pos: int) {
    if 0 <= pos < s.len() {
        lemma_word_within(s, pos + 1);
        lemma_literal_within(s, pos + 1);
    }
}

/// The tokens of a schema text.
pub open spec fn tokens_of(s: Seq<u8>) -> Result<Seq<Tok>, ErrorModel> {
    tokens_from(s, 0)
}

fn mark_of(b: u8) -> (r: Option<Token>)
    ensures
        match r {
            Some(t) => mark(b) == Some(t@),
            None => mark(b) is None,
        },
{
    if b == 0x3a {
        Some(Token::Colon)
    } else if b == 0x2c {
        Some(Token::Comma)
    } else if b == 0x3d {
        Some(Token::Assign)
    } else if b == 0x28 {
        Some(Token::Open)
    } else if b == 0x29 {
        Some(Token::Close)
    } else {
        None
    }
}

fn goes_on_word(b: u8) -> (r: bool)
    ensures
        r == in_word(b),
{
    (0x61 <= b && b <= 0x7a) || (0x41 <= b && b <= 0x5a) || b == 0x5f || (0x30 <= b && b <= 0x39)
}

fn copy_range(s: &[u8], from: usize, to: usize) -> (r: Vec<u8>)
    requires
        from <= to <= s.len(),
    ensures
        r@ == s@.subrange(from as int, to as int),
{
    let mut out: Vec<u8> = Vec::new();
    let mut k: usize = from;
    while k < to
        invariant
            from <= k <= to,
            to <= s.len(),
            out@ == s@.subrange(from as int, k as int),
        decreases to - k,
    {
        out.push(s[k]);
        k = k + 1;
    }
    out
}

/// Where the word that goes on at `pos` ends.
fn word_end(s: &[u8], pos: usize) -> (end: usize)
    requires
        pos <= s.len(),
    ensures
        end == pos + word_len(s@, pos as int),
        end <= s.len(),
{
    let mut k: usize = pos;
    while k < s.len() && goes_on_word(s[k])
        invariant
            pos <= k <= s.len(),
            word_len(s@, pos as int) == (k - pos) + word_len(s@, k as int),
        decreases s.len() - k,
    {
        k = k + 1;
    }
    k
}

/// Where the double quote stands that closes the literal whose bytes start
/// at `pos`.
fn literal_end(s: &[u8], pos: usize) -> (end: Option<usize>)
    requires
        pos <= s.len(),
    ensures
        match end {
            Some(e) => pos <= e < s.len() && literal_len(s@, pos as int) == Some(
                (e - pos) as nat,
            ),
            None => literal_len(s@, pos as int) is None,
        },
{
    let mut k: usize = pos;
    while k < s.len()
        invariant
            pos <= k <= s.len(),
            literal_len(s@, pos as int) == (match literal_len(s@, k as int) {
                Some(n) => Some((n + (k - pos)) as nat),
                None => None,
            }),
        decreases s.len() - k,
    {
        if s[k] == 0x22 {
            return Some(k);
        }
        if s[k] == 0x5c {
            return None;
        }
        k = k + 1;
    }
    None
}

/// Splits the bytes of a schema text into tokens.
pub fn tokenize_bytes(s: &[u8]) -> (r: Result<Vec<Token>, SchemaError>)
    ensures
        match r {
            Ok(tokens) => tokens_of(s@) == Ok::<Seq<Tok>, ErrorModel>(tokens.deep_view()),
            Err(e) => tokens_of(s@) == Err::<Seq<Tok>, ErrorModel>(e@),
        },
{
    let mut out: Vec<Token> = Vec::new();
    let mut pos: usize = 0;
    while pos < s.len()
        invariant
            pos <= s.len(),
            tokens_of(s@) == (match tokens_from(s@, pos as int) {
                Ok(rest) => Ok(out.deep_view() + rest),
                Err(e) => Err(e),
            }),
        decreases s.len() - pos,
    {
        let b: u8 = s[pos];
        let ghost before = out.deep_view();
        if b == 0x20 || b == 0x09 || b == 0x0a || b == 0x0d {
            pos = pos + 1;
        } else if let Some(token) = mark_of(b) {
            out.push(token);
            proof {
                match tokens_from(s@, pos + 1) {
                    Ok(rest) => {
                        assert(before + (seq![token@] + rest) =~= out.deep_view() + rest);
                    },
                    Err(_) => {},
                }
            }
            pos = pos + 1;
        } else if (0x61 <= b && b <= 0x7a) || (0x41 <= b && b <= 0x5a) || b == 0x5f {
            let end = word_end(s, pos + 1);
            let token = Token::Ident(copy_range(s, pos, end));
            out.push(token);
            proof {
                match tokens_from(s@, end as int) {
                    Ok(rest) => {
                        assert(before + (seq![token@] + rest) =~= out.deep_view() + rest);
                    },
                    Err(_) => {},
                }
            }
            pos = end;
        } else if b == 0x22 {
            match literal_end(s, pos + 1) {
                Some(end) => {
                    let token = Token::Str(copy_range(s, pos + 1, end));
                    out.push(token);
                    proof {
                        match tokens_from(s@, end + 1) {
                            Ok(rest) => {
                                assert(before + (seq![token@] + rest) =~= out.deep_view() + rest);
                            },
                            Err(_) => {},
                        }
                    }
                    pos = end + 1;
                },
                None => {
                    return Err(SchemaError::BadStringLiteral);
                },
            }
        } else {
            return Err(SchemaError::UnexpectedByte);
        }
    }
    Ok(out)
}

/// Splits a schema text into tokens.
pub fn tokenize(text: &str) -> (r: Result<Vec<Token>, SchemaError>)
    ensures
        match r {
            Ok(tokens) => tokens_of(text.spec_bytes()) == Ok::<Seq<Tok>, ErrorModel>(
                tokens.deep_view(),
            ),
            Err(e) => tokens_of(text.spec_bytes()) == Err::<Seq<Tok>, ErrorModel>(e@),
        },
{
    tokenize_bytes(text.as_bytes())
}

} // verus!
