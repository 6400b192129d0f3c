//! The tokenizer. One left-to-right pass over the input line: whitespace is
//! skipped, a run of digits with at most one `.` becomes one `Num` token
//! (kept as its source text), each character of `+ - * / ^ ! ( ) =` becomes
//! an `Op` token, a letter followed by letters and digits becomes an `Ident`
//! token, and anything else is a lexical error.
//!
//! The specification `lex_spec` reads the line one character at a time,
//! carrying the token being built; the implementation scans each token
//! greedily and is proved to produce exactly `lex_spec`'s tokens.

use vstd::prelude::*;

use crate::ast::{Error, ErrorV, Token, TokenV, tokens_view};
use vstd::string::StrSliceExecFns;

verus! {

/// ASCII whitespace: space, tab, line feed, form feed, carriage return.
pub open spec fn is_space_c(c: char) -> bool {
    c == ' ' || (c as u32) == 9 || (c as u32) == 10 || (c as u32) == 12 || (c as u32) == 13
}

/// An ASCII decimal digit.
pub open spec fn is_digit_c(c: char) -> bool {
    48 <= (c as u32) && (c as u32) <= 57
}

/// One of the nine operator characters.
pub open spec fn is_op_c(c: char) -> bool {
    c == '+' || c == '-' || c == '*' || c == '/' || c == '^' || c == '!' || c == '(' || c == ')'
        || c == '='
}

/// An ASCII letter.
pub open spec fn is_alpha_c(c: char) -> bool {
    (65 <= (c as u32) && (c as u32) <= 90) || (97 <= (c as u32) && (c as u32) <= 122)
}

/// A letter or a digit: what may continue an identifier.
pub open spec fn is_alnum_c(c: char) -> bool {
    is_alpha_c(c) || is_digit_c(c)
}

fn is_space(c: char) -> (b: bool)
    ensures
        b == is_space_c(c),
{
    let u = c as u32;
    u == 32 || u == 9 || u == 10 || u == 12 || u == 13
}

fn is_digit(c: char) -> (b: bool)
    ensures
        b == is_digit_c(c),
{
    let u = c as u32;
    48 <= u && u <= 57
}

fn is_op(c: char) -> (b: bool)
    ensures
        b == is_op_c(c),
{
    c == '+' || c == '-' || c == '*' || c == '/' || c == '^' || c == '!' || c == '(' || c == ')'
        || c == '='
}

fn is_alpha(c: char) -> (b: bool)
    ensures
        b == is_alpha_c(c),
{
    let u = c as u32;
    (65 <= u && u <= 90) || (97 <= u && u <= 122)
}

fn is_alnum(c: char) -> (b: bool)
    ensures
        b == is_alnum_c(c),
{
    is_alpha(c) || is_digit(c)
}

/// The number of `.` characters in a literal.
pub open spec fn dot_count(cs: Seq<char>) -> int
    decreases cs.len(),
{
    if cs.len() == 0 {
        0
    } else {
        dot_count(cs.drop_last()) + if cs.last() == '.' {
            1int
        } else {
            0int
        }
    }
}

/// The token the scan is in the middle of building, if any.
pub enum PendV {
    Free,
    Num(Seq<char>),
    Ident(Seq<char>),
}

/// Finishing a pending token. A numeric literal with more than one `.` is a
/// lexical error; everything else becomes a token.
pub open spec fn flush_s(toks: Seq<TokenV>, pend: PendV) -> Result<Seq<TokenV>, ErrorV> {
    match pend {
        PendV::Free => Ok(toks),
        PendV::Num(lit) => if dot_count(lit) > 1 {
            Err(ErrorV::MalformedNumber(lit))
        } else {
            Ok(toks.push(TokenV::Num(lit)))
        },
        PendV::Ident(name) => Ok(toks.push(TokenV::Ident(name))),
    }
}

/// Reading the character `c == s[i]` with no token under construction.
pub open spec fn lex_fresh(s: Seq<char>, i: int, toks: Seq<TokenV>, c: char) -> Result<
    Seq<TokenV>,
    ErrorV,
>
    decreases s.len() - i, 0int,
    when 0 <= i < s.len()
{
    if is_space_c(c) {
        lex_from(s, i + 1, toks, PendV::Free)
    } else if is_digit_c(c) {
        lex_from(s, i + 1, toks, PendV::Num(seq![c]))
    } else if is_op_c(c) {
        lex_from(s, i + 1, toks.push(TokenV::Op(c)), PendV::Free)
    } else if is_alpha_c(c) {
        lex_from(s, i + 1, toks, PendV::Ident(seq![c]))
    } else {
        Err(ErrorV::UnexpectedCharacter(c, i))
    }
}

/// The tokens of `s` from position `i` on, given the tokens already produced
/// and the token under construction.
pub open spec fn lex_from(s: Seq<char>, i: int, toks: Seq<TokenV>, pend: PendV) -> Result<
    Seq<TokenV>,
    ErrorV,
>
    decreases s.len() - i, 1int,
    when 0 <= i <= s.len()
{
    if i >= s.len() {
        flush_s(toks, pend)
    } else {
        let c = s[i];
        match pend {
            PendV::Free => lex_fresh(s, i, toks, c),
            PendV::Num(lit) => if is_digit_c(c) || c == '.' {
                lex_from(s, i + 1, toks, PendV::Num(lit.push(c)))
            } else {
                match flush_s(toks, PendV::Num(lit)) {
                    Ok(t2) => lex_fresh(s, i, t2, c),
                    Err(e) => Err(e),
                }
            },
            PendV::Ident(name) => if is_alnum_c(c) {
                lex_from(s, i + 1, toks, PendV::Ident(name.push(c)))
            } else {
                lex_fresh(s, i, toks.push(TokenV::Ident(name)), c)
            },
        }
    }
}

/// The token sequence of a whole line, or its first lexical error.
pub open spec fn lex_spec(s: Seq<char>) -> Result<Seq<TokenV>, ErrorV> {
    lex_from(s, 0, Seq::empty(), PendV::Free)
}

/// Tokenize one input line.
pub fn parse(input: &str) -> (r: Result<Vec<Token>, Error>)
    ensures
        match r {
            Ok(toks) => lex_spec(input@) == Ok::<Seq<TokenV>, ErrorV>(tokens_view(toks@)),
            Err(e) => lex_spec(input@) == Err::<Seq<TokenV>, ErrorV>(e@),
        },
{
    let n = input.unicode_len();
    let mut toks: Vec<Token> = Vec::new();
    let mut i: usize = 0;
    proof {
        assert(tokens_view(toks@) =~= Seq::<TokenV>::empty());
    }
    while i < n
        invariant
            n == input@.len(),
            i <= n,
            lex_spec(input@) == lex_from(input@, i as int, tokens_view(toks@), PendV::Free),
        decreases n - i,
    {
        let ghost s = input@;
        let ghost tv = tokens_view(toks@);
        let c = input.get_char(i);
        proof {
            assert(lex_from(s, i as int, tv, PendV::Free) == lex_fresh(s, i as int, tv, c));
        }
        if is_space(c) {
            proof {
                assert(lex_fresh(s, i as int, tv, c) == lex_from(s, i + 1, tv, PendV::Free));
            }
            i = i + 1;
        } else if is_digit(c) {
            let start = i;
            let mut dots: usize = 0;
            i = i + 1;
            proof {
                assert(lex_fresh(s, start as int, tv, c) == lex_from(
                    s,
                    i as int,
                    tv,
                    PendV::Num(seq![c]),
                ));
                assert(s.subrange(start as int, i as int) =~= seq![c]);
                assert(seq![c].drop_last() =~= Seq::<char>::empty());
                assert(dot_count(Seq::<char>::empty()) == 0);
                assert(seq![c].last() == c);
                assert(('.' as u32) == 46);
                assert(dot_count(seq![c]) == 0);
            }
            while i < n
                invariant
                    n == s.len(),
                    input@ == s,
                    start < i <= n,
                    dots <= i,
                    dots as int == dot_count(s.subrange(start as int, i as int)),
                    lex_spec(s) == lex_from(
                        s,
                        i as int,
                        tv,
                        PendV::Num(s.subrange(start as int, i as int)),
                    ),
                    tv == tokens_view(toks@),
                ensures
                    n == s.len(),
                    start < i <= n,
                    dots as int == dot_count(s.subrange(start as int, i as int)),
                    lex_spec(s) == lex_from(
                        s,
                        i as int,
                        tv,
                        PendV::Num(s.subrange(start as int, i as int)),
                    ),
                    i == n || !(is_digit_c(s[i as int]) || s[i as int] == '.'),
                decreases n - i,
            {
                let c2 = input.get_char(i);
                if is_digit(c2) || c2 == '.' {
                    proof {
                        let lit = s.subrange(start as int, i as int);
                        let lit2 = s.subrange(start as int, i + 1);
                        assert(lit2.drop_last() =~= lit);
                        assert(lit2 =~= lit.push(s[i as int]));
                        assert(lex_from(s, i as int, tv, PendV::Num(lit)) == lex_from(
                            s,
                            i + 1,
                            tv,
                            PendV::Num(lit2),
                        ));
                    }
                    if c2 == '.' {
                        dots = dots + 1;
                    }
                    i = i + 1;
                } else {
                    break ;
                }
            }
            let lit = input.substring_char(start, i).to_owned();
            proof {
                assert(lit@ == s.subrange(start as int, i as int));
            }
            if dots > 1 {
                proof {
                    let litv = s.subrange(start as int, i as int);
                    if i < n {
                        assert(lex_from(s, i as int, tv, PendV::Num(litv)) == Err::<
                            Seq<TokenV>,
                            ErrorV,
                        >(ErrorV::MalformedNumber(litv)));
                    }
                }
                return Err(Error::MalformedNumber(lit));
            }
            proof {
                let litv = s.subrange(start as int, i as int);
                let t2 = tv.push(TokenV::Num(litv));
                assert(flush_s(tv, PendV::Num(litv)) == Ok::<Seq<TokenV>, ErrorV>(t2));
                if i < n {
                    assert(lex_from(s, i as int, tv, PendV::Num(litv)) == lex_fresh(
                        s,
                        i as int,
                        t2,
                        s[i as int],
                    ));
                    assert(lex_fresh(s, i as int, t2, s[i as int]) == lex_from(
                        s,
                        i as int,
                        t2,
                        PendV::Free,
                    ));
                }
                assert(tokens_view(toks@.push(Token::Num(lit))) =~= t2);
            }
            toks.push(Token::Num(lit));
        } else if is_op(c) {
            proof {
                assert(lex_fresh(s, i as int, tv, c) == lex_from(
                    s,
                    i + 1,
                    tv.push(TokenV::Op(c)),
                    PendV::Free,
                ));
                assert(tokens_view(toks@.push(Token::Op(c))) =~= tv.push(TokenV::Op(c)));
            }
            toks.push(Token::Op(c));
            i = i + 1;
        } else if is_alpha(c) {
            let start = i;
            i = i + 1;
            proof {
                assert(lex_fresh(s, start as int, tv, c) == lex_from(
                    s,
                    i as int,
                    tv,
                    PendV::Ident(seq![c]),
                ));
                assert(s.subrange(start as int, i as int) =~= seq![c]);
            }
            while i < n
                invariant
                    n == s.len(),
                    input@ == s,
                    start < i <= n,
                    lex_spec(s) == lex_from(
                        s,
                        i as int,
                        tv,
                        PendV::Ident(s.subrange(start as int, i as int)),
                    ),
                    tv == tokens_view(toks@),
                ensures
                    n == s.len(),
                    start < i <= n,
                    lex_spec(s) == lex_from(
                        s,
                        i as int,
                        tv,
                        PendV::Ident(s.subrange(start as int, i as int)),
                    ),
                    i == n || !is_alnum_c(s[i as int]),
                decreases n - i,
            {
                let c2 = input.get_char(i);
                if is_alnum(c2) {
                    proof {
                        let name = s.subrange(start as int, i as int);
                        let name2 = s.subrange(start as int, i + 1);
                        assert(name2 =~= name.push(s[i as int]));
                        assert(lex_from(s, i as int, tv, PendV::Ident(name)) == lex_from(
                            s,
                            i + 1,
                            tv,
                            PendV::Ident(name2),
                        ));
                    }
                    i = i + 1;
                } else {
                    break ;
                }
            }
            let name = input.substring_char(start, i).to_owned();
            proof {
                assert(name@ == s.subrange(start as int, i as int));
                let namev = s.subrange(start as int, i as int);
                let t2 = tv.push(TokenV::Ident(namev));
                if i < n {
                    assert(lex_from(s, i as int, tv, PendV::Ident(namev)) == lex_fresh(
                        s,
                        i as int,
                        t2,
                        s[i as int],
                    ));
                    assert(lex_fresh(s, i as int, t2, s[i as int]) == lex_from(
                        s,
                        i as int,
                        t2,
                        PendV::Free,
                    ));
                } else {
                    assert(lex_from(s, i as int, tv, PendV::Ident(namev)) == Ok::<
                        Seq<TokenV>,
                        ErrorV,
                    >(t2));
                }
                assert(tokens_view(toks@.push(Token::Ident(name))) =~= t2);
            }
            toks.push(Token::Ident(name));
        } else {
            return Err(Error::UnexpectedCharacter(c, i));
        }
    }
    Ok(toks)
}

} // verus!
