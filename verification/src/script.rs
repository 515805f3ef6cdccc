use vstd::prelude::*;

use crate::value::copy_bytes;

verus! {

/// One lexical token of the interpreted language's small statement subset.
pub(crate) enum Token {
    Name(Vec<u8>),
    IntLit(i64),
    StrLit(Vec<u8>),
    LParen,
    RParen,
    Comma,
    Semi,
    Assign,
    EqEq,
    KwLocal,
    KwReturn,
    KwNil,
    KwTrue,
    KwFalse,
}

/// An expression that denotes one value without calling anything.
pub(crate) enum SimpleExpr {
    Nil,
    True,
    False,
    Int(i64),
    Str(Vec<u8>),
    Var(Vec<u8>),
}

/// A simple expression or a raw-equality comparison of two of them.
pub(crate) enum EqExpr {
    Simple(SimpleExpr),
    Eq(SimpleExpr, SimpleExpr),
}

/// A call of a named function on argument expressions.
pub(crate) struct CallExpr {
    pub name: Vec<u8>,
    pub args: Vec<EqExpr>,
}

/// An expression of an expression list: a call expands to several values
/// in the last position.
pub(crate) enum Expr {
    Plain(EqExpr),
    Call(CallExpr),
}

/// One statement.
pub(crate) enum Stat {
    Local(Vec<Vec<u8>>, Vec<Expr>),
    Assign(Vec<Vec<u8>>, Vec<Expr>),
    Return(Vec<Expr>),
    CallStat(CallExpr),
}

fn is_space(b: u8) -> (r: bool)
    ensures
        r == (b == 32 || b == 9 || b == 13 || b == 10),
{
    b == 32 || b == 9 || b == 13 || b == 10
}

fn is_digit(b: u8) -> (r: bool)
    ensures
        r == (48 <= b <= 57),
{
    b >= 48 && b <= 57
}

fn is_name_start(b: u8) -> (r: bool)
    ensures
        r == ((97 <= b <= 122) || (65 <= b <= 90) || b == 95),
{
    (b >= 97 && b <= 122) || (b >= 65 && b <= 90) || b == 95
}

fn is_name_part(b: u8) -> (r: bool)
    ensures
        r == ((97 <= b <= 122) || (65 <= b <= 90) || b == 95 || (48 <= b <= 57)),
{
    is_name_start(b) || is_digit(b)
}

fn keyword_token(name: Vec<u8>) -> (t: Token) {
    let local_kw = ("local").as_bytes_vec();
    let return_kw = ("return").as_bytes_vec();
    let nil_kw = ("nil").as_bytes_vec();
    let true_kw = ("true").as_bytes_vec();
    let false_kw = ("false").as_bytes_vec();
    if crate::value::bytes_eq(&name, &local_kw) {
        Token::KwLocal
    } else if crate::value::bytes_eq(&name, &return_kw) {
        Token::KwReturn
    } else if crate::value::bytes_eq(&name, &nil_kw) {
        Token::KwNil
    } else if crate::value::bytes_eq(&name, &true_kw) {
        Token::KwTrue
    } else if crate::value::bytes_eq(&name, &false_kw) {
        Token::KwFalse
    } else {
        Token::Name(name)
    }
}

/// Splits source text into tokens; `None` when a byte or literal does not
/// belong to the language.
pub(crate) fn lex(src: &[u8]) -> (r: Option<Vec<Token>>) {
    let mut tokens: Vec<Token> = Vec::new();
    let mut i: usize = 0;
    while i < src.len()
        invariant
            i <= src.len(),
        decreases src.len() - i,
    {
        let b = src[i];
        if is_space(b) {
            i += 1;
        } else if is_digit(b) {
            let mut n: i64 = 0;
            let ghost i0 = i;
            while i < src.len() && is_digit(src[i])
                invariant
                    i0 <= i <= src.len(),
                    i0 < src@.len() && 48 <= src@[i0 as int] <= 57,
                    0 <= n <= 922337203685477579i64,
                decreases src.len() - i,
            {
                let d = (src[i] - 48) as i64;
                if n > 92233720368547757i64 {
                    return None;
                }
                n = n * 10 + d;
                i += 1;
            }
            proof {
                assert(i > i0);
            }
            tokens.push(Token::IntLit(n));
        } else if is_name_start(b) {
            let start = i;
            while i < src.len() && is_name_part(src[i])
                invariant
                    start <= i <= src.len(),
                    start < src@.len(),
                    (97 <= src@[start as int] <= 122) || (65 <= src@[start as int] <= 90) || src@[
                        start as int
                    ] == 95,
                decreases src.len() - i,
            {
                i += 1;
            }
            proof {
                assert(i > start);
            }
            let mut name: Vec<u8> = Vec::new();
            let mut j = start;
            while j < i
                invariant
                    start <= j <= i <= src.len(),
                decreases i - j,
            {
                name.push(src[j]);
                j += 1;
            }
            tokens.push(keyword_token(name));
        } else if b == 34 || b == 39 {
            let quote = b;
            i += 1;
            let ghost i1 = i;
            let mut lit: Vec<u8> = Vec::new();
            loop
                invariant
                    i1 <= i <= src.len(),
                decreases src.len() - i,
            {
                if i >= src.len() {
                    return None;
                }
                let c = src[i];
                if c == quote {
                    i += 1;
                    break ;
                }
                lit.push(c);
                i += 1;
            }
            tokens.push(Token::StrLit(lit));
        } else if b == 40 {
            tokens.push(Token::LParen);
            i += 1;
        } else if b == 41 {
            tokens.push(Token::RParen);
            i += 1;
        } else if b == 44 {
            tokens.push(Token::Comma);
            i += 1;
        } else if b == 59 {
            tokens.push(Token::Semi);
            i += 1;
        } else if b == 61 {
            if i + 1 < src.len() && src[i + 1] == 61 {
                tokens.push(Token::EqEq);
                i += 2;
            } else {
                tokens.push(Token::Assign);
                i += 1;
            }
        } else {
            return None;
        }
    }
    Some(tokens)
}

fn copy_name(t: &Token) -> (r: Option<Vec<u8>>) {
    match t {
        Token::Name(n) => Some(copy_bytes(n)),
        _ => None,
    }
}

fn parse_simple(tokens: &Vec<Token>, pos: usize) -> (r: Option<(SimpleExpr, usize)>)
    requires
        pos <= tokens@.len(),
    ensures
        r matches Some(p) ==> pos < p.1 <= tokens@.len(),
{
    if pos >= tokens.len() {
        return None;
    }
    match &tokens[pos] {
        Token::KwNil => Some((SimpleExpr::Nil, pos + 1)),
        Token::KwTrue => Some((SimpleExpr::True, pos + 1)),
        Token::KwFalse => Some((SimpleExpr::False, pos + 1)),
        Token::IntLit(n) => Some((SimpleExpr::Int(*n), pos + 1)),
        Token::StrLit(s) => Some((SimpleExpr::Str(copy_bytes(s)), pos + 1)),
        Token::Name(n) => Some((SimpleExpr::Var(copy_bytes(n)), pos + 1)),
        _ => None,
    }
}

fn parse_eqexpr(tokens: &Vec<Token>, pos: usize) -> (r: Option<(EqExpr, usize)>)
    requires
        pos <= tokens@.len(),
    ensures
        r matches Some(p) ==> pos < p.1 <= tokens@.len(),
{
    let (lhs, mut p) = match parse_simple(tokens, pos) {
        Some(x) => x,
        None => {
            return None;
        },
    };
    if p < tokens.len() {
        let is_eq = match &tokens[p] {
            Token::EqEq => true,
            _ => false,
        };
        if is_eq {
            let (rhs, p2) = match parse_simple(tokens, p + 1) {
                Some(x) => x,
                None => {
                    return None;
                },
            };
            return Some((EqExpr::Eq(lhs, rhs), p2));
        }
    }
    Some((EqExpr::Simple(lhs), p))
}

/// Parses `name ( args )` where the opening parenthesis stands at `pos`.
fn parse_call_after_name(tokens: &Vec<Token>, pos: usize, name: Vec<u8>) -> (r: Option<
    (CallExpr, usize),
>)
    requires
        pos <= tokens@.len(),
    ensures
        r matches Some(p) ==> pos < p.1 <= tokens@.len(),
{
    if pos >= tokens.len() {
        return None;
    }
    match &tokens[pos] {
        Token::LParen => {},
        _ => {
            return None;
        },
    }
    let mut p = pos + 1;
    let mut args: Vec<EqExpr> = Vec::new();
    if p < tokens.len() {
        let closes = match &tokens[p] {
            Token::RParen => true,
            _ => false,
        };
        if closes {
            return Some((CallExpr { name, args }, p + 1));
        }
    }
    loop
        invariant
            pos < p <= tokens@.len(),
        decreases tokens@.len() - p,
    {
        let (a, p2) = match parse_eqexpr(tokens, p) {
            Some(x) => x,
            None => {
                return None;
            },
        };
        args.push(a);
        p = p2;
        if p >= tokens.len() {
            return None;
        }
        match &tokens[p] {
            Token::Comma => {
                p += 1;
                if p >= tokens.len() {
                    return None;
                }
            },
            Token::RParen => {
                return Some((CallExpr { name, args }, p + 1));
            },
            _ => {
                return None;
            },
        }
    }
}

fn parse_expr(tokens: &Vec<Token>, pos: usize) -> (r: Option<(Expr, usize)>)
    requires
        pos <= tokens@.len(),
    ensures
        r matches Some(p) ==> pos < p.1 <= tokens@.len(),
{
    if pos >= tokens.len() {
        return None;
    }
    let name = match &tokens[pos] {
        Token::Name(n) => {
            if pos + 1 < tokens.len() {
                let calls = match &tokens[pos + 1] {
                    Token::LParen => true,
                    _ => false,
                };
                if calls {
                    Some(copy_bytes(n))
                } else {
                    None
                }
            } else {
                None
            }
        },
        _ => None,
    };
    match name {
        Some(n) => {
            match parse_call_after_name(tokens, pos + 1, n) {
                Some((c, p2)) => Some((Expr::Call(c), p2)),
                None => None,
            }
        },
        None => {
            match parse_eqexpr(tokens, pos) {
                Some((e, p2)) => Some((Expr::Plain(e), p2)),
                None => None,
            }
        },
    }
}

fn parse_explist(tokens: &Vec<Token>, pos: usize) -> (r: Option<(Vec<Expr>, usize)>)
    requires
        pos <= tokens@.len(),
    ensures
        r matches Some(p) ==> pos < p.1 <= tokens@.len(),
{
    let (e, mut p) = match parse_expr(tokens, pos) {
        Some(x) => x,
        None => {
            return None;
        },
    };
    let mut exprs: Vec<Expr> = Vec::new();
    exprs.push(e);
    loop
        invariant
            pos < p <= tokens@.len(),
        decreases tokens@.len() - p,
    {
        if p >= tokens.len() {
            return Some((exprs, p));
        }
        let comma = match &tokens[p] {
            Token::Comma => true,
            _ => false,
        };
        if !comma {
            return Some((exprs, p));
        }
        let (e2, p2) = match parse_expr(tokens, p + 1) {
            Some(x) => x,
            None => {
                return None;
            },
        };
        exprs.push(e2);
        p = p2;
    }
}

fn parse_namelist(tokens: &Vec<Token>, pos: usize) -> (r: Option<(Vec<Vec<u8>>, usize)>)
    requires
        pos <= tokens@.len(),
    ensures
        r matches Some(p) ==> pos < p.1 <= tokens@.len(),
{
    if pos >= tokens.len() {
        return None;
    }
    let first = match copy_name(&tokens[pos]) {
        Some(n) => n,
        None => {
            return None;
        },
    };
    let mut names: Vec<Vec<u8>> = Vec::new();
    names.push(first);
    let mut p = pos + 1;
    loop
        invariant
            pos < p <= tokens@.len(),
        decreases tokens@.len() - p,
    {
        if p >= tokens.len() {
            return Some((names, p));
        }
        let comma = match &tokens[p] {
            Token::Comma => true,
            _ => false,
        };
        if !comma {
            return Some((names, p));
        }
        if p + 1 >= tokens.len() {
            return None;
        }
        let n = match copy_name(&tokens[p + 1]) {
            Some(n) => n,
            None => {
                return None;
            },
        };
        names.push(n);
        p += 2;
    }
}

fn parse_stat(tokens: &Vec<Token>, pos: usize) -> (r: Option<(Stat, usize)>)
    requires
        pos < tokens@.len(),
    ensures
        r matches Some(p) ==> pos < p.1 <= tokens@.len(),
{
    let ntok: usize = tokens.len();
    match &tokens[pos] {
        Token::KwReturn => {
            if pos + 1 >= ntok {
                return Some((Stat::Return(Vec::new()), pos + 1));
            }
            let ends = match &tokens[pos + 1] {
                Token::Semi => true,
                _ => false,
            };
            if ends {
                return Some((Stat::Return(Vec::new()), pos + 1));
            }
            match parse_explist(tokens, pos + 1) {
                Some((es, p2)) => Some((Stat::Return(es), p2)),
                None => None,
            }
        },
        Token::KwLocal => {
            let (names, p) = match parse_namelist(tokens, pos + 1) {
                Some(x) => x,
                None => {
                    return None;
                },
            };
            if p >= ntok {
                return None;
            }
            match &tokens[p] {
                Token::Assign => {},
                _ => {
                    return None;
                },
            }
            match parse_explist(tokens, p + 1) {
                Some((es, p2)) => Some((Stat::Local(names, es), p2)),
                None => None,
            }
        },
        Token::Name(n) => {
            if pos + 1 < ntok {
                let calls = match &tokens[pos + 1] {
                    Token::LParen => true,
                    _ => false,
                };
                if calls {
                    let name = copy_bytes(n);
                    return match parse_call_after_name(tokens, pos + 1, name) {
                        Some((c, p2)) => Some((Stat::CallStat(c), p2)),
                        None => None,
                    };
                }
            }
            let (names, p) = match parse_namelist(tokens, pos) {
                Some(x) => x,
                None => {
                    return None;
                },
            };
            if p >= ntok {
                return None;
            }
            match &tokens[p] {
                Token::Assign => {},
                _ => {
                    return None;
                },
            }
            match parse_explist(tokens, p + 1) {
                Some((es, p2)) => Some((Stat::Assign(names, es), p2)),
                None => None,
            }
        },
        _ => None,
    }
}

/// Parses a whole program: statements, separated by optional semicolons.
pub(crate) fn parse(tokens: &Vec<Token>) -> (r: Option<Vec<Stat>>) {
    let mut stats: Vec<Stat> = Vec::new();
    let mut pos: usize = 0;
    while pos < tokens.len()
        invariant
            pos <= tokens@.len(),
        decreases tokens@.len() - pos,
    {
        let semi = match &tokens[pos] {
            Token::Semi => true,
            _ => false,
        };
        if semi {
            pos += 1;
        } else {
            let (s, p2) = match parse_stat(tokens, pos) {
                Some(x) => x,
                None => {
                    return None;
                },
            };
            stats.push(s);
            pos = p2;
        }
    }
    Some(stats)
}

} // verus!
