//! Trivia skipping, character classes and the token matcher.
use vstd::prelude::*;

verus! {

/// A half-open byte range `start..end` of the input text.
#[derive(Clone, Copy, PartialEq, Eq, Structural, Debug)]
pub struct Span {
    pub start: usize,
    pub end: usize,
}

/// The classes of bytes that the lexer groups into runs.
#[derive(Clone, Copy, PartialEq, Eq, Structural, Debug)]
pub enum Class {
    Space,
    Word,
    Digit,
}

pub open spec fn is_letter(b: u8) -> bool {
    ('a' as u8 <= b && b <= 'z' as u8) || ('A' as u8 <= b && b <= 'Z' as u8) || b == '_' as u8
}

pub open spec fn is_digit(b: u8) -> bool {
    '0' as u8 <= b && b <= '9' as u8
}

pub open spec fn in_class(c: Class, b: u8) -> bool {
    match c {
        Class::Space => b == ' ' as u8 || b == '\t' as u8 || b == '\n' as u8 || b == '\r' as u8,
        Class::Word => is_letter(b) || is_digit(b) || b == '$' as u8,
        Class::Digit => is_digit(b),
    }
}

/// The end of the longest run of bytes of class `c` that starts at `i`.
pub open spec fn run_end(s: Seq<u8>, i: int, c: Class) -> int
    decreases s.len() - i,
{
    if 0 <= i < s.len() && in_class(c, s[i]) {
        run_end(s, i + 1, c)
    } else {
        i
    }
}

/// Where the next token starts: trivia (white space) before `i` is skipped.
pub open spec fn ws_end(s: Seq<u8>, i: int) -> int {
    run_end(s, i, Class::Space)
}

pub open spec fn pos_of(r: Option<usize>) -> Option<int> {
    match r {
        Some(e) => Some(e as int),
        None => None,
    }
}

/// A word: a letter followed by word characters, after trivia.
pub open spec fn word_at(s: Seq<u8>, i: int) -> Option<Span> {
    let j = ws_end(s, i);
    if 0 <= j < s.len() && is_letter(s[j]) {
        Some(Span { start: j as usize, end: run_end(s, j, Class::Word) as usize })
    } else {
        None
    }
}

pub open spec fn text(s: Seq<u8>, sp: Span) -> Seq<u8> {
    s.subrange(sp.start as int, sp.end as int)
}

/// The token matcher: trivia, then the token's bytes; a keyword must make up a
/// whole word. The result is the position just past the token.
pub open spec fn sym(s: Seq<u8>, i: int, t: Tok) -> Option<int> {
    if is_word_tok(t) {
        match word_at(s, i) {
            Some(sp) => if text(s, sp) == tok_bytes(t) {
                Some(sp.end as int)
            } else {
                None
            },
            None => None,
        }
    } else {
        let j = ws_end(s, i);
        let e = j + tok_bytes(t).len();
        if 0 <= j && e <= s.len() && s.subrange(j, e) == tok_bytes(t) {
            Some(e)
        } else {
            None
        }
    }
}

/// A run of decimal digits, after trivia.
pub open spec fn number_at(s: Seq<u8>, i: int) -> Option<Span> {
    let j = ws_end(s, i);
    if 0 <= j < s.len() && is_digit(s[j]) {
        Some(Span { start: j as usize, end: run_end(s, j, Class::Digit) as usize })
    } else {
        None
    }
}

fn in_class_exec(c: Class, b: u8) -> (r: bool)
    ensures
        r == in_class(c, b),
{
    match c {
        Class::Space => b == ' ' as u8 || b == '\t' as u8 || b == '\n' as u8 || b == '\r' as u8,
        Class::Word => ('a' as u8 <= b && b <= 'z' as u8) || ('A' as u8 <= b && b <= 'Z' as u8)
            || b == '_' as u8 || ('0' as u8 <= b && b <= '9' as u8) || b == '$' as u8,
        Class::Digit => '0' as u8 <= b && b <= '9' as u8,
    }
}

fn is_letter_exec(b: u8) -> (r: bool)
    ensures
        r == is_letter(b),
{
    ('a' as u8 <= b && b <= 'z' as u8) || ('A' as u8 <= b && b <= 'Z' as u8) || b == '_' as u8
}

/// The end of the run of class `c` that starts at `pos`.
pub fn scan_run(s: &[u8], pos: usize, c: Class) -> (r: usize)
    requires
        pos <= s.len(),
    ensures
        r as int == run_end(s@, pos as int, c),
        pos <= r <= s.len(),
{
    let mut i: usize = pos;
    while i < s.len() && in_class_exec(c, s[i])
        invariant
            pos <= i <= s.len(),
            run_end(s@, i as int, c) == run_end(s@, pos as int, c),
        decreases s.len() - i,
    {
        i = i + 1;
    }
    i
}

/// Skips trivia.
pub fn skip_space(s: &[u8], pos: usize) -> (r: usize)
    requires
        pos <= s.len(),
    ensures
        r as int == ws_end(s@, pos as int),
        pos <= r <= s.len(),
{
    scan_run(s, pos, Class::Space)
}

/// Whether `s[start..end]` spells the token `t`.
pub fn span_is(s: &[u8], start: usize, end: usize, t: Tok) -> (r: bool)
    requires
        start <= end <= s.len(),
    ensures
        r == (s@.subrange(start as int, end as int) == tok_bytes(t)),
{
    let w = tok_vec(t);
    if end - start != w.len() {
        return false;
    }
    let mut k: usize = 0;
    while k < w.len()
        invariant
            end - start == w.len(),
            start <= end <= s.len(),
            k <= w.len(),
            w@ == tok_bytes(t),
            forall|m: int| 0 <= m < k ==> s@[start + m] == w@[m],
        decreases w.len() - k,
    {
        if s[start + k] != w[k] {
            assert(s@.subrange(start as int, end as int)[k as int] != w@[k as int]);
            return false;
        }
        k = k + 1;
    }
    assert(s@.subrange(start as int, end as int) =~= w@);
    true
}

/// The next word, if one starts after trivia.
pub fn word(s: &[u8], pos: usize) -> (r: Option<Span>)
    requires
        pos <= s.len(),
    ensures
        r == word_at(s@, pos as int),
        r matches Some(sp) ==> pos <= sp.start < sp.end <= s.len(),
{
    let j = skip_space(s, pos);
    if j < s.len() && is_letter_exec(s[j]) {
        assert(in_class(Class::Word, s@[j as int]));
        let e = scan_run(s, j + 1, Class::Word);
        Some(Span { start: j, end: e })
    } else {
        None
    }
}

/// The next number, if one starts after trivia.
pub fn number(s: &[u8], pos: usize) -> (r: Option<Span>)
    requires
        pos <= s.len(),
    ensures
        r == number_at(s@, pos as int),
        r matches Some(sp) ==> pos <= sp.start < sp.end <= s.len(),
{
    let j = skip_space(s, pos);
    if j < s.len() && '0' as u8 <= s[j] && s[j] <= '9' as u8 {
        let e = scan_run(s, j + 1, Class::Digit);
        Some(Span { start: j, end: e })
    } else {
        None
    }
}

/// Matches the token `t` after trivia; the result is the position past it.
pub fn symbol(s: &[u8], pos: usize, t: Tok) -> (r: Option<usize>)
    requires
        pos <= s.len(),
    ensures
        pos_of(r) == sym(s@, pos as int, t),
        r matches Some(e) ==> pos < e <= s.len() && s@[e - 1] == tok_bytes(t).last(),
{
    if is_word_tok_exec(t) {
        match word(s, pos) {
            Some(sp) => if span_is(s, sp.start, sp.end, t) {
                assert(s@.subrange(sp.start as int, sp.end as int).last() == s@[sp.end - 1]);
                Some(sp.end)
            } else {
                None
            },
            None => None,
        }
    } else {
        let j = skip_space(s, pos);
        let n = tok_vec(t).len();
        if n > s.len() - j {
            return None;
        }
        if span_is(s, j, j + n, t) {
            proof {
                assert(tok_bytes(t).len() > 0);
                assert(s@.subrange(j as int, j + n).last() == s@[j + n - 1]);
            }
            Some(j + n)
        } else {
            None
        }
    }
}

pub open spec fn at<T>(r: Option<(T, usize)>) -> Option<(T, int)> {
    match r {
        Some((v, e)) => Some((v, e as int)),
        None => None,
    }
}

/// Ordered choice among tokens: the first of `ts` that matches at `i`.
pub open spec fn first_sym(s: Seq<u8>, i: int, ts: Seq<Tok>) -> Option<(Tok, int)>
    decreases ts.len(),
{
    if ts.len() == 0 {
        None
    } else {
        match sym(s, i, ts[0]) {
            Some(e) => Some((ts[0], e)),
            None => first_sym(s, i, ts.drop_first()),
        }
    }
}

/// Tries the tokens of `ts` in order and returns the first that matches.
pub fn first_symbol(s: &[u8], pos: usize, ts: &Vec<Tok>) -> (r: Option<(Tok, usize)>)
    requires
        pos <= s.len(),
    ensures
        at(r) == first_sym(s@, pos as int, ts@),
        r matches Some((_, e)) ==> pos < e <= s.len(),
{
    let mut k: usize = 0;
    assert(ts@.subrange(0, ts@.len() as int) =~= ts@);
    while k < ts.len()
        invariant
            k <= ts.len(),
            pos <= s.len(),
            first_sym(s@, pos as int, ts@) == first_sym(
                s@,
                pos as int,
                ts@.subrange(k as int, ts@.len() as int),
            ),
        decreases ts.len() - k,
    {
        let t = ts[k];
        assert(ts@.subrange(k as int, ts@.len() as int).drop_first() =~= ts@.subrange(
            k + 1,
            ts@.len() as int,
        ));
        match symbol(s, pos, t) {
            Some(e) => {
                return Some((t, e));
            },
            None => {},
        }
        k = k + 1;
    }
    assert(ts@.subrange(k as int, ts@.len() as int) =~= Seq::<Tok>::empty());
    None
}

#[derive(Clone, Copy, PartialEq, Eq, Structural, Debug)]
pub enum Tok {
    Forever,
    Repeat,
    While,
    For,
    Do,
    Foreach,
    Var,
    Bit,
    Logic,
    Reg,
    Byte,
    Shortint,
    Int,
    Longint,
    Integer,
    LParen,
    RParen,
    LBracket,
    RBracket,
    Semi,
    Comma,
    Scope,
    Dot,
    Assign,
    AddAssign,
    SubAssign,
    MulAssign,
    DivAssign,
    Incr,
    Decr,
    Le,
    Ge,
    EqEq,
    Ne,
    Lt,
    Gt,
    Plus,
    Minus,
    Star,
    Slash,
}

/// The bytes that spell a token.
pub open spec fn tok_bytes(t: Tok) -> Seq<u8> {
    match t {
        Tok::Forever => seq!['f' as u8, 'o' as u8, 'r' as u8, 'e' as u8, 'v' as u8, 'e' as u8, 'r' as u8],
        Tok::Repeat => seq!['r' as u8, 'e' as u8, 'p' as u8, 'e' as u8, 'a' as u8, 't' as u8],
        Tok::While => seq!['w' as u8, 'h' as u8, 'i' as u8, 'l' as u8, 'e' as u8],
        Tok::For => seq!['f' as u8, 'o' as u8, 'r' as u8],
        Tok::Do => seq!['d' as u8, 'o' as u8],
        Tok::Foreach => seq!['f' as u8, 'o' as u8, 'r' as u8, 'e' as u8, 'a' as u8, 'c' as u8, 'h' as u8],
        Tok::Var => seq!['v' as u8, 'a' as u8, 'r' as u8],
        Tok::Bit => seq!['b' as u8, 'i' as u8, 't' as u8],
        Tok::Logic => seq!['l' as u8, 'o' as u8, 'g' as u8, 'i' as u8, 'c' as u8],
        Tok::Reg => seq!['r' as u8, 'e' as u8, 'g' as u8],
        Tok::Byte => seq!['b' as u8, 'y' as u8, 't' as u8, 'e' as u8],
        Tok::Shortint => seq!['s' as u8, 'h' as u8, 'o' as u8, 'r' as u8, 't' as u8, 'i' as u8, 'n' as u8, 't' as u8],
        Tok::Int => seq!['i' as u8, 'n' as u8, 't' as u8],
        Tok::Longint => seq!['l' as u8, 'o' as u8, 'n' as u8, 'g' as u8, 'i' as u8, 'n' as u8, 't' as u8],
        Tok::Integer => seq!['i' as u8, 'n' as u8, 't' as u8, 'e' as u8, 'g' as u8, 'e' as u8, 'r' as u8],
        Tok::LParen => seq!['(' as u8],
        Tok::RParen => seq![')' as u8],
        Tok::LBracket => seq!['[' as u8],
        Tok::RBracket => seq![']' as u8],
        Tok::Semi => seq![';' as u8],
        Tok::Comma => seq![',' as u8],
        Tok::Scope => seq![':' as u8, ':' as u8],
        Tok::Dot => seq!['.' as u8],
        Tok::Assign => seq!['=' as u8],
        Tok::AddAssign => seq!['+' as u8, '=' as u8],
        Tok::SubAssign => seq!['-' as u8, '=' as u8],
        Tok::MulAssign => seq!['*' as u8, '=' as u8],
        Tok::DivAssign => seq!['/' as u8, '=' as u8],
        Tok::Incr => seq!['+' as u8, '+' as u8],
        Tok::Decr => seq!['-' as u8, '-' as u8],
        Tok::Le => seq!['<' as u8, '=' as u8],
        Tok::Ge => seq!['>' as u8, '=' as u8],
        Tok::EqEq => seq!['=' as u8, '=' as u8],
        Tok::Ne => seq!['!' as u8, '=' as u8],
        Tok::Lt => seq!['<' as u8],
        Tok::Gt => seq!['>' as u8],
        Tok::Plus => seq!['+' as u8],
        Tok::Minus => seq!['-' as u8],
        Tok::Star => seq!['*' as u8],
        Tok::Slash => seq!['/' as u8],
    }
}

/// Keywords are spelled with identifier characters and match whole words.
pub open spec fn is_word_tok(t: Tok) -> bool {
    match t {
        Tok::Forever | Tok::Repeat | Tok::While | Tok::For | Tok::Do | Tok::Foreach | Tok::Var | Tok::Bit | Tok::Logic | Tok::Reg | Tok::Byte | Tok::Shortint | Tok::Int | Tok::Longint | Tok::Integer => true,
        _ => false,
    }
}

/// Words reserved by the grammar: never an identifier.
pub open spec fn is_keyword(w: Seq<u8>) -> bool {
    w == tok_bytes(Tok::Forever)
        || w == tok_bytes(Tok::Repeat)
        || w == tok_bytes(Tok::While)
        || w == tok_bytes(Tok::For)
        || w == tok_bytes(Tok::Do)
        || w == tok_bytes(Tok::Foreach)
        || w == tok_bytes(Tok::Var)
        || w == tok_bytes(Tok::Bit)
        || w == tok_bytes(Tok::Logic)
        || w == tok_bytes(Tok::Reg)
        || w == tok_bytes(Tok::Byte)
        || w == tok_bytes(Tok::Shortint)
        || w == tok_bytes(Tok::Int)
        || w == tok_bytes(Tok::Longint)
        || w == tok_bytes(Tok::Integer)
}

/// Words that name a built-in data type.
pub open spec fn is_type_word(w: Seq<u8>) -> bool {
    w == tok_bytes(Tok::Bit)
        || w == tok_bytes(Tok::Logic)
        || w == tok_bytes(Tok::Reg)
        || w == tok_bytes(Tok::Byte)
        || w == tok_bytes(Tok::Shortint)
        || w == tok_bytes(Tok::Int)
        || w == tok_bytes(Tok::Longint)
        || w == tok_bytes(Tok::Integer)
}

fn tok_vec(t: Tok) -> (r: Vec<u8>)
    ensures
        r@ == tok_bytes(t),
{
    let v: Vec<u8> = match t {
        Tok::Forever => vec!['f' as u8, 'o' as u8, 'r' as u8, 'e' as u8, 'v' as u8, 'e' as u8, 'r' as u8],
        Tok::Repeat => vec!['r' as u8, 'e' as u8, 'p' as u8, 'e' as u8, 'a' as u8, 't' as u8],
        Tok::While => vec!['w' as u8, 'h' as u8, 'i' as u8, 'l' as u8, 'e' as u8],
        Tok::For => vec!['f' as u8, 'o' as u8, 'r' as u8],
        Tok::Do => vec!['d' as u8, 'o' as u8],
        Tok::Foreach => vec!['f' as u8, 'o' as u8, 'r' as u8, 'e' as u8, 'a' as u8, 'c' as u8, 'h' as u8],
        Tok::Var => vec!['v' as u8, 'a' as u8, 'r' as u8],
        Tok::Bit => vec!['b' as u8, 'i' as u8, 't' as u8],
        Tok::Logic => vec!['l' as u8, 'o' as u8, 'g' as u8, 'i' as u8, 'c' as u8],
        Tok::Reg => vec!['r' as u8, 'e' as u8, 'g' as u8],
        Tok::Byte => vec!['b' as u8, 'y' as u8, 't' as u8, 'e' as u8],
        Tok::Shortint => vec!['s' as u8, 'h' as u8, 'o' as u8, 'r' as u8, 't' as u8, 'i' as u8, 'n' as u8, 't' as u8],
        Tok::Int => vec!['i' as u8, 'n' as u8, 't' as u8],
        Tok::Longint => vec!['l' as u8, 'o' as u8, 'n' as u8, 'g' as u8, 'i' as u8, 'n' as u8, 't' as u8],
        Tok::Integer => vec!['i' as u8, 'n' as u8, 't' as u8, 'e' as u8, 'g' as u8, 'e' as u8, 'r' as u8],
        Tok::LParen => vec!['(' as u8],
        Tok::RParen => vec![')' as u8],
        Tok::LBracket => vec!['[' as u8],
        Tok::RBracket => vec![']' as u8],
        Tok::Semi => vec![';' as u8],
        Tok::Comma => vec![',' as u8],
        Tok::Scope => vec![':' as u8, ':' as u8],
        Tok::Dot => vec!['.' as u8],
        Tok::Assign => vec!['=' as u8],
        Tok::AddAssign => vec!['+' as u8, '=' as u8],
        Tok::SubAssign => vec!['-' as u8, '=' as u8],
        Tok::MulAssign => vec!['*' as u8, '=' as u8],
        Tok::DivAssign => vec!['/' as u8, '=' as u8],
        Tok::Incr => vec!['+' as u8, '+' as u8],
        Tok::Decr => vec!['-' as u8, '-' as u8],
        Tok::Le => vec!['<' as u8, '=' as u8],
        Tok::Ge => vec!['>' as u8, '=' as u8],
        Tok::EqEq => vec!['=' as u8, '=' as u8],
        Tok::Ne => vec!['!' as u8, '=' as u8],
        Tok::Lt => vec!['<' as u8],
        Tok::Gt => vec!['>' as u8],
        Tok::Plus => vec!['+' as u8],
        Tok::Minus => vec!['-' as u8],
        Tok::Star => vec!['*' as u8],
        Tok::Slash => vec!['/' as u8],
    };
    assert(v@ =~= tok_bytes(t));
    v
}

fn is_word_tok_exec(t: Tok) -> (r: bool)
    ensures
        r == is_word_tok(t),
{
    match t {
        Tok::Forever | Tok::Repeat | Tok::While | Tok::For | Tok::Do | Tok::Foreach | Tok::Var | Tok::Bit | Tok::Logic | Tok::Reg | Tok::Byte | Tok::Shortint | Tok::Int | Tok::Longint | Tok::Integer => true,
        _ => false,
    }
}

/// Whether `s[start..end]` spells a reserved word.
pub fn span_is_keyword(s: &[u8], start: usize, end: usize) -> (r: bool)
    requires
        start <= end <= s.len(),
    ensures
        r == is_keyword(s@.subrange(start as int, end as int)),
{
    span_is(s, start, end, Tok::Forever)
        || span_is(s, start, end, Tok::Repeat)
        || span_is(s, start, end, Tok::While)
        || span_is(s, start, end, Tok::For)
        || span_is(s, start, end, Tok::Do)
        || span_is(s, start, end, Tok::Foreach)
        || span_is(s, start, end, Tok::Var)
        || span_is(s, start, end, Tok::Bit)
        || span_is(s, start, end, Tok::Logic)
        || span_is(s, start, end, Tok::Reg)
        || span_is(s, start, end, Tok::Byte)
        || span_is(s, start, end, Tok::Shortint)
        || span_is(s, start, end, Tok::Int)
        || span_is(s, start, end, Tok::Longint)
        || span_is(s, start, end, Tok::Integer)
}

/// Whether `s[start..end]` spells a built-in data type.
pub fn span_is_type_word(s: &[u8], start: usize, end: usize) -> (r: bool)
    requires
        start <= end <= s.len(),
    ensures
        r == is_type_word(s@.subrange(start as int, end as int)),
{
    span_is(s, start, end, Tok::Bit)
        || span_is(s, start, end, Tok::Logic)
        || span_is(s, start, end, Tok::Reg)
        || span_is(s, start, end, Tok::Byte)
        || span_is(s, start, end, Tok::Shortint)
        || span_is(s, start, end, Tok::Int)
        || span_is(s, start, end, Tok::Longint)
        || span_is(s, start, end, Tok::Integer)
}

} // verus!
