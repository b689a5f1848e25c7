//! The grammar around the loop statements: identifiers, data types, a small
//! expression language, assignments, increments, subroutine calls and simple
//! statements. Every node refers to the input by byte ranges.
use vstd::prelude::*;
use crate::ast::lift;
use crate::looping::{loop_statement, loop_statement_at};
use crate::lexer::{
    at, first_sym, first_symbol, is_keyword, is_type_word, number, number_at, skip_space,
    span_is_keyword, span_is_type_word, sym, symbol, text, word, word_at, ws_end, Span, Tok,
};

verus! {

/// A name that is not a reserved word.
#[derive(Clone, Copy, PartialEq, Eq, Structural, Debug)]
pub struct Identifier {
    pub span: Span,
}

/// A data type: a built-in type keyword, or the name of a type.
#[derive(Clone, Copy, PartialEq, Eq, Structural, Debug)]
pub struct DataType {
    pub span: Span,
}

/// An expression: operands joined by binary operators.
#[derive(Clone, Copy, PartialEq, Eq, Structural, Debug)]
pub struct Expression {
    pub span: Span,
}

/// `lvalue = expr`
#[derive(Clone, Copy, PartialEq, Eq, Structural, Debug)]
pub struct VariableAssignment {
    pub lvalue: Identifier,
    pub expr: Expression,
}

/// `lvalue op expr`, where `op` is `=`, `+=`, `-=`, `*=` or `/=`.
#[derive(Clone, Copy, PartialEq, Eq, Structural, Debug)]
pub struct OperatorAssignment {
    pub lvalue: Identifier,
    pub op: Tok,
    pub expr: Expression,
}

/// `++x`, `--x`, `x++` or `x--`.
#[derive(Clone, Copy, PartialEq, Eq, Structural, Debug)]
pub struct IncOrDecExpression {
    pub op: Tok,
    pub operand: Identifier,
    pub prefix: bool,
}

/// `name`, `name()` or `name(expr)`; `span` covers the whole call.
#[derive(Clone, Copy, PartialEq, Eq, Structural, Debug)]
pub struct SubroutineCall {
    pub name: Identifier,
    pub arg: Option<Expression>,
    pub span: Span,
}

/// A loop statement, or an assignment, increment or call terminated by `;`;
/// `span` covers its text.
#[derive(Clone, Copy, PartialEq, Eq, Structural, Debug)]
pub struct Statement {
    pub span: Span,
}

#[derive(Clone, Copy, PartialEq, Eq, Structural, Debug)]
pub enum StatementOrNull {
    Statement(Statement),
    /// A bare `;`.
    Null,
}

/// An array name: an optional package scope `pkg::`, then a hierarchical
/// path of one or more names joined by `.` (`top.sub.mem`).
#[derive(Debug)]
pub struct PsOrHierarchicalArrayIdentifier {
    pub scope: Option<Identifier>,
    pub path: Vec<Identifier>,
}

pub struct ArrayNameModel {
    pub scope: Option<Identifier>,
    pub path: Seq<Identifier>,
}

impl View for PsOrHierarchicalArrayIdentifier {
    type V = ArrayNameModel;

    open spec fn view(&self) -> ArrayNameModel {
        ArrayNameModel { scope: self.scope, path: self.path@ }
    }
}

pub open spec fn binary_ops() -> Seq<Tok> {
    seq![Tok::Le, Tok::Ge, Tok::EqEq, Tok::Ne, Tok::Lt, Tok::Gt, Tok::Plus, Tok::Minus, Tok::Star, Tok::Slash]
}

pub open spec fn assign_ops() -> Seq<Tok> {
    seq![Tok::AddAssign, Tok::SubAssign, Tok::MulAssign, Tok::DivAssign, Tok::Assign]
}

pub open spec fn step_ops() -> Seq<Tok> {
    seq![Tok::Incr, Tok::Decr]
}

pub open spec fn identifier_at(s: Seq<u8>, i: int) -> Option<(Identifier, int)> {
    match word_at(s, i) {
        Some(sp) => if is_keyword(text(s, sp)) {
            None
        } else {
            Some((Identifier { span: sp }, sp.end as int))
        },
        None => None,
    }
}

pub open spec fn data_type_at(s: Seq<u8>, i: int) -> Option<(DataType, int)> {
    match word_at(s, i) {
        Some(sp) => if is_type_word(text(s, sp)) || !is_keyword(text(s, sp)) {
            Some((DataType { span: sp }, sp.end as int))
        } else {
            None
        },
        None => None,
    }
}

/// An operand is an identifier or a number; the result is where it ends.
pub open spec fn operand_at(s: Seq<u8>, i: int) -> Option<int> {
    match identifier_at(s, i) {
        Some((_, e)) => Some(e),
        None => match number_at(s, i) {
            Some(sp) => Some(sp.end as int),
            None => None,
        },
    }
}

/// Extends an expression that ends at `e` by `op operand` pairs, as long as
/// they follow.
pub open spec fn expr_tail(s: Seq<u8>, e: int) -> int
    decreases s.len() - e,
{
    match first_sym(s, e, binary_ops()) {
        Some((_, o)) => match operand_at(s, o) {
            Some(f) => if e < f <= s.len() {
                expr_tail(s, f)
            } else {
                e
            },
            None => e,
        },
        None => e,
    }
}

pub open spec fn expression_at(s: Seq<u8>, i: int) -> Option<(Expression, int)> {
    match operand_at(s, i) {
        Some(e) => {
            let f = expr_tail(s, e);
            Some((Expression { span: Span { start: ws_end(s, i) as usize, end: f as usize } }, f))
        },
        None => None,
    }
}

pub open spec fn variable_assignment_at(s: Seq<u8>, i: int) -> Option<(VariableAssignment, int)> {
    match identifier_at(s, i) {
        Some((id, a)) => match sym(s, a, Tok::Assign) {
            Some(b) => match expression_at(s, b) {
                Some((x, c)) => Some((VariableAssignment { lvalue: id, expr: x }, c)),
                None => None,
            },
            None => None,
        },
        None => None,
    }
}

pub open spec fn operator_assignment_at(s: Seq<u8>, i: int) -> Option<(OperatorAssignment, int)> {
    match identifier_at(s, i) {
        Some((id, a)) => match first_sym(s, a, assign_ops()) {
            Some((op, b)) => match expression_at(s, b) {
                Some((x, c)) => Some((OperatorAssignment { lvalue: id, op, expr: x }, c)),
                None => None,
            },
            None => None,
        },
        None => None,
    }
}

pub open spec fn inc_or_dec_at(s: Seq<u8>, i: int) -> Option<(IncOrDecExpression, int)> {
    match first_sym(s, i, step_ops()) {
        Some((op, a)) => match identifier_at(s, a) {
            Some((id, b)) => Some((IncOrDecExpression { op, operand: id, prefix: true }, b)),
            None => None,
        },
        None => match identifier_at(s, i) {
            Some((id, a)) => match first_sym(s, a, step_ops()) {
                Some((op, b)) => Some((IncOrDecExpression { op, operand: id, prefix: false }, b)),
                None => None,
            },
            None => None,
        },
    }
}

pub open spec fn call_node(name: Identifier, arg: Option<Expression>, start: int, end: int) -> (SubroutineCall, int) {
    (SubroutineCall { name, arg, span: Span { start: start as usize, end: end as usize } }, end)
}

pub open spec fn subroutine_call_at(s: Seq<u8>, i: int) -> Option<(SubroutineCall, int)> {
    let j = ws_end(s, i);
    match identifier_at(s, i) {
        Some((id, a)) => match sym(s, a, Tok::LParen) {
            Some(b) => match expression_at(s, b) {
                Some((x, c)) => match sym(s, c, Tok::RParen) {
                    Some(d) => Some(call_node(id, Some(x), j, d)),
                    None => Some(call_node(id, None, j, a)),
                },
                None => match sym(s, b, Tok::RParen) {
                    Some(d) => Some(call_node(id, None, j, d)),
                    None => Some(call_node(id, None, j, a)),
                },
            },
            None => Some(call_node(id, None, j, a)),
        },
        None => None,
    }
}

/// Where the action of a simple statement ends: an operator assignment, else
/// an increment or decrement, else a subroutine call.
pub open spec fn action_end(s: Seq<u8>, i: int) -> Option<int> {
    match operator_assignment_at(s, i) {
        Some((_, e)) => Some(e),
        None => match inc_or_dec_at(s, i) {
            Some((_, e)) => Some(e),
            None => match subroutine_call_at(s, i) {
                Some((_, e)) => Some(e),
                None => None,
            },
        },
    }
}

pub open spec fn statement_at(s: Seq<u8>, i: int) -> Option<(Statement, int)>
    decreases s.len() - i, 2nat,
{
    match loop_statement_at(s, i) {
        Some((_, e)) => Some((Statement { span: Span { start: ws_end(s, i) as usize, end: e as usize } }, e)),
        None => match action_end(s, i) {
            Some(e) => match sym(s, e, Tok::Semi) {
                Some(f) => Some((Statement { span: Span { start: ws_end(s, i) as usize, end: f as usize } }, f)),
                None => None,
            },
            None => None,
        },
    }
}

pub open spec fn statement_or_null_at(s: Seq<u8>, i: int) -> Option<(StatementOrNull, int)>
    decreases s.len() - i, 3nat,
{
    match sym(s, i, Tok::Semi) {
        Some(e) => Some((StatementOrNull::Null, e)),
        None => match statement_at(s, i) {
            Some((st, e)) => Some((StatementOrNull::Statement(st), e)),
            None => None,
        },
    }
}

/// An optional `pkg::` scope: taken only where a name and `::` follow.
pub open spec fn scope_at(s: Seq<u8>, i: int) -> (Option<Identifier>, int) {
    match identifier_at(s, i) {
        Some((p, a)) => match sym(s, a, Tok::Scope) {
            Some(b) => (Some(p), b),
            None => (None, i),
        },
        None => (None, i),
    }
}

/// More `.name` steps of a hierarchical path after `i`, appended to `acc`.
pub open spec fn path_from(s: Seq<u8>, i: int, acc: Seq<Identifier>) -> (Seq<Identifier>, int)
    decreases s.len() - i,
{
    match sym(s, i, Tok::Dot) {
        Some(j) => match identifier_at(s, j) {
            Some((x, k)) => if i < k <= s.len() {
                path_from(s, k, acc.push(x))
            } else {
                (acc, i)
            },
            None => (acc, i),
        },
        None => (acc, i),
    }
}

pub open spec fn array_identifier_at(s: Seq<u8>, i: int) -> Option<(ArrayNameModel, int)> {
    let (scope, a) = scope_at(s, i);
    match identifier_at(s, a) {
        Some((x, k)) => {
            let (path, e) = path_from(s, k, seq![x]);
            Some((ArrayNameModel { scope, path }, e))
        },
        None => None,
    }
}

/// The next identifier: a word that is not reserved.
pub fn identifier(s: &[u8], pos: usize) -> (r: Option<(Identifier, usize)>)
    requires
        pos <= s.len(),
    ensures
        at(r) == identifier_at(s@, pos as int),
        r matches Some((_, e)) ==> pos < e <= s.len(),
{
    match word(s, pos) {
        Some(sp) => if span_is_keyword(s, sp.start, sp.end) {
            None
        } else {
            Some((Identifier { span: sp }, sp.end))
        },
        None => None,
    }
}

/// The next data type: a built-in type keyword or a type name.
pub fn data_type(s: &[u8], pos: usize) -> (r: Option<(DataType, usize)>)
    requires
        pos <= s.len(),
    ensures
        at(r) == data_type_at(s@, pos as int),
        r matches Some((_, e)) ==> pos < e <= s.len(),
{
    match word(s, pos) {
        Some(sp) => if span_is_type_word(s, sp.start, sp.end) || !span_is_keyword(s, sp.start, sp.end) {
            Some((DataType { span: sp }, sp.end))
        } else {
            None
        },
        None => None,
    }
}

fn operand(s: &[u8], pos: usize) -> (r: Option<usize>)
    requires
        pos <= s.len(),
    ensures
        crate::lexer::pos_of(r) == operand_at(s@, pos as int),
        r matches Some(e) ==> pos < e <= s.len(),
{
    match identifier(s, pos) {
        Some((_, e)) => Some(e),
        None => match number(s, pos) {
            Some(sp) => Some(sp.end),
            None => None,
        },
    }
}

fn binary_ops_vec() -> (r: Vec<Tok>)
    ensures
        r@ == binary_ops(),
{
    let v = vec![Tok::Le, Tok::Ge, Tok::EqEq, Tok::Ne, Tok::Lt, Tok::Gt, Tok::Plus, Tok::Minus, Tok::Star, Tok::Slash];
    assert(v@ =~= binary_ops());
    v
}

fn assign_ops_vec() -> (r: Vec<Tok>)
    ensures
        r@ == assign_ops(),
{
    let v = vec![Tok::AddAssign, Tok::SubAssign, Tok::MulAssign, Tok::DivAssign, Tok::Assign];
    assert(v@ =~= assign_ops());
    v
}

fn step_ops_vec() -> (r: Vec<Tok>)
    ensures
        r@ == step_ops(),
{
    let v = vec![Tok::Incr, Tok::Decr];
    assert(v@ =~= step_ops());
    v
}

/// An operand followed by any number of `op operand` pairs.
pub fn expression(s: &[u8], pos: usize) -> (r: Option<(Expression, usize)>)
    requires
        pos <= s.len(),
    ensures
        at(r) == expression_at(s@, pos as int),
        r matches Some((_, e)) ==> pos < e <= s.len(),
{
    let start = skip_space(s, pos);
    let mut e = match operand(s, pos) {
        Some(e) => e,
        None => {
            return None;
        },
    };
    let ops = binary_ops_vec();
    loop
        invariant
            pos < e <= s.len(),
            start as int == ws_end(s@, pos as int),
            ops@ == binary_ops(),
            operand_at(s@, pos as int) is Some,
            expr_tail(s@, e as int) == expr_tail(s@, operand_at(s@, pos as int)->0),
        decreases s.len() - e,
    {
        let next = match first_symbol(s, e, &ops) {
            Some((_, o)) => match operand(s, o) {
                Some(f) => Some(f),
                None => None,
            },
            None => None,
        };
        match next {
            Some(f) => {
                e = f;
            },
            None => {
                return Some((Expression { span: Span { start, end: e } }, e));
            },
        }
    }
}

/// `name = expr`
pub fn variable_assignment(s: &[u8], pos: usize) -> (r: Option<(VariableAssignment, usize)>)
    requires
        pos <= s.len(),
    ensures
        at(r) == variable_assignment_at(s@, pos as int),
        r matches Some((_, e)) ==> pos < e <= s.len(),
{
    let (id, a) = match identifier(s, pos) {
        Some(v) => v,
        None => {
            return None;
        },
    };
    let b = match symbol(s, a, Tok::Assign) {
        Some(v) => v,
        None => {
            return None;
        },
    };
    match expression(s, b) {
        Some((x, c)) => Some((VariableAssignment { lvalue: id, expr: x }, c)),
        None => None,
    }
}

/// `name op expr` with an assignment operator.
pub fn operator_assignment(s: &[u8], pos: usize) -> (r: Option<(OperatorAssignment, usize)>)
    requires
        pos <= s.len(),
    ensures
        at(r) == operator_assignment_at(s@, pos as int),
        r matches Some((_, e)) ==> pos < e <= s.len(),
{
    let (id, a) = match identifier(s, pos) {
        Some(v) => v,
        None => {
            return None;
        },
    };
    let (op, b) = match first_symbol(s, a, &assign_ops_vec()) {
        Some(v) => v,
        None => {
            return None;
        },
    };
    match expression(s, b) {
        Some((x, c)) => Some((OperatorAssignment { lvalue: id, op, expr: x }, c)),
        None => None,
    }
}

/// A prefix or postfix increment or decrement of a variable.
pub fn inc_or_dec_expression(s: &[u8], pos: usize) -> (r: Option<(IncOrDecExpression, usize)>)
    requires
        pos <= s.len(),
    ensures
        at(r) == inc_or_dec_at(s@, pos as int),
        r matches Some((_, e)) ==> pos < e <= s.len(),
{
    let ops = step_ops_vec();
    match first_symbol(s, pos, &ops) {
        Some((op, a)) => match identifier(s, a) {
            Some((id, b)) => Some((IncOrDecExpression { op, operand: id, prefix: true }, b)),
            None => None,
        },
        None => match identifier(s, pos) {
            Some((id, a)) => match first_symbol(s, a, &ops) {
                Some((op, b)) => Some((IncOrDecExpression { op, operand: id, prefix: false }, b)),
                None => None,
            },
            None => None,
        },
    }
}

/// A call with at most one argument; without a closing `)` only the name
/// is taken.
pub fn subroutine_call(s: &[u8], pos: usize) -> (r: Option<(SubroutineCall, usize)>)
    requires
        pos <= s.len(),
    ensures
        at(r) == subroutine_call_at(s@, pos as int),
        r matches Some((_, e)) ==> pos < e <= s.len(),
{
    let j = skip_space(s, pos);
    let (id, a) = match identifier(s, pos) {
        Some(v) => v,
        None => {
            return None;
        },
    };
    let bare = SubroutineCall { name: id, arg: None, span: Span { start: j, end: a } };
    let b = match symbol(s, a, Tok::LParen) {
        Some(v) => v,
        None => {
            return Some((bare, a));
        },
    };
    match expression(s, b) {
        Some((x, c)) => match symbol(s, c, Tok::RParen) {
            Some(d) => Some((SubroutineCall { name: id, arg: Some(x), span: Span { start: j, end: d } }, d)),
            None => Some((bare, a)),
        },
        None => match symbol(s, b, Tok::RParen) {
            Some(d) => Some((SubroutineCall { name: id, arg: None, span: Span { start: j, end: d } }, d)),
            None => Some((bare, a)),
        },
    }
}

fn action(s: &[u8], pos: usize) -> (r: Option<usize>)
    requires
        pos <= s.len(),
    ensures
        crate::lexer::pos_of(r) == action_end(s@, pos as int),
        r matches Some(e) ==> pos < e <= s.len(),
{
    match operator_assignment(s, pos) {
        Some((_, e)) => Some(e),
        None => match inc_or_dec_expression(s, pos) {
            Some((_, e)) => Some(e),
            None => match subroutine_call(s, pos) {
                Some((_, e)) => Some(e),
                None => None,
            },
        },
    }
}

/// A statement: a loop statement, or an action followed by `;`. The node
/// records the statement's text.
pub fn statement(s: &[u8], pos: usize) -> (r: Option<(Statement, usize)>)
    requires
        pos <= s.len(),
    ensures
        at(r) == statement_at(s@, pos as int),
        r matches Some((_, e)) ==> pos < e <= s.len() && s@[e - 1] == ';' as u8,
    decreases s.len() - pos, 2nat,
{
    let start = skip_space(s, pos);
    if let Some((_, e)) = loop_statement(s, pos) {
        return Some((Statement { span: Span { start, end: e } }, e));
    }
    let e = match action(s, pos) {
        Some(v) => v,
        None => {
            return None;
        },
    };
    match symbol(s, e, Tok::Semi) {
        Some(f) => Some((Statement { span: Span { start, end: f } }, f)),
        None => None,
    }
}

/// A bare `;`, or else a statement.
pub fn statement_or_null(s: &[u8], pos: usize) -> (r: Option<(StatementOrNull, usize)>)
    requires
        pos <= s.len(),
    ensures
        at(r) == statement_or_null_at(s@, pos as int),
        r matches Some((_, e)) ==> pos < e <= s.len() && s@[e - 1] == ';' as u8,
    decreases s.len() - pos, 3nat,
{
    match symbol(s, pos, Tok::Semi) {
        Some(e) => Some((StatementOrNull::Null, e)),
        None => match statement(s, pos) {
            Some((st, e)) => Some((StatementOrNull::Statement(st), e)),
            None => None,
        },
    }
}

/// An array name: an optional `pkg::` scope, then `name{.name}`.
pub fn ps_or_hierarchical_array_identifier(s: &[u8], pos: usize) -> (r: Option<(PsOrHierarchicalArrayIdentifier, usize)>)
    requires
        pos <= s.len(),
    ensures
        lift(r) == array_identifier_at(s@, pos as int),
        r matches Some((_, e)) ==> pos < e <= s.len(),
        r matches Some((x, _)) ==> x.path.len() >= 1,
{
    let (scope, a) = match identifier(s, pos) {
        Some((p, a)) => match symbol(s, a, Tok::Scope) {
            Some(b) => (Some(p), b),
            None => (None, pos),
        },
        None => (None, pos),
    };
    let (x, k) = match identifier(s, a) {
        Some(v) => v,
        None => {
            return None;
        },
    };
    let mut path: Vec<Identifier> = Vec::new();
    path.push(x);
    assert(path@ =~= seq![x]);
    let mut i = k;
    loop
        invariant
            pos < i <= s.len(),
            path.len() >= 1,
            array_identifier_at(s@, pos as int) == Some((
                ArrayNameModel { scope, path: path_from(s@, i as int, path@).0 },
                path_from(s@, i as int, path@).1,
            )),
        decreases s.len() - i,
    {
        let next = match symbol(s, i, Tok::Dot) {
            Some(j) => identifier(s, j),
            None => None,
        };
        match next {
            Some((x, k)) => {
                path.push(x);
                i = k;
            },
            None => {
                return Some((PsOrHierarchicalArrayIdentifier { scope, path }, i));
            },
        }
    }
}

} // verus!
