//! The loop grammar: one recognizer per loop form, a dispatcher over them, and
//! the sub-grammars of `for` and `foreach`.
use vstd::prelude::*;
use crate::ast::{
    decls_view, lift, DeclModel, ForInitialization, ForStepAssignment, ForVariableDeclaration,
    InitModel, LoopModel, LoopStatement, LoopStatementDoWhile, LoopStatementFor,
    LoopStatementForeach, LoopStatementForever, LoopStatementRepeat, LoopStatementWhile,
    LoopVariables, Var,
};
use crate::lexer::{at, sym, symbol, Tok};
use crate::terms::{
    array_identifier_at, data_type, data_type_at, expression, expression_at, identifier,
    identifier_at, inc_or_dec_at, inc_or_dec_expression, operator_assignment,
    operator_assignment_at, ps_or_hierarchical_array_identifier, statement, statement_at,
    statement_or_null, statement_or_null_at, subroutine_call, subroutine_call_at,
    variable_assignment, variable_assignment_at, Expression, Identifier, VariableAssignment,
};

verus! {

// ---------------------------------------------------------------- lists

/// More `, assignment` items after position `i`, appended to `acc`.
pub open spec fn assignments_from(s: Seq<u8>, i: int, acc: Seq<VariableAssignment>) -> (Seq<VariableAssignment>, int)
    decreases s.len() - i,
{
    match sym(s, i, Tok::Comma) {
        Some(j) => match variable_assignment_at(s, j) {
            Some((x, k)) => if i < k <= s.len() {
                assignments_from(s, k, acc.push(x))
            } else {
                (acc, i)
            },
            None => (acc, i),
        },
        None => (acc, i),
    }
}

/// A non-empty, comma-separated list of variable assignments.
pub open spec fn assignment_list_at(s: Seq<u8>, i: int) -> Option<(Seq<VariableAssignment>, int)> {
    match variable_assignment_at(s, i) {
        Some((x, k)) => Some(assignments_from(s, k, seq![x])),
        None => None,
    }
}

pub open spec fn pair_of(x: VariableAssignment) -> (Identifier, Expression) {
    (x.lvalue, x.expr)
}

/// More `, name = expr` pairs after position `i`, appended to `acc`.
pub open spec fn pairs_from(s: Seq<u8>, i: int, acc: Seq<(Identifier, Expression)>) -> (Seq<(Identifier, Expression)>, int)
    decreases s.len() - i,
{
    match sym(s, i, Tok::Comma) {
        Some(j) => match variable_assignment_at(s, j) {
            Some((x, k)) => if i < k <= s.len() {
                pairs_from(s, k, acc.push(pair_of(x)))
            } else {
                (acc, i)
            },
            None => (acc, i),
        },
        None => (acc, i),
    }
}

/// `[var] type name = expr {, name = expr}`
pub open spec fn for_variable_declaration_at(s: Seq<u8>, i: int) -> Option<(DeclModel, int)> {
    let var = sym(s, i, Tok::Var) is Some;
    let a = match sym(s, i, Tok::Var) {
        Some(a) => a,
        None => i,
    };
    match data_type_at(s, a) {
        Some((dt, b)) => match variable_assignment_at(s, b) {
            Some((x, c)) => {
                let (ps, e) = pairs_from(s, c, seq![pair_of(x)]);
                Some((DeclModel { var, data_type: dt, pairs: ps }, e))
            },
            None => None,
        },
        None => None,
    }
}

/// More `, declaration` items after position `i`, appended to `acc`.
pub open spec fn declarations_from(s: Seq<u8>, i: int, acc: Seq<DeclModel>) -> (Seq<DeclModel>, int)
    decreases s.len() - i,
{
    match sym(s, i, Tok::Comma) {
        Some(j) => match for_variable_declaration_at(s, j) {
            Some((x, k)) => if i < k <= s.len() {
                declarations_from(s, k, acc.push(x))
            } else {
                (acc, i)
            },
            None => (acc, i),
        },
        None => (acc, i),
    }
}

pub open spec fn declaration_list_at(s: Seq<u8>, i: int) -> Option<(Seq<DeclModel>, int)> {
    match for_variable_declaration_at(s, i) {
        Some((x, k)) => Some(declarations_from(s, k, seq![x])),
        None => None,
    }
}

/// The initializer of `for`: an assignment list if one parses, else a
/// declaration list tried again from the same position.
pub open spec fn for_initialization_at(s: Seq<u8>, i: int) -> Option<(InitModel, int)> {
    match assignment_list_at(s, i) {
        Some((v, e)) => Some((InitModel::Assignment(v), e)),
        None => match declaration_list_at(s, i) {
            Some((v, e)) => Some((InitModel::Declaration(v), e)),
            None => None,
        },
    }
}

/// One step of `for`: operator assignment, else increment or decrement, else
/// subroutine call.
pub open spec fn for_step_assignment_at(s: Seq<u8>, i: int) -> Option<(ForStepAssignment, int)> {
    match operator_assignment_at(s, i) {
        Some((x, e)) => Some((ForStepAssignment::Operator(x), e)),
        None => match inc_or_dec_at(s, i) {
            Some((x, e)) => Some((ForStepAssignment::IncOrDec(x), e)),
            None => match subroutine_call_at(s, i) {
                Some((x, e)) => Some((ForStepAssignment::Subroutine(x), e)),
                None => None,
            },
        },
    }
}

pub open spec fn steps_from(s: Seq<u8>, i: int, acc: Seq<ForStepAssignment>) -> (Seq<ForStepAssignment>, int)
    decreases s.len() - i,
{
    match sym(s, i, Tok::Comma) {
        Some(j) => match for_step_assignment_at(s, j) {
            Some((x, k)) => if i < k <= s.len() {
                steps_from(s, k, acc.push(x))
            } else {
                (acc, i)
            },
            None => (acc, i),
        },
        None => (acc, i),
    }
}

pub open spec fn for_step_at(s: Seq<u8>, i: int) -> Option<(Seq<ForStepAssignment>, int)> {
    match for_step_assignment_at(s, i) {
        Some((x, k)) => Some(steps_from(s, k, seq![x])),
        None => None,
    }
}

/// One slot of a loop-variable list: an identifier, or nothing at all.
pub open spec fn slot_at(s: Seq<u8>, i: int) -> (Option<Identifier>, int) {
    match identifier_at(s, i) {
        Some((x, e)) => (Some(x), e),
        None => (None, i),
    }
}

pub open spec fn slots_from(s: Seq<u8>, i: int, acc: Seq<Option<Identifier>>) -> (Seq<Option<Identifier>>, int)
    decreases s.len() - i,
{
    match sym(s, i, Tok::Comma) {
        Some(j) => {
            let (x, k) = slot_at(s, j);
            if i < k <= s.len() {
                slots_from(s, k, acc.push(x))
            } else {
                (acc, i)
            }
        },
        None => (acc, i),
    }
}

/// Comma-separated slots; every slot may be empty, so this always succeeds.
pub open spec fn loop_variables_at(s: Seq<u8>, i: int) -> Option<(Seq<Option<Identifier>>, int)> {
    let (x, k) = slot_at(s, i);
    Some(slots_from(s, k, seq![x]))
}

// ---------------------------------------------------------------- list parsers

/// A non-empty, comma-separated list of variable assignments.
pub fn list_of_variable_assignments(s: &[u8], pos: usize) -> (r: Option<(Vec<VariableAssignment>, usize)>)
    requires
        pos <= s.len(),
    ensures
        r matches Some((v, _)) ==> v.len() >= 1,
        lift(r) == assignment_list_at(s@, pos as int),
        r matches Some((_, e)) ==> pos < e <= s.len(),
{
    let (x, k) = match variable_assignment(s, pos) {
        Some(v) => v,
        None => {
            return None;
        },
    };
    let mut v: Vec<VariableAssignment> = Vec::new();
    v.push(x);
    assert(v@ =~= seq![x]);
    let mut i = k;
    loop
        invariant
            v.len() >= 1,
            pos < i <= s.len(),
            assignment_list_at(s@, pos as int) == Some(assignments_from(s@, i as int, v@)),
        decreases s.len() - i,
    {
        let next = match symbol(s, i, Tok::Comma) {
            Some(j) => variable_assignment(s, j),
            None => None,
        };
        match next {
            Some((x, k)) => {
                v.push(x);
                i = k;
            },
            None => {
                return Some((v, i));
            },
        }
    }
}

/// `[var] type name = expr {, name = expr}`
pub fn for_variable_declaration(s: &[u8], pos: usize) -> (r: Option<(ForVariableDeclaration, usize)>)
    requires
        pos <= s.len(),
    ensures
        r matches Some((d, _)) ==> d.nodes.2.len() >= 1,
        lift(r) == for_variable_declaration_at(s@, pos as int),
        r matches Some((_, e)) ==> pos < e <= s.len(),
{
    let (var, a) = match symbol(s, pos, Tok::Var) {
        Some(a) => (Some(Var {}), a),
        None => (None, pos),
    };
    let (dt, b) = match data_type(s, a) {
        Some(v) => v,
        None => {
            return None;
        },
    };
    let (x, c) = match variable_assignment(s, b) {
        Some(v) => v,
        None => {
            return None;
        },
    };
    let mut ps: Vec<(Identifier, Expression)> = Vec::new();
    ps.push((x.lvalue, x.expr));
    assert(ps@ =~= seq![pair_of(x)]);
    let mut i = c;
    loop
        invariant
            ps.len() >= 1,
            pos < i <= s.len(),
            var is Some == (sym(s@, pos as int, Tok::Var) is Some),
            for_variable_declaration_at(s@, pos as int) == Some((
                DeclModel { var: var is Some, data_type: dt, pairs: pairs_from(s@, i as int, ps@).0 },
                pairs_from(s@, i as int, ps@).1,
            )),
        decreases s.len() - i,
    {
        let next = match symbol(s, i, Tok::Comma) {
            Some(j) => variable_assignment(s, j),
            None => None,
        };
        match next {
            Some((x, k)) => {
                ps.push((x.lvalue, x.expr));
                i = k;
            },
            None => {
                return Some((ForVariableDeclaration { nodes: (var, dt, ps) }, i));
            },
        }
    }
}

fn for_variable_declarations(s: &[u8], pos: usize) -> (r: Option<(Vec<ForVariableDeclaration>, usize)>)
    requires
        pos <= s.len(),
    ensures
        r matches Some((v, _)) ==> v.len() >= 1,
        r matches Some((v, e)) ==> declaration_list_at(s@, pos as int) == Some((decls_view(v@), e as int)),
        r is None ==> declaration_list_at(s@, pos as int) is None,
        r matches Some((_, e)) ==> pos < e <= s.len(),
{
    let (x, k) = match for_variable_declaration(s, pos) {
        Some(v) => v,
        None => {
            return None;
        },
    };
    let ghost first = x@;
    let mut v: Vec<ForVariableDeclaration> = Vec::new();
    v.push(x);
    assert(decls_view(v@) =~= seq![first]);
    let mut i = k;
    loop
        invariant
            v.len() >= 1,
            pos < i <= s.len(),
            declaration_list_at(s@, pos as int) == Some(declarations_from(s@, i as int, decls_view(v@))),
        decreases s.len() - i,
    {
        let next = match symbol(s, i, Tok::Comma) {
            Some(j) => for_variable_declaration(s, j),
            None => None,
        };
        match next {
            Some((x, k)) => {
                let ghost d = x@;
                let ghost before = v@;
                v.push(x);
                assert(decls_view(v@) =~= decls_view(before).push(d));
                i = k;
            },
            None => {
                return Some((v, i));
            },
        }
    }
}

/// The initializer of `for`: an assignment list if one parses; otherwise,
/// from the same position, a declaration list.
///
/// Open question of the grammar: a bare name with no `= value` (`for (i; ...)`)
/// fits neither form, so it is rejected here; whether such an initializer
/// should be legal is not settled by the grammar and is left undecided.
pub fn for_initialization(s: &[u8], pos: usize) -> (r: Option<(ForInitialization, usize)>)
    requires
        pos <= s.len(),
    ensures
        r matches Some((ForInitialization::Assignment(v), _)) ==> v.len() >= 1,
        r matches Some((ForInitialization::Declaration(v), _)) ==> v.len() >= 1,
        lift(r) == for_initialization_at(s@, pos as int),
        r matches Some((_, e)) ==> pos < e <= s.len(),
{
    match list_of_variable_assignments(s, pos) {
        Some((v, e)) => Some((ForInitialization::Assignment(v), e)),
        None => match for_variable_declarations(s, pos) {
            Some((v, e)) => Some((ForInitialization::Declaration(v), e)),
            None => None,
        },
    }
}

/// One step of `for`: operator assignment, else increment or decrement, else
/// subroutine call.
pub fn for_step_assignment(s: &[u8], pos: usize) -> (r: Option<(ForStepAssignment, usize)>)
    requires
        pos <= s.len(),
    ensures
        at(r) == for_step_assignment_at(s@, pos as int),
        r matches Some((_, e)) ==> pos < e <= s.len(),
{
    match operator_assignment(s, pos) {
        Some((x, e)) => Some((ForStepAssignment::Operator(x), e)),
        None => match inc_or_dec_expression(s, pos) {
            Some((x, e)) => Some((ForStepAssignment::IncOrDec(x), e)),
            None => match subroutine_call(s, pos) {
                Some((x, e)) => Some((ForStepAssignment::Subroutine(x), e)),
                None => None,
            },
        },
    }
}

/// A non-empty, comma-separated list of steps.
pub fn for_step(s: &[u8], pos: usize) -> (r: Option<(Vec<ForStepAssignment>, usize)>)
    requires
        pos <= s.len(),
    ensures
        r matches Some((v, _)) ==> v.len() >= 1,
        lift(r) == for_step_at(s@, pos as int),
        r matches Some((_, e)) ==> pos < e <= s.len(),
{
    let (x, k) = match for_step_assignment(s, pos) {
        Some(v) => v,
        None => {
            return None;
        },
    };
    let mut v: Vec<ForStepAssignment> = Vec::new();
    v.push(x);
    assert(v@ =~= seq![x]);
    let mut i = k;
    loop
        invariant
            v.len() >= 1,
            pos < i <= s.len(),
            for_step_at(s@, pos as int) == Some(steps_from(s@, i as int, v@)),
        decreases s.len() - i,
    {
        let next = match symbol(s, i, Tok::Comma) {
            Some(j) => for_step_assignment(s, j),
            None => None,
        };
        match next {
            Some((x, k)) => {
                v.push(x);
                i = k;
            },
            None => {
                return Some((v, i));
            },
        }
    }
}

fn slot(s: &[u8], pos: usize) -> (r: (Option<Identifier>, usize))
    requires
        pos <= s.len(),
    ensures
        (r.0, r.1 as int) == slot_at(s@, pos as int),
        pos <= r.1 <= s.len(),
{
    match identifier(s, pos) {
        Some((x, e)) => (Some(x), e),
        None => (None, pos),
    }
}

/// The slots between `[` and `]` of `foreach`, each an identifier or empty.
pub fn loop_variables(s: &[u8], pos: usize) -> (r: Option<(LoopVariables, usize)>)
    requires
        pos <= s.len(),
    ensures
        r matches Some((v, _)) ==> v.nodes.0.len() >= 1,
        lift(r) == loop_variables_at(s@, pos as int),
        r matches Some((_, e)) ==> pos <= e <= s.len(),
{
    let (x, k) = slot(s, pos);
    let mut v: Vec<Option<Identifier>> = Vec::new();
    v.push(x);
    assert(v@ =~= seq![x]);
    let mut i = k;
    loop
        invariant
            v.len() >= 1,
            pos <= i <= s.len(),
            loop_variables_at(s@, pos as int) == Some(slots_from(s@, i as int, v@)),
        decreases s.len() - i,
    {
        match symbol(s, i, Tok::Comma) {
            Some(j) => {
                let (x, k) = slot(s, j);
                v.push(x);
                i = k;
            },
            None => {
                return Some((LoopVariables { nodes: (v,) }, i));
            },
        }
    }
}

// ---------------------------------------------------------------- loop forms

pub open spec fn forever_at(s: Seq<u8>, i: int) -> Option<(LoopModel, int)>
    decreases s.len() - i, 0nat,
{
    match sym(s, i, Tok::Forever) {
        Some(a) => if i < a <= s.len() {
            match statement_or_null_at(s, a) {
                Some((body, e)) => Some((LoopModel::Forever(body), e)),
                None => None,
            }
        } else {
            None
        },
        None => None,
    }
}

/// `kw ( expression )`: the expression and the position past `)`.
pub open spec fn head_at(s: Seq<u8>, i: int, kw: Tok) -> Option<(Expression, int)> {
    match sym(s, i, kw) {
        Some(a) => match sym(s, a, Tok::LParen) {
            Some(b) => match expression_at(s, b) {
                Some((x, c)) => match sym(s, c, Tok::RParen) {
                    Some(d) => Some((x, d)),
                    None => None,
                },
                None => None,
            },
            None => None,
        },
        None => None,
    }
}

pub open spec fn repeat_at(s: Seq<u8>, i: int) -> Option<(LoopModel, int)>
    decreases s.len() - i, 0nat,
{
    match head_at(s, i, Tok::Repeat) {
        Some((x, d)) => if i < d <= s.len() {
            match statement_or_null_at(s, d) {
                Some((body, e)) => Some((LoopModel::Repeat(x, body), e)),
                None => None,
            }
        } else {
            None
        },
        None => None,
    }
}

pub open spec fn while_at(s: Seq<u8>, i: int) -> Option<(LoopModel, int)>
    decreases s.len() - i, 0nat,
{
    match head_at(s, i, Tok::While) {
        Some((x, d)) => if i < d <= s.len() {
            match statement_or_null_at(s, d) {
                Some((body, e)) => Some((LoopModel::While(x, body), e)),
                None => None,
            }
        } else {
            None
        },
        None => None,
    }
}

/// The three clauses of `for`, from just past `(` to just past `)`.
pub open spec fn for_clauses_at(s: Seq<u8>, b: int) -> Option<(
    (Option<InitModel>, Option<Expression>, Option<Seq<ForStepAssignment>>),
    int,
)> {
    let (init, c) = match for_initialization_at(s, b) {
        Some((m, e)) => (Some(m), e),
        None => (None, b),
    };
    match sym(s, c, Tok::Semi) {
        Some(d) => {
            let (cond, f) = match expression_at(s, d) {
                Some((x, e)) => (Some(x), e),
                None => (None, d),
            };
            match sym(s, f, Tok::Semi) {
                Some(g) => {
                    let (step, h) = match for_step_at(s, g) {
                        Some((v, e)) => (Some(v), e),
                        None => (None, g),
                    };
                    match sym(s, h, Tok::RParen) {
                        Some(k) => Some(((init, cond, step), k)),
                        None => None,
                    }
                },
                None => None,
            }
        },
        None => None,
    }
}

pub open spec fn for_at(s: Seq<u8>, i: int) -> Option<(LoopModel, int)>
    decreases s.len() - i, 0nat,
{
    match sym(s, i, Tok::For) {
        Some(a) => match sym(s, a, Tok::LParen) {
            Some(b) => match for_clauses_at(s, b) {
                Some(((init, cond, step), k)) => if i < k <= s.len() {
                    match statement_or_null_at(s, k) {
                        Some((body, e)) => Some((LoopModel::For(init, cond, step, body), e)),
                        None => None,
                    }
                } else {
                    None
                },
                None => None,
            },
            None => None,
        },
        None => None,
    }
}

pub open spec fn do_while_at(s: Seq<u8>, i: int) -> Option<(LoopModel, int)>
    decreases s.len() - i, 0nat,
{
    match sym(s, i, Tok::Do) {
        Some(a) => if i < a <= s.len() {
            match statement_or_null_at(s, a) {
                Some((body, b)) => match head_at(s, b, Tok::While) {
                    Some((x, c)) => match sym(s, c, Tok::Semi) {
                        Some(e) => Some((LoopModel::DoWhile(body, x), e)),
                        None => None,
                    },
                    None => None,
                },
                None => None,
            }
        } else {
            None
        },
        None => None,
    }
}

pub open spec fn foreach_at(s: Seq<u8>, i: int) -> Option<(LoopModel, int)>
    decreases s.len() - i, 0nat,
{
    match sym(s, i, Tok::Foreach) {
        Some(a) => match sym(s, a, Tok::LParen) {
            Some(b) => match array_identifier_at(s, b) {
                Some((arr, c)) => match sym(s, c, Tok::LBracket) {
                    Some(d) => match loop_variables_at(s, d) {
                        Some((vars, f)) => match sym(s, f, Tok::RBracket) {
                            Some(g) => match sym(s, g, Tok::RParen) {
                                Some(h) => if i < h <= s.len() {
                                    match statement_at(s, h) {
                                        Some((body, e)) => Some((LoopModel::Foreach(arr, vars, body), e)),
                                        None => None,
                                    }
                                } else {
                                    None
                                },
                                None => None,
                            },
                            None => None,
                        },
                        None => None,
                    },
                    None => None,
                },
                None => None,
            },
            None => None,
        },
        None => None,
    }
}

/// The loop statement at `i`: the six forms tried in a fixed order, the first
/// that matches wins.
pub open spec fn loop_statement_at(s: Seq<u8>, i: int) -> Option<(LoopModel, int)>
    decreases s.len() - i, 1nat,
{
    if forever_at(s, i) is Some {
        forever_at(s, i)
    } else if repeat_at(s, i) is Some {
        repeat_at(s, i)
    } else if while_at(s, i) is Some {
        while_at(s, i)
    } else if for_at(s, i) is Some {
        for_at(s, i)
    } else if do_while_at(s, i) is Some {
        do_while_at(s, i)
    } else {
        foreach_at(s, i)
    }
}

// ---------------------------------------------------------------- loop parsers

/// `forever body`
pub fn loop_statement_forever(s: &[u8], pos: usize) -> (r: Option<(LoopStatement, usize)>)
    requires
        pos <= s.len(),
    ensures
        lift(r) == forever_at(s@, pos as int),
        r matches Some((_, e)) ==> pos < e <= s.len() && s@[e - 1] == ';' as u8,
    decreases s.len() - pos, 0nat,
{
    let a = match symbol(s, pos, Tok::Forever) {
        Some(v) => v,
        None => {
            return None;
        },
    };
    match statement_or_null(s, a) {
        Some((body, e)) => Some((LoopStatement::Forever(LoopStatementForever { nodes: (body,) }), e)),
        None => None,
    }
}

/// `kw ( expression )`
fn head(s: &[u8], pos: usize, kw: Tok) -> (r: Option<(Expression, usize)>)
    requires
        pos <= s.len(),
    ensures
        at(r) == head_at(s@, pos as int, kw),
        r matches Some((_, e)) ==> pos < e <= s.len(),
{
    let a = match symbol(s, pos, kw) {
        Some(v) => v,
        None => {
            return None;
        },
    };
    let b = match symbol(s, a, Tok::LParen) {
        Some(v) => v,
        None => {
            return None;
        },
    };
    let (x, c) = match expression(s, b) {
        Some(v) => v,
        None => {
            return None;
        },
    };
    match symbol(s, c, Tok::RParen) {
        Some(d) => Some((x, d)),
        None => None,
    }
}

/// `repeat (count) body`
pub fn loop_statement_repeat(s: &[u8], pos: usize) -> (r: Option<(LoopStatement, usize)>)
    requires
        pos <= s.len(),
    ensures
        lift(r) == repeat_at(s@, pos as int),
        r matches Some((_, e)) ==> pos < e <= s.len() && s@[e - 1] == ';' as u8,
    decreases s.len() - pos, 0nat,
{
    let (x, d) = match head(s, pos, Tok::Repeat) {
        Some(v) => v,
        None => {
            return None;
        },
    };
    match statement_or_null(s, d) {
        Some((body, e)) => Some((LoopStatement::Repeat(LoopStatementRepeat { nodes: (x, body) }), e)),
        None => None,
    }
}

/// `while (condition) body`
pub fn loop_statement_while(s: &[u8], pos: usize) -> (r: Option<(LoopStatement, usize)>)
    requires
        pos <= s.len(),
    ensures
        lift(r) == while_at(s@, pos as int),
        r matches Some((_, e)) ==> pos < e <= s.len() && s@[e - 1] == ';' as u8,
    decreases s.len() - pos, 0nat,
{
    let (x, d) = match head(s, pos, Tok::While) {
        Some(v) => v,
        None => {
            return None;
        },
    };
    match statement_or_null(s, d) {
        Some((body, e)) => Some((LoopStatement::While(LoopStatementWhile { nodes: (x, body) }), e)),
        None => None,
    }
}

/// `for (init; condition; step) body`; each clause may be left out, the two
/// `;` may not.
pub fn loop_statement_for(s: &[u8], pos: usize) -> (r: Option<(LoopStatement, usize)>)
    requires
        pos <= s.len(),
    ensures
        lift(r) == for_at(s@, pos as int),
        r matches Some((_, e)) ==> pos < e <= s.len() && s@[e - 1] == ';' as u8,
    decreases s.len() - pos, 0nat,
{
    let a = match symbol(s, pos, Tok::For) {
        Some(v) => v,
        None => {
            return None;
        },
    };
    let b = match symbol(s, a, Tok::LParen) {
        Some(v) => v,
        None => {
            return None;
        },
    };
    let (init, c) = match for_initialization(s, b) {
        Some((m, e)) => (Some(m), e),
        None => (None, b),
    };
    let d = match symbol(s, c, Tok::Semi) {
        Some(v) => v,
        None => {
            return None;
        },
    };
    let (cond, f) = match expression(s, d) {
        Some((x, e)) => (Some(x), e),
        None => (None, d),
    };
    let g = match symbol(s, f, Tok::Semi) {
        Some(v) => v,
        None => {
            return None;
        },
    };
    let (step, h) = match for_step(s, g) {
        Some((v, e)) => (Some(v), e),
        None => (None, g),
    };
    let k = match symbol(s, h, Tok::RParen) {
        Some(v) => v,
        None => {
            return None;
        },
    };
    match statement_or_null(s, k) {
        Some((body, e)) => Some((LoopStatement::For(LoopStatementFor { nodes: (init, cond, step, body) }), e)),
        None => None,
    }
}

/// `do body while (condition);`
pub fn loop_statement_do_while(s: &[u8], pos: usize) -> (r: Option<(LoopStatement, usize)>)
    requires
        pos <= s.len(),
    ensures
        lift(r) == do_while_at(s@, pos as int),
        r matches Some((_, e)) ==> pos < e <= s.len() && s@[e - 1] == ';' as u8,
    decreases s.len() - pos, 0nat,
{
    let a = match symbol(s, pos, Tok::Do) {
        Some(v) => v,
        None => {
            return None;
        },
    };
    let (body, b) = match statement_or_null(s, a) {
        Some(v) => v,
        None => {
            return None;
        },
    };
    let (x, c) = match head(s, b, Tok::While) {
        Some(v) => v,
        None => {
            return None;
        },
    };
    match symbol(s, c, Tok::Semi) {
        Some(e) => Some((LoopStatement::DoWhile(LoopStatementDoWhile { nodes: (body, x) }), e)),
        None => None,
    }
}

/// `foreach (array[variables]) body`; the body is a statement, never a bare `;`.
pub fn loop_statement_foreach(s: &[u8], pos: usize) -> (r: Option<(LoopStatement, usize)>)
    requires
        pos <= s.len(),
    ensures
        lift(r) == foreach_at(s@, pos as int),
        r matches Some((_, e)) ==> pos < e <= s.len() && s@[e - 1] == ';' as u8,
    decreases s.len() - pos, 0nat,
{
    let a = match symbol(s, pos, Tok::Foreach) {
        Some(v) => v,
        None => {
            return None;
        },
    };
    let b = match symbol(s, a, Tok::LParen) {
        Some(v) => v,
        None => {
            return None;
        },
    };
    let (arr, c) = match ps_or_hierarchical_array_identifier(s, b) {
        Some(v) => v,
        None => {
            return None;
        },
    };
    let d = match symbol(s, c, Tok::LBracket) {
        Some(v) => v,
        None => {
            return None;
        },
    };
    let (vars, f) = match loop_variables(s, d) {
        Some(v) => v,
        None => {
            return None;
        },
    };
    let g = match symbol(s, f, Tok::RBracket) {
        Some(v) => v,
        None => {
            return None;
        },
    };
    let h = match symbol(s, g, Tok::RParen) {
        Some(v) => v,
        None => {
            return None;
        },
    };
    match statement(s, h) {
        Some((body, e)) => Some((LoopStatement::Foreach(LoopStatementForeach { nodes: (arr, vars, body) }), e)),
        None => None,
    }
}

/// The loop statement at `pos`, if there is one: `forever`, `repeat`, `while`,
/// `for`, `do` and `foreach` are tried in that order.
///
/// On success the statement is exactly `s[pos..e]` (leading trivia included),
/// it ends with its terminating `;`, and `s[e..]` is the untouched rest. On
/// failure nothing is built, and the answer depends on `s` and `pos` alone.
pub fn loop_statement(s: &[u8], pos: usize) -> (r: Option<(LoopStatement, usize)>)
    requires
        pos <= s.len(),
    ensures
        lift(r) == loop_statement_at(s@, pos as int),
        r matches Some((_, e)) ==> pos < e <= s.len() && s@[e - 1] == ';' as u8,
    decreases s.len() - pos, 1nat,
{
    if let Some(v) = loop_statement_forever(s, pos) {
        return Some(v);
    }
    if let Some(v) = loop_statement_repeat(s, pos) {
        return Some(v);
    }
    if let Some(v) = loop_statement_while(s, pos) {
        return Some(v);
    }
    if let Some(v) = loop_statement_for(s, pos) {
        return Some(v);
    }
    if let Some(v) = loop_statement_do_while(s, pos) {
        return Some(v);
    }
    loop_statement_foreach(s, pos)
}

} // verus!
