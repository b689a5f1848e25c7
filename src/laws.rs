//! Properties of the loop grammar that relate several of its parsers.
use vstd::prelude::*;
use crate::ast::{DeclModel, InitModel};
use crate::lexer::{is_letter, is_type_word, sym, tok_bytes, word_at, ws_end, text, Tok};
use crate::looping::{
    assignment_list_at, assignments_from, declaration_list_at, declarations_from, do_while_at,
    for_at, for_initialization_at, for_variable_declaration_at, forever_at, foreach_at,
    loop_statement_at, pair_of, pairs_from, repeat_at, while_at,
};
use crate::terms::{data_type_at, identifier_at, variable_assignment_at, Expression, Identifier, VariableAssignment};

verus! {

/// The `(name, value)` pairs of a list of assignments.
pub open spec fn pairs_of(v: Seq<VariableAssignment>) -> Seq<(Identifier, Expression)> {
    v.map_values(|x: VariableAssignment| pair_of(x))
}

/// The `var` marker is not a data type.
proof fn lemma_var_is_no_type()
    ensures
        !is_type_word(tok_bytes(Tok::Var)),
{
    assert(tok_bytes(Tok::Var)[0] == 'v' as u8);
    assert(tok_bytes(Tok::Bit)[0] == 'b' as u8);
    assert(tok_bytes(Tok::Reg)[0] == 'r' as u8);
    assert(tok_bytes(Tok::Int)[0] == 'i' as u8);
    assert(tok_bytes(Tok::Var).len() == 3);
    assert(tok_bytes(Tok::Logic).len() == 5);
    assert(tok_bytes(Tok::Byte).len() == 4);
    assert(tok_bytes(Tok::Shortint).len() == 8);
    assert(tok_bytes(Tok::Longint).len() == 7);
    assert(tok_bytes(Tok::Integer).len() == 7);
}

/// The pairs of a declaration follow the same steps as a list of assignments.
proof fn lemma_pairs_follow_assignments(s: Seq<u8>, k: int, acc: Seq<VariableAssignment>)
    ensures
        pairs_from(s, k, pairs_of(acc)) == (
            pairs_of(assignments_from(s, k, acc).0),
            assignments_from(s, k, acc).1,
        ),
    decreases s.len() - k,
{
    match sym(s, k, Tok::Comma) {
        Some(j) => match variable_assignment_at(s, j) {
            Some((x, k2)) => if k < k2 <= s.len() {
                lemma_pairs_follow_assignments(s, k2, acc.push(x));
                assert(pairs_of(acc.push(x)) =~= pairs_of(acc).push(pair_of(x)));
            },
            None => {},
        },
        None => {},
    }
}

/// Disambiguation of the `for` initializer: when a data type (a type keyword
/// or a type name) is put before a list of assignments that no `,` follows,
/// the result is a single declaration of that type, without `var`, with the
/// same names and values in the same order; it is never read as a list of
/// assignments.
pub proof fn lemma_typed_assignments_declare(
    s: Seq<u8>,
    i: int,
    dt: crate::terms::DataType,
    j: int,
    v: Seq<VariableAssignment>,
    e: int,
)
    requires
        0 <= i <= s.len(),
        data_type_at(s, i) == Some((dt, j)),
        assignment_list_at(s, j) == Some((v, e)),
        sym(s, e, Tok::Comma) is None,
    ensures
        for_initialization_at(s, i) == Some((
            InitModel::Declaration(seq![DeclModel { var: false, data_type: dt, pairs: pairs_of(v) }]),
            e,
        )),
{
    lemma_var_is_no_type();
    let sp = word_at(s, i)->0;
    assert(text(s, sp) != tok_bytes(Tok::Var));
    assert(sym(s, i, Tok::Var) is None);
    // The word after the type starts a name, so no `=` can follow the type.
    let k = ws_end(s, j);
    assert(identifier_at(s, j) is Some);
    assert(is_letter(s[k]));
    if sym(s, j, Tok::Assign) is Some {
        assert(s.subrange(k, k + 1)[0] == s[k]);
        assert(tok_bytes(Tok::Assign)[0] == '=' as u8);
    }
    assert(variable_assignment_at(s, i) is None);
    assert(assignment_list_at(s, i) is None);
    let (x, c) = variable_assignment_at(s, j)->0;
    assert(seq![x].map_values(|x: VariableAssignment| pair_of(x)) =~= seq![pair_of(x)]);
    lemma_pairs_follow_assignments(s, c, seq![x]);
    let d = DeclModel { var: false, data_type: dt, pairs: pairs_of(v) };
    assert(for_variable_declaration_at(s, i) == Some((d, e)));
    assert(declarations_from(s, e, seq![d]) == (seq![d], e));
    assert(declaration_list_at(s, i) == Some((seq![d], e)));
}

/// A failed loop statement is a failure of all six forms at that position:
/// nothing is built and the result depends on the input and the position
/// alone, so trying again gives the same answer.
pub proof fn lemma_failure_is_total(s: Seq<u8>, i: int)
    ensures
        loop_statement_at(s, i) is None <==> (forever_at(s, i) is None && repeat_at(s, i) is None
            && while_at(s, i) is None && for_at(s, i) is None && do_while_at(s, i) is None
            && foreach_at(s, i) is None),
{
}

} // verus!
