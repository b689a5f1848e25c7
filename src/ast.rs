//! The loop statement nodes, and their models: the same trees with sequences
//! in place of vectors.
use vstd::prelude::*;
use crate::terms::{
    ArrayNameModel,    DataType, Expression, Identifier, IncOrDecExpression, OperatorAssignment,
    PsOrHierarchicalArrayIdentifier, Statement, StatementOrNull, SubroutineCall, VariableAssignment,
};

verus! {

#[derive(Debug)]
pub enum LoopStatement {
    Forever(LoopStatementForever),
    Repeat(LoopStatementRepeat),
    While(LoopStatementWhile),
    For(LoopStatementFor),
    DoWhile(LoopStatementDoWhile),
    Foreach(LoopStatementForeach),
}

/// `forever body`
#[derive(Debug)]
pub struct LoopStatementForever {
    pub nodes: (StatementOrNull,),
}

/// `repeat (count) body`
#[derive(Debug)]
pub struct LoopStatementRepeat {
    pub nodes: (Expression, StatementOrNull),
}

/// `while (condition) body`
#[derive(Debug)]
pub struct LoopStatementWhile {
    pub nodes: (Expression, StatementOrNull),
}

/// `for (init; condition; step) body`, each clause optional.
#[derive(Debug)]
pub struct LoopStatementFor {
    pub nodes: (
        Option<ForInitialization>,
        Option<Expression>,
        Option<Vec<ForStepAssignment>>,
        StatementOrNull,
    ),
}

/// `do body while (condition);`
#[derive(Debug)]
pub struct LoopStatementDoWhile {
    pub nodes: (StatementOrNull, Expression),
}

/// `foreach (array[variables]) body`
#[derive(Debug)]
pub struct LoopStatementForeach {
    pub nodes: (PsOrHierarchicalArrayIdentifier, LoopVariables, Statement),
}

#[derive(Debug)]
pub enum ForInitialization {
    Assignment(Vec<VariableAssignment>),
    Declaration(Vec<ForVariableDeclaration>),
}

/// `[var] type name = expr, name = expr, ...`
#[derive(Debug)]
pub struct ForVariableDeclaration {
    pub nodes: (Option<Var>, DataType, Vec<(Identifier, Expression)>),
}

/// The `var` marker of a declaration.
#[derive(Clone, Copy, PartialEq, Eq, Structural, Debug)]
pub struct Var {}

#[derive(Clone, Copy, PartialEq, Eq, Structural, Debug)]
pub enum ForStepAssignment {
    Operator(OperatorAssignment),
    IncOrDec(IncOrDecExpression),
    Subroutine(SubroutineCall),
}

/// One slot per array dimension; `None` leaves that dimension unbound.
#[derive(Debug)]
pub struct LoopVariables {
    pub nodes: (Vec<Option<Identifier>>,),
}

pub enum LoopModel {
    Forever(StatementOrNull),
    Repeat(Expression, StatementOrNull),
    While(Expression, StatementOrNull),
    For(Option<InitModel>, Option<Expression>, Option<Seq<ForStepAssignment>>, StatementOrNull),
    DoWhile(StatementOrNull, Expression),
    Foreach(ArrayNameModel, Seq<Option<Identifier>>, Statement),
}

pub enum InitModel {
    Assignment(Seq<VariableAssignment>),
    Declaration(Seq<DeclModel>),
}

pub struct DeclModel {
    pub var: bool,
    pub data_type: DataType,
    pub pairs: Seq<(Identifier, Expression)>,
}

impl View for ForVariableDeclaration {
    type V = DeclModel;

    open spec fn view(&self) -> DeclModel {
        DeclModel { var: self.nodes.0 is Some, data_type: self.nodes.1, pairs: self.nodes.2@ }
    }
}

pub open spec fn decls_view(v: Seq<ForVariableDeclaration>) -> Seq<DeclModel> {
    v.map_values(|d: ForVariableDeclaration| d@)
}

impl View for ForInitialization {
    type V = InitModel;

    open spec fn view(&self) -> InitModel {
        match self {
            ForInitialization::Assignment(v) => InitModel::Assignment(v@),
            ForInitialization::Declaration(v) => InitModel::Declaration(decls_view(v@)),
        }
    }
}

impl View for LoopVariables {
    type V = Seq<Option<Identifier>>;

    open spec fn view(&self) -> Seq<Option<Identifier>> {
        self.nodes.0@
    }
}

impl View for LoopStatement {
    type V = LoopModel;

    open spec fn view(&self) -> LoopModel {
        match self {
            LoopStatement::Forever(x) => LoopModel::Forever(x.nodes.0),
            LoopStatement::Repeat(x) => LoopModel::Repeat(x.nodes.0, x.nodes.1),
            LoopStatement::While(x) => LoopModel::While(x.nodes.0, x.nodes.1),
            LoopStatement::For(x) => LoopModel::For(
                match x.nodes.0 {
                    Some(init) => Some(init@),
                    None => None,
                },
                x.nodes.1,
                match x.nodes.2 {
                    Some(steps) => Some(steps@),
                    None => None,
                },
                x.nodes.3,
            ),
            LoopStatement::DoWhile(x) => LoopModel::DoWhile(x.nodes.0, x.nodes.1),
            LoopStatement::Foreach(x) => LoopModel::Foreach(x.nodes.0@, x.nodes.1@, x.nodes.2),
        }
    }
}

/// A parse result seen through the views of its node.
pub open spec fn lift<T: View>(r: Option<(T, usize)>) -> Option<(T::V, int)> {
    match r {
        Some((v, e)) => Some((v@, e as int)),
        None => None,
    }
}

} // verus!
