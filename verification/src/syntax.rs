//! The statement tree that the complexity rules are stated over.
//!
//! A tree keeps only what the rules read: which kind of statement a node is,
//! the statement sequences nested in it, the names of function and class
//! definitions, and the two facts about a `match` arm that decide whether it
//! is a catch-all.

use vstd::prelude::*;

verus! {

/// An `elif` or `else` clause of an `if` statement.
#[derive(Debug)]
pub struct ElifElse {
    /// `true` for `elif`, which carries a test; `false` for a bare `else`.
    pub has_test: bool,
    pub body: Vec<Statement>,
}

/// One `case` arm of a `match` statement.
#[derive(Debug)]
pub struct Case {
    /// Whether the arm has an `if` guard.
    pub has_guard: bool,
    /// Whether the arm's pattern matches every subject.
    pub irrefutable: bool,
    pub body: Vec<Statement>,
}

/// One `except` clause of a `try` statement.
#[derive(Debug)]
pub struct Handler {
    pub body: Vec<Statement>,
}

/// A statement, with the statement sequences nested in it.
#[derive(Debug)]
pub enum Statement {
    If { body: Vec<Statement>, clauses: Vec<ElifElse> },
    For { body: Vec<Statement>, orelse: Vec<Statement> },
    While { body: Vec<Statement>, orelse: Vec<Statement> },
    With { body: Vec<Statement> },
    Match { cases: Vec<Case> },
    Try {
        body: Vec<Statement>,
        handlers: Vec<Handler>,
        orelse: Vec<Statement>,
        finalbody: Vec<Statement>,
    },
    FunctionDef { name: String, body: Vec<Statement> },
    ClassDef { name: String, body: Vec<Statement> },
    /// Any statement that nests no statement sequence.
    Other,
}

/// The mathematical value of an [`ElifElse`].
pub ghost struct ElifElseView {
    pub has_test: bool,
    pub body: Seq<StatementView>,
}

/// The mathematical value of a [`Case`].
pub ghost struct CaseView {
    pub has_guard: bool,
    pub irrefutable: bool,
    pub body: Seq<StatementView>,
}

/// The mathematical value of a [`Handler`].
pub ghost struct HandlerView {
    pub body: Seq<StatementView>,
}

/// The mathematical value of a [`Statement`].
pub ghost enum StatementView {
    If { body: Seq<StatementView>, clauses: Seq<ElifElseView> },
    For { body: Seq<StatementView>, orelse: Seq<StatementView> },
    While { body: Seq<StatementView>, orelse: Seq<StatementView> },
    With { body: Seq<StatementView> },
    Match { cases: Seq<CaseView> },
    Try {
        body: Seq<StatementView>,
        handlers: Seq<HandlerView>,
        orelse: Seq<StatementView>,
        finalbody: Seq<StatementView>,
    },
    FunctionDef { name: Seq<char>, body: Seq<StatementView> },
    ClassDef { name: Seq<char>, body: Seq<StatementView> },
    Other,
}

/// The value of a statement sequence: the value of each statement, in order.
pub open spec fn suite_view(suite: Seq<Statement>) -> Seq<StatementView>
    decreases suite, 0nat,
{
    Seq::new(
        suite.len(),
        |i: int|
            if 0 <= i < suite.len() {
                statement_view(suite[i])
            } else {
                StatementView::Other
            },
    )
}

pub open spec fn clauses_view(clauses: Seq<ElifElse>) -> Seq<ElifElseView>
    decreases clauses, 0nat,
{
    Seq::new(
        clauses.len(),
        |i: int|
            if 0 <= i < clauses.len() {
                ElifElseView {
                    has_test: clauses[i].has_test,
                    body: suite_view(clauses[i].body@),
                }
            } else {
                ElifElseView { has_test: false, body: Seq::empty() }
            },
    )
}

pub open spec fn cases_view(cases: Seq<Case>) -> Seq<CaseView>
    decreases cases, 0nat,
{
    Seq::new(
        cases.len(),
        |i: int|
            if 0 <= i < cases.len() {
                CaseView {
                    has_guard: cases[i].has_guard,
                    irrefutable: cases[i].irrefutable,
                    body: suite_view(cases[i].body@),
                }
            } else {
                CaseView { has_guard: false, irrefutable: false, body: Seq::empty() }
            },
    )
}

pub open spec fn handlers_view(handlers: Seq<Handler>) -> Seq<HandlerView>
    decreases handlers, 0nat,
{
    Seq::new(
        handlers.len(),
        |i: int|
            if 0 <= i < handlers.len() {
                HandlerView { body: suite_view(handlers[i].body@) }
            } else {
                HandlerView { body: Seq::empty() }
            },
    )
}

pub open spec fn statement_view(statement: Statement) -> StatementView
    decreases statement, 1nat,
{
    match statement {
        Statement::If { body, clauses } => StatementView::If {
            body: suite_view(body@),
            clauses: clauses_view(clauses@),
        },
        Statement::For { body, orelse } => StatementView::For {
            body: suite_view(body@),
            orelse: suite_view(orelse@),
        },
        Statement::While { body, orelse } => StatementView::While {
            body: suite_view(body@),
            orelse: suite_view(orelse@),
        },
        Statement::With { body } => StatementView::With { body: suite_view(body@) },
        Statement::Match { cases } => StatementView::Match { cases: cases_view(cases@) },
        Statement::Try { body, handlers, orelse, finalbody } => StatementView::Try {
            body: suite_view(body@),
            handlers: handlers_view(handlers@),
            orelse: suite_view(orelse@),
            finalbody: suite_view(finalbody@),
        },
        Statement::FunctionDef { name, body } => StatementView::FunctionDef {
            name: name@,
            body: suite_view(body@),
        },
        Statement::ClassDef { name, body } => StatementView::ClassDef {
            name: name@,
            body: suite_view(body@),
        },
        Statement::Other => StatementView::Other,
    }
}

impl View for Statement {
    type V = StatementView;

    open spec fn view(&self) -> StatementView {
        statement_view(*self)
    }
}

} // verus!
