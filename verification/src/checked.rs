//! The complexity of a statement sequence, computed without the assumption
//! that it fits the machine's integer.

use crate::rules::{
    cases_cost_upto, clauses_cost, clauses_cost_upto, handlers_cost, handlers_cost_upto,
    match_cost, statement_cost, suite_cost, suite_cost_upto,
};
use crate::syntax::{
    cases_view, clauses_view, handlers_view, suite_view, Case, ElifElse, Handler, Statement,
};
use vstd::prelude::*;

verus! {

/// A count as a machine integer, or `None` where it does not fit.
pub open spec fn checked(count: nat) -> Option<usize> {
    if count <= usize::MAX {
        Some(count as usize)
    } else {
        None
    }
}

/// The sum of two counts, `None` where either is missing or the sum does not
/// fit.
fn checked_sum(a: Option<usize>, b: Option<usize>) -> (sum: Option<usize>)
    ensures
        sum == (match (a, b) {
            (Some(x), Some(y)) => checked((x + y) as nat),
            _ => None,
        }),
{
    match (a, b) {
        (Some(x), Some(y)) => x.checked_add(y),
        _ => None,
    }
}

/// The complexity of a statement sequence, or `None` where it exceeds
/// `usize::MAX`.
pub fn checked_complexity(suite: &Vec<Statement>) -> (complexity: Option<usize>)
    ensures
        complexity == checked(suite_cost(suite_view(suite@))),
    decreases suite,
{
    let ghost tree = suite_view(suite@);
    let mut complexity: Option<usize> = Some(0);
    let mut i: usize = 0;
    while i < suite.len()
        invariant
            i <= suite.len(),
            tree == suite_view(suite@),
            complexity == checked(suite_cost_upto(tree, i as nat)),
        decreases suite.len() - i,
    {
        proof {
            assert(tree[i as int] == suite@[i as int]@);
        }
        let added: Option<usize> = checked_statement(&suite[i]);
        complexity = checked_sum(complexity, added);
        i = i + 1;
    }
    complexity
}

/// The complexity of one statement, or `None` where it exceeds `usize::MAX`.
fn checked_statement(statement: &Statement) -> (complexity: Option<usize>)
    ensures
        complexity == checked(statement_cost(statement@)),
    decreases statement,
{
    match statement {
        Statement::If { body, clauses } => {
            let inner: Option<usize> = checked_sum(Some(1), checked_complexity(body));
            checked_sum(inner, checked_clauses(clauses))
        },
        Statement::For { body, orelse } => {
            let inner: Option<usize> = checked_sum(Some(1), checked_complexity(body));
            checked_sum(inner, checked_complexity(orelse))
        },
        Statement::While { body, orelse } => {
            let inner: Option<usize> = checked_sum(Some(1), checked_complexity(body));
            checked_sum(inner, checked_complexity(orelse))
        },
        Statement::With { body } => checked_complexity(body),
        Statement::Match { cases } => checked_cases(cases),
        Statement::Try { body, handlers, orelse, finalbody } => {
            let mut complexity: Option<usize> = checked_complexity(body);
            complexity = checked_sum(complexity, checked_handlers(handlers));
            if orelse.len() > 0 {
                complexity = checked_sum(complexity, Some(1));
            }
            complexity = checked_sum(complexity, checked_complexity(orelse));
            checked_sum(complexity, checked_complexity(finalbody))
        },
        Statement::FunctionDef { name, body } => checked_sum(Some(1), checked_complexity(body)),
        Statement::ClassDef { name, body } => checked_complexity(body),
        Statement::Other => Some(0),
    }
}

/// What the clauses of an `if` add, or `None` where that exceeds
/// `usize::MAX`.
fn checked_clauses(clauses: &Vec<ElifElse>) -> (complexity: Option<usize>)
    ensures
        complexity == checked(clauses_cost(clauses_view(clauses@))),
    decreases clauses,
{
    let ghost tree = clauses_view(clauses@);
    let mut complexity: Option<usize> = Some(0);
    let mut i: usize = 0;
    while i < clauses.len()
        invariant
            i <= clauses.len(),
            tree == clauses_view(clauses@),
            complexity == checked(clauses_cost_upto(tree, i as nat)),
        decreases clauses.len() - i,
    {
        proof {
            assert(tree[i as int].body == suite_view(clauses@[i as int].body@));
            assert(tree[i as int].has_test == clauses@[i as int].has_test);
        }
        let clause = &clauses[i];
        if clause.has_test {
            complexity = checked_sum(complexity, Some(1));
        }
        complexity = checked_sum(complexity, checked_complexity(&clause.body));
        i = i + 1;
    }
    complexity
}

/// What the arms of a `match` add, or `None` where that exceeds `usize::MAX`.
fn checked_cases(cases: &Vec<Case>) -> (complexity: Option<usize>)
    ensures
        complexity == checked(match_cost(cases_view(cases@))),
    decreases cases,
{
    let ghost tree = cases_view(cases@);
    let mut complexity: Option<usize> = Some(0);
    let mut i: usize = 0;
    while i < cases.len()
        invariant
            i <= cases.len(),
            tree == cases_view(cases@),
            i < cases.len() ==> complexity == checked(cases_cost_upto(tree, i as nat)),
            i == cases.len() ==> complexity == checked(match_cost(tree)),
        decreases cases.len() - i,
    {
        proof {
            assert(tree.last() == tree[tree.len() - 1]);
            assert(tree[i as int].body == suite_view(cases@[i as int].body@));
            assert(tree[i as int].has_guard == cases@[i as int].has_guard);
            assert(tree[i as int].irrefutable == cases@[i as int].irrefutable);
        }
        let case = &cases[i];
        let catch_all: bool = i + 1 == cases.len() && !case.has_guard && case.irrefutable;
        if !catch_all {
            complexity = checked_sum(complexity, Some(1));
        }
        complexity = checked_sum(complexity, checked_complexity(&case.body));
        i = i + 1;
    }
    complexity
}

/// What the handlers of a `try` add, or `None` where that exceeds
/// `usize::MAX`.
fn checked_handlers(handlers: &Vec<Handler>) -> (complexity: Option<usize>)
    ensures
        complexity == checked(handlers_cost(handlers_view(handlers@))),
    decreases handlers,
{
    let ghost tree = handlers_view(handlers@);
    let mut complexity: Option<usize> = Some(0);
    let mut i: usize = 0;
    while i < handlers.len()
        invariant
            i <= handlers.len(),
            tree == handlers_view(handlers@),
            complexity == checked(handlers_cost_upto(tree, i as nat)),
        decreases handlers.len() - i,
    {
        proof {
            assert(tree[i as int].body == suite_view(handlers@[i as int].body@));
        }
        let handler = &handlers[i];
        complexity = checked_sum(complexity, Some(1));
        complexity = checked_sum(complexity, checked_complexity(&handler.body));
        i = i + 1;
    }
    complexity
}

} // verus!
