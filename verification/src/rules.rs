//! The complexity rules, as functions of a statement tree.
//!
//! Three things are defined for every statement sequence: its complexity
//! ([`suite_cost`]), the class names that a walk over it leaves on the scope
//! stack ([`suite_names`]), and the items that the walk reports
//! ([`suite_entries`]). The walk is depth first and in source order. A class
//! name, once pushed, stays on the stack for the rest of the walk.

use crate::report::{Context, ItemView};
use crate::syntax::{CaseView, ElifElseView, HandlerView, StatementView};
use vstd::prelude::*;

verus! {

// ---------------------------------------------------------------------------
// Complexity
// ---------------------------------------------------------------------------

/// Whether the last arm of a `match` catches every subject: it has no guard
/// and its pattern is irrefutable.
pub open spec fn ends_in_catch_all(cases: Seq<CaseView>) -> bool {
    cases.len() > 0 && !cases.last().has_guard && cases.last().irrefutable
}

/// The complexity of a statement: what the construct itself adds, plus the
/// complexity of every statement sequence nested in it.
pub open spec fn statement_cost(statement: StatementView) -> nat
    decreases statement, 0nat,
{
    match statement {
        StatementView::If { body, clauses } => 1 + suite_cost(body) + clauses_cost(clauses),
        StatementView::For { body, orelse } => 1 + suite_cost(body) + suite_cost(orelse),
        StatementView::While { body, orelse } => 1 + suite_cost(body) + suite_cost(orelse),
        StatementView::With { body } => suite_cost(body),
        StatementView::Match { cases } => match_cost(cases),
        StatementView::Try { body, handlers, orelse, finalbody } => suite_cost(body)
            + handlers_cost(handlers) + (if orelse.len() > 0 {
            1nat
        } else {
            0nat
        }) + suite_cost(orelse) + suite_cost(finalbody),
        StatementView::FunctionDef { name, body } => 1 + suite_cost(body),
        StatementView::ClassDef { name, body } => suite_cost(body),
        StatementView::Other => 0,
    }
}

/// The complexity of the first `n` statements of a sequence.
pub open spec fn suite_cost_upto(suite: Seq<StatementView>, n: nat) -> nat
    decreases suite, n,
{
    if n == 0 || n > suite.len() {
        0
    } else {
        suite_cost_upto(suite, (n - 1) as nat) + statement_cost(suite[n - 1])
    }
}

/// The complexity of a statement sequence: the sum over its statements.
pub open spec fn suite_cost(suite: Seq<StatementView>) -> nat
    decreases suite, suite.len() + 1,
{
    suite_cost_upto(suite, suite.len())
}

/// What the first `n` clauses add: one for each `elif`, nothing for an
/// `else`, and the complexity of each body.
pub open spec fn clauses_cost_upto(clauses: Seq<ElifElseView>, n: nat) -> nat
    decreases clauses, n,
{
    if n == 0 || n > clauses.len() {
        0
    } else {
        clauses_cost_upto(clauses, (n - 1) as nat) + (if clauses[n - 1].has_test {
            1nat
        } else {
            0nat
        }) + suite_cost(clauses[n - 1].body)
    }
}

pub open spec fn clauses_cost(clauses: Seq<ElifElseView>) -> nat
    decreases clauses, clauses.len() + 1,
{
    clauses_cost_upto(clauses, clauses.len())
}

/// What the first `n` arms add before any discount: one for each arm, and the
/// complexity of each body.
pub open spec fn cases_cost_upto(cases: Seq<CaseView>, n: nat) -> nat
    decreases cases, n,
{
    if n == 0 || n > cases.len() {
        0
    } else {
        cases_cost_upto(cases, (n - 1) as nat) + 1 + suite_cost(cases[n - 1].body)
    }
}

pub open spec fn cases_cost(cases: Seq<CaseView>) -> nat
    decreases cases, cases.len() + 1,
{
    cases_cost_upto(cases, cases.len())
}

/// What the arms of a `match` add: one for each arm and the complexity of
/// each body, less one where the last arm is a catch-all.
pub open spec fn match_cost(cases: Seq<CaseView>) -> nat
    decreases cases, cases.len() + 2,
{
    if ends_in_catch_all(cases) {
        (cases_cost(cases) - 1) as nat
    } else {
        cases_cost(cases)
    }
}

/// What the first `n` handlers add: one for each, and the complexity of each
/// body.
pub open spec fn handlers_cost_upto(handlers: Seq<HandlerView>, n: nat) -> nat
    decreases handlers, n,
{
    if n == 0 || n > handlers.len() {
        0
    } else {
        handlers_cost_upto(handlers, (n - 1) as nat) + 1 + suite_cost(handlers[n - 1].body)
    }
}

pub open spec fn handlers_cost(handlers: Seq<HandlerView>) -> nat
    decreases handlers, handlers.len() + 1,
{
    handlers_cost_upto(handlers, handlers.len())
}

// ---------------------------------------------------------------------------
// Class names pushed on the scope stack
// ---------------------------------------------------------------------------

/// The class names that a walk over a statement pushes, in the order in
/// which it meets the class definitions.
pub open spec fn statement_names(statement: StatementView) -> Seq<Seq<char>>
    decreases statement, 0nat,
{
    match statement {
        StatementView::If { body, clauses } => suite_names(body) + clauses_names(clauses),
        StatementView::For { body, orelse } => suite_names(body) + suite_names(orelse),
        StatementView::While { body, orelse } => suite_names(body) + suite_names(orelse),
        StatementView::With { body } => suite_names(body),
        StatementView::Match { cases } => cases_names(cases),
        StatementView::Try { body, handlers, orelse, finalbody } => suite_names(body)
            + handlers_names(handlers) + suite_names(orelse) + suite_names(finalbody),
        StatementView::FunctionDef { name, body } => suite_names(body),
        StatementView::ClassDef { name, body } => seq![name] + suite_names(body),
        StatementView::Other => Seq::empty(),
    }
}

pub open spec fn suite_names_upto(suite: Seq<StatementView>, n: nat) -> Seq<Seq<char>>
    decreases suite, n,
{
    if n == 0 || n > suite.len() {
        Seq::empty()
    } else {
        suite_names_upto(suite, (n - 1) as nat) + statement_names(suite[n - 1])
    }
}

pub open spec fn suite_names(suite: Seq<StatementView>) -> Seq<Seq<char>>
    decreases suite, suite.len() + 1,
{
    suite_names_upto(suite, suite.len())
}

pub open spec fn clauses_names_upto(clauses: Seq<ElifElseView>, n: nat) -> Seq<Seq<char>>
    decreases clauses, n,
{
    if n == 0 || n > clauses.len() {
        Seq::empty()
    } else {
        clauses_names_upto(clauses, (n - 1) as nat) + suite_names(clauses[n - 1].body)
    }
}

pub open spec fn clauses_names(clauses: Seq<ElifElseView>) -> Seq<Seq<char>>
    decreases clauses, clauses.len() + 1,
{
    clauses_names_upto(clauses, clauses.len())
}

pub open spec fn cases_names_upto(cases: Seq<CaseView>, n: nat) -> Seq<Seq<char>>
    decreases cases, n,
{
    if n == 0 || n > cases.len() {
        Seq::empty()
    } else {
        cases_names_upto(cases, (n - 1) as nat) + suite_names(cases[n - 1].body)
    }
}

pub open spec fn cases_names(cases: Seq<CaseView>) -> Seq<Seq<char>>
    decreases cases, cases.len() + 1,
{
    cases_names_upto(cases, cases.len())
}

pub open spec fn handlers_names_upto(handlers: Seq<HandlerView>, n: nat) -> Seq<Seq<char>>
    decreases handlers, n,
{
    if n == 0 || n > handlers.len() {
        Seq::empty()
    } else {
        handlers_names_upto(handlers, (n - 1) as nat) + suite_names(handlers[n - 1].body)
    }
}

pub open spec fn handlers_names(handlers: Seq<HandlerView>) -> Seq<Seq<char>>
    decreases handlers, handlers.len() + 1,
{
    handlers_names_upto(handlers, handlers.len())
}

// ---------------------------------------------------------------------------
// Reported items
// ---------------------------------------------------------------------------

/// The items that a walk over a statement reports, in order, when it starts
/// in `context` with `scope` on the stack.
///
/// A function definition is reported unless `context` is
/// [`Context::Function`]. Its item follows the items reported from inside its
/// body, carries the stack as it stands after the body, and has complexity
/// one plus that of the body.
pub open spec fn statement_entries(
    statement: StatementView,
    context: Context,
    scope: Seq<Seq<char>>,
) -> Seq<ItemView>
    decreases statement, 0nat,
{
    match statement {
        StatementView::If { body, clauses } => suite_entries(body, context, scope)
            + clauses_entries(clauses, context, scope + suite_names(body)),
        StatementView::For { body, orelse } => suite_entries(body, context, scope)
            + suite_entries(orelse, context, scope + suite_names(body)),
        StatementView::While { body, orelse } => suite_entries(body, context, scope)
            + suite_entries(orelse, context, scope + suite_names(body)),
        StatementView::With { body } => suite_entries(body, context, scope),
        StatementView::Match { cases } => cases_entries(cases, context, scope),
        StatementView::Try { body, handlers, orelse, finalbody } => suite_entries(
            body,
            context,
            scope,
        ) + handlers_entries(handlers, context, scope + suite_names(body)) + suite_entries(
            orelse,
            context,
            scope + suite_names(body) + handlers_names(handlers),
        ) + suite_entries(
            finalbody,
            context,
            scope + suite_names(body) + handlers_names(handlers) + suite_names(orelse),
        ),
        StatementView::FunctionDef { name, body } => suite_entries(
            body,
            Context::Function,
            scope,
        ) + (if context != Context::Function {
            seq![
                ItemView {
                    scope: scope + suite_names(body),
                    name: name,
                    complexity: 1 + suite_cost(body),
                },
            ]
        } else {
            Seq::empty()
        }),
        StatementView::ClassDef { name, body } => suite_entries(
            body,
            Context::Class,
            scope.push(name),
        ),
        StatementView::Other => Seq::empty(),
    }
}

pub open spec fn suite_entries_upto(
    suite: Seq<StatementView>,
    n: nat,
    context: Context,
    scope: Seq<Seq<char>>,
) -> Seq<ItemView>
    decreases suite, n,
{
    if n == 0 || n > suite.len() {
        Seq::empty()
    } else {
        suite_entries_upto(suite, (n - 1) as nat, context, scope) + statement_entries(
            suite[n - 1],
            context,
            scope + suite_names_upto(suite, (n - 1) as nat),
        )
    }
}

/// The items that a walk over a statement sequence reports, in order.
pub open spec fn suite_entries(
    suite: Seq<StatementView>,
    context: Context,
    scope: Seq<Seq<char>>,
) -> Seq<ItemView>
    decreases suite, suite.len() + 1,
{
    suite_entries_upto(suite, suite.len(), context, scope)
}

pub open spec fn clauses_entries_upto(
    clauses: Seq<ElifElseView>,
    n: nat,
    context: Context,
    scope: Seq<Seq<char>>,
) -> Seq<ItemView>
    decreases clauses, n,
{
    if n == 0 || n > clauses.len() {
        Seq::empty()
    } else {
        clauses_entries_upto(clauses, (n - 1) as nat, context, scope) + suite_entries(
            clauses[n - 1].body,
            context,
            scope + clauses_names_upto(clauses, (n - 1) as nat),
        )
    }
}

pub open spec fn clauses_entries(
    clauses: Seq<ElifElseView>,
    context: Context,
    scope: Seq<Seq<char>>,
) -> Seq<ItemView>
    decreases clauses, clauses.len() + 1,
{
    clauses_entries_upto(clauses, clauses.len(), context, scope)
}

pub open spec fn cases_entries_upto(
    cases: Seq<CaseView>,
    n: nat,
    context: Context,
    scope: Seq<Seq<char>>,
) -> Seq<ItemView>
    decreases cases, n,
{
    if n == 0 || n > cases.len() {
        Seq::empty()
    } else {
        cases_entries_upto(cases, (n - 1) as nat, context, scope) + suite_entries(
            cases[n - 1].body,
            context,
            scope + cases_names_upto(cases, (n - 1) as nat),
        )
    }
}

pub open spec fn cases_entries(
    cases: Seq<CaseView>,
    context: Context,
    scope: Seq<Seq<char>>,
) -> Seq<ItemView>
    decreases cases, cases.len() + 1,
{
    cases_entries_upto(cases, cases.len(), context, scope)
}

pub open spec fn handlers_entries_upto(
    handlers: Seq<HandlerView>,
    n: nat,
    context: Context,
    scope: Seq<Seq<char>>,
) -> Seq<ItemView>
    decreases handlers, n,
{
    if n == 0 || n > handlers.len() {
        Seq::empty()
    } else {
        handlers_entries_upto(handlers, (n - 1) as nat, context, scope) + suite_entries(
            handlers[n - 1].body,
            context,
            scope + handlers_names_upto(handlers, (n - 1) as nat),
        )
    }
}

pub open spec fn handlers_entries(
    handlers: Seq<HandlerView>,
    context: Context,
    scope: Seq<Seq<char>>,
) -> Seq<ItemView>
    decreases handlers, handlers.len() + 1,
{
    handlers_entries_upto(handlers, handlers.len(), context, scope)
}

// ---------------------------------------------------------------------------
// Complexity grows along a sequence
// ---------------------------------------------------------------------------

/// The first `i` statements of a sequence cost at most what the first `j` do,
/// for `i <= j`.
pub proof fn lemma_suite_cost_upto_monotonic(suite: Seq<StatementView>, i: nat, j: nat)
    requires
        i <= j <= suite.len(),
    ensures
        suite_cost_upto(suite, i) <= suite_cost_upto(suite, j),
    decreases j,
{
    if i < j {
        lemma_suite_cost_upto_monotonic(suite, i, (j - 1) as nat);
    }
}

/// The first `i` clauses cost at most what the first `j` do, for `i <= j`.
pub proof fn lemma_clauses_cost_upto_monotonic(clauses: Seq<ElifElseView>, i: nat, j: nat)
    requires
        i <= j <= clauses.len(),
    ensures
        clauses_cost_upto(clauses, i) <= clauses_cost_upto(clauses, j),
    decreases j,
{
    if i < j {
        lemma_clauses_cost_upto_monotonic(clauses, i, (j - 1) as nat);
    }
}

/// The first `i` arms cost at most what the first `j` do, for `i <= j`.
pub proof fn lemma_cases_cost_upto_monotonic(cases: Seq<CaseView>, i: nat, j: nat)
    requires
        i <= j <= cases.len(),
    ensures
        cases_cost_upto(cases, i) <= cases_cost_upto(cases, j),
    decreases j,
{
    if i < j {
        lemma_cases_cost_upto_monotonic(cases, i, (j - 1) as nat);
    }
}

/// The first `i` handlers cost at most what the first `j` do, for `i <= j`.
pub proof fn lemma_handlers_cost_upto_monotonic(handlers: Seq<HandlerView>, i: nat, j: nat)
    requires
        i <= j <= handlers.len(),
    ensures
        handlers_cost_upto(handlers, i) <= handlers_cost_upto(handlers, j),
    decreases j,
{
    if i < j {
        lemma_handlers_cost_upto_monotonic(handlers, i, (j - 1) as nat);
    }
}

} // verus!
