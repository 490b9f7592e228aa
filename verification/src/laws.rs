//! What holds of every report, whatever the statement tree.

use crate::report::{Context, ItemView};
use crate::rules::{
    cases_entries_upto, cases_names_upto, clauses_entries, clauses_entries_upto,
    clauses_names_upto, handlers_entries, handlers_entries_upto, handlers_names,
    handlers_names_upto, statement_cost, statement_entries, statement_names, suite_cost,
    suite_cost_upto, suite_entries, suite_entries_upto, suite_names, suite_names_upto,
};
use crate::syntax::{CaseView, ElifElseView, HandlerView, StatementView};
use vstd::prelude::*;
use vstd::seq_lib::lemma_concat_associative;

verus! {

/// Every item of a report has complexity at least one.
pub open spec fn all_at_least_one(items: Seq<ItemView>) -> bool {
    forall|k: int| 0 <= k < items.len() ==> (#[trigger] items[k]).complexity >= 1
}

/// Two reports that each satisfy [`all_at_least_one`] do so joined.
proof fn lemma_joined_at_least_one(first: Seq<ItemView>, second: Seq<ItemView>)
    requires
        all_at_least_one(first),
        all_at_least_one(second),
    ensures
        all_at_least_one(first + second),
{
    assert forall|k: int| 0 <= k < (first + second).len() implies (#[trigger] (first
        + second)[k]).complexity >= 1 by {
        if k < first.len() {
            assert((first + second)[k] == first[k]);
        } else {
            assert((first + second)[k] == second[k - first.len()]);
        }
    }
}

/// A function definition has complexity at least one.
pub proof fn lemma_function_cost_at_least_one(name: Seq<char>, body: Seq<StatementView>)
    ensures
        statement_cost(StatementView::FunctionDef { name, body }) >= 1,
{
}

/// A function definition with an empty body has complexity one, and where it
/// is reported, that is the complexity of its item.
pub proof fn lemma_empty_function(name: Seq<char>, context: Context, scope: Seq<Seq<char>>)
    ensures
        statement_cost(StatementView::FunctionDef { name, body: Seq::empty() }) == 1,
        context != Context::Function ==> statement_entries(
            StatementView::FunctionDef { name, body: Seq::empty() },
            context,
            scope,
        ) == seq![ItemView { scope, name, complexity: 1 }],
        context == Context::Function ==> statement_entries(
            StatementView::FunctionDef { name, body: Seq::empty() },
            context,
            scope,
        ) == Seq::<ItemView>::empty(),
{
    let body = Seq::<StatementView>::empty();
    let statement = StatementView::FunctionDef { name, body };
    assert(suite_cost(body) == 0);
    assert(suite_names(body) =~= Seq::empty());
    assert(scope + suite_names(body) =~= scope);
    assert(suite_entries(body, Context::Function, scope) =~= Seq::empty());
    if context != Context::Function {
        assert(statement_entries(statement, context, scope) =~= seq![
            ItemView { scope, name, complexity: 1 },
        ]);
    } else {
        assert(statement_entries(statement, context, scope) =~= Seq::<ItemView>::empty());
    }
}

/// A function definition met in a function is counted but not reported: the
/// walk reports only what its body gives.
pub proof fn lemma_function_in_function(
    name: Seq<char>,
    body: Seq<StatementView>,
    scope: Seq<Seq<char>>,
)
    ensures
        statement_cost(StatementView::FunctionDef { name, body }) == 1 + suite_cost(body),
        statement_entries(StatementView::FunctionDef { name, body }, Context::Function, scope)
            == suite_entries(body, Context::Function, scope),
{
    let inside = suite_entries(body, Context::Function, scope);
    assert(inside + Seq::<ItemView>::empty() =~= inside);
}

/// A class definition is never reported and adds nothing of its own: the walk
/// pushes its name, then reports and counts what its body gives.
pub proof fn lemma_class_definition(
    name: Seq<char>,
    body: Seq<StatementView>,
    context: Context,
    scope: Seq<Seq<char>>,
)
    ensures
        statement_cost(StatementView::ClassDef { name, body }) == suite_cost(body),
        statement_names(StatementView::ClassDef { name, body }) == seq![name] + suite_names(body),
        statement_entries(StatementView::ClassDef { name, body }, context, scope)
            == suite_entries(body, Context::Class, scope.push(name)),
{
}

/// Every item that a walk over a statement reports has complexity at least
/// one.
pub proof fn lemma_statement_entries_at_least_one(
    statement: StatementView,
    context: Context,
    scope: Seq<Seq<char>>,
)
    ensures
        all_at_least_one(statement_entries(statement, context, scope)),
    decreases statement, 0nat,
{
    match statement {
        StatementView::If { body, clauses } => {
            lemma_suite_entries_at_least_one(body, context, scope);
            lemma_clauses_entries_at_least_one(
                clauses,
                clauses.len(),
                context,
                scope + suite_names(body),
            );
            lemma_joined_at_least_one(
                suite_entries(body, context, scope),
                clauses_entries(clauses, context, scope + suite_names(body)),
            );
        },
        StatementView::For { body, orelse } => {
            lemma_suite_entries_at_least_one(body, context, scope);
            lemma_suite_entries_at_least_one(orelse, context, scope + suite_names(body));
            lemma_joined_at_least_one(
                suite_entries(body, context, scope),
                suite_entries(orelse, context, scope + suite_names(body)),
            );
        },
        StatementView::While { body, orelse } => {
            lemma_suite_entries_at_least_one(body, context, scope);
            lemma_suite_entries_at_least_one(orelse, context, scope + suite_names(body));
            lemma_joined_at_least_one(
                suite_entries(body, context, scope),
                suite_entries(orelse, context, scope + suite_names(body)),
            );
        },
        StatementView::With { body } => {
            lemma_suite_entries_at_least_one(body, context, scope);
        },
        StatementView::Match { cases } => {
            lemma_cases_entries_at_least_one(cases, cases.len(), context, scope);
        },
        StatementView::Try { body, handlers, orelse, finalbody } => {
            let scope_h = scope + suite_names(body);
            let scope_e = scope_h + handlers_names(handlers);
            let scope_f = scope_e + suite_names(orelse);
            lemma_suite_entries_at_least_one(body, context, scope);
            lemma_handlers_entries_at_least_one(handlers, handlers.len(), context, scope_h);
            lemma_suite_entries_at_least_one(orelse, context, scope_e);
            lemma_suite_entries_at_least_one(finalbody, context, scope_f);
            let eb = suite_entries(body, context, scope);
            let eh = handlers_entries(handlers, context, scope_h);
            let ee = suite_entries(orelse, context, scope_e);
            let ef = suite_entries(finalbody, context, scope_f);
            lemma_joined_at_least_one(eb, eh);
            lemma_joined_at_least_one(eb + eh, ee);
            lemma_joined_at_least_one(eb + eh + ee, ef);
        },
        StatementView::FunctionDef { name, body } => {
            lemma_suite_entries_at_least_one(body, Context::Function, scope);
            let own = if context != Context::Function {
                seq![
                    ItemView {
                        scope: scope + suite_names(body),
                        name: name,
                        complexity: 1 + suite_cost(body),
                    },
                ]
            } else {
                Seq::empty()
            };
            assert(all_at_least_one(own));
            lemma_joined_at_least_one(suite_entries(body, Context::Function, scope), own);
        },
        StatementView::ClassDef { name, body } => {
            lemma_suite_entries_at_least_one(body, Context::Class, scope.push(name));
        },
        StatementView::Other => {},
    }
}

/// Every item that a walk over a statement sequence reports has complexity
/// at least one.
pub proof fn lemma_suite_entries_at_least_one(
    suite: Seq<StatementView>,
    context: Context,
    scope: Seq<Seq<char>>,
)
    ensures
        all_at_least_one(suite_entries(suite, context, scope)),
    decreases suite, suite.len() + 1,
{
    lemma_suite_prefix_at_least_one(suite, suite.len(), context, scope);
}

proof fn lemma_suite_prefix_at_least_one(
    suite: Seq<StatementView>,
    n: nat,
    context: Context,
    scope: Seq<Seq<char>>,
)
    requires
        n <= suite.len(),
    ensures
        all_at_least_one(suite_entries_upto(suite, n, context, scope)),
    decreases suite, n,
{
    if n > 0 {
        let before = (n - 1) as nat;
        let scope_n = scope + suite_names_upto(suite, before);
        lemma_suite_prefix_at_least_one(suite, before, context, scope);
        lemma_statement_entries_at_least_one(suite[n - 1], context, scope_n);
        lemma_joined_at_least_one(
            suite_entries_upto(suite, before, context, scope),
            statement_entries(suite[n - 1], context, scope_n),
        );
    }
}

proof fn lemma_clauses_entries_at_least_one(
    clauses: Seq<ElifElseView>,
    n: nat,
    context: Context,
    scope: Seq<Seq<char>>,
)
    requires
        n <= clauses.len(),
    ensures
        all_at_least_one(clauses_entries_upto(clauses, n, context, scope)),
    decreases clauses, n,
{
    if n > 0 {
        let before = (n - 1) as nat;
        let scope_n = scope + clauses_names_upto(clauses, before);
        lemma_clauses_entries_at_least_one(clauses, before, context, scope);
        lemma_suite_entries_at_least_one(clauses[n - 1].body, context, scope_n);
        lemma_joined_at_least_one(
            clauses_entries_upto(clauses, before, context, scope),
            suite_entries(clauses[n - 1].body, context, scope_n),
        );
    }
}

proof fn lemma_cases_entries_at_least_one(
    cases: Seq<CaseView>,
    n: nat,
    context: Context,
    scope: Seq<Seq<char>>,
)
    requires
        n <= cases.len(),
    ensures
        all_at_least_one(cases_entries_upto(cases, n, context, scope)),
    decreases cases, n,
{
    if n > 0 {
        let before = (n - 1) as nat;
        let scope_n = scope + cases_names_upto(cases, before);
        lemma_cases_entries_at_least_one(cases, before, context, scope);
        lemma_suite_entries_at_least_one(cases[n - 1].body, context, scope_n);
        lemma_joined_at_least_one(
            cases_entries_upto(cases, before, context, scope),
            suite_entries(cases[n - 1].body, context, scope_n),
        );
    }
}

proof fn lemma_handlers_entries_at_least_one(
    handlers: Seq<HandlerView>,
    n: nat,
    context: Context,
    scope: Seq<Seq<char>>,
)
    requires
        n <= handlers.len(),
    ensures
        all_at_least_one(handlers_entries_upto(handlers, n, context, scope)),
    decreases handlers, n,
{
    if n > 0 {
        let before = (n - 1) as nat;
        let scope_n = scope + handlers_names_upto(handlers, before);
        lemma_handlers_entries_at_least_one(handlers, before, context, scope);
        lemma_suite_entries_at_least_one(handlers[n - 1].body, context, scope_n);
        lemma_joined_at_least_one(
            handlers_entries_upto(handlers, before, context, scope),
            suite_entries(handlers[n - 1].body, context, scope_n),
        );
    }
}

/// What the first `n` statements of `first + second` give is what the first
/// `n` of `first` give, for `n` within `first`.
proof fn lemma_prefix_of_joined(
    first: Seq<StatementView>,
    second: Seq<StatementView>,
    n: nat,
    context: Context,
    scope: Seq<Seq<char>>,
)
    requires
        n <= first.len(),
    ensures
        suite_cost_upto(first + second, n) == suite_cost_upto(first, n),
        suite_names_upto(first + second, n) == suite_names_upto(first, n),
        suite_entries_upto(first + second, n, context, scope) == suite_entries_upto(
            first,
            n,
            context,
            scope,
        ),
    decreases n,
{
    if n > 0 {
        lemma_prefix_of_joined(first, second, (n - 1) as nat, context, scope);
        assert((first + second)[n - 1] == first[n - 1]);
    }
}

/// What `first` and the first `m` statements of `second` give, walked as one
/// sequence.
proof fn lemma_joined_upto(
    first: Seq<StatementView>,
    second: Seq<StatementView>,
    m: nat,
    context: Context,
    scope: Seq<Seq<char>>,
)
    requires
        m <= second.len(),
    ensures
        suite_cost_upto(first + second, first.len() + m) == suite_cost(first) + suite_cost_upto(
            second,
            m,
        ),
        suite_names_upto(first + second, first.len() + m) == suite_names(first)
            + suite_names_upto(second, m),
        suite_entries_upto(first + second, first.len() + m, context, scope) == suite_entries(
            first,
            context,
            scope,
        ) + suite_entries_upto(second, m, context, scope + suite_names(first)),
    decreases m,
{
    let both = first + second;
    if m == 0 {
        lemma_prefix_of_joined(first, second, first.len(), context, scope);
        assert(suite_names(first) + Seq::<Seq<char>>::empty() =~= suite_names(first));
        assert(suite_entries(first, context, scope) + Seq::<ItemView>::empty() =~= suite_entries(
            first,
            context,
            scope,
        ));
    } else {
        let before = (m - 1) as nat;
        lemma_joined_upto(first, second, before, context, scope);
        assert(both[first.len() + m - 1] == second[m - 1]);
        let names_before = suite_names_upto(second, before);
        lemma_concat_associative(
            suite_names(first),
            names_before,
            statement_names(second[m - 1]),
        );
        lemma_concat_associative(scope, suite_names(first), names_before);
        lemma_concat_associative(
            suite_entries(first, context, scope),
            suite_entries_upto(second, before, context, scope + suite_names(first)),
            statement_entries(
                second[m - 1],
                context,
                scope + suite_names(first) + names_before,
            ),
        );
    }
}

/// The complexity of two statement sequences joined is the sum of their
/// complexities.
pub proof fn lemma_suite_cost_joined(first: Seq<StatementView>, second: Seq<StatementView>)
    ensures
        suite_cost(first + second) == suite_cost(first) + suite_cost(second),
{
    lemma_joined_upto(first, second, second.len(), Context::Module, Seq::empty());
}

/// A walk over two statement sequences joined pushes the class names of the
/// first, then those of the second.
pub proof fn lemma_suite_names_joined(first: Seq<StatementView>, second: Seq<StatementView>)
    ensures
        suite_names(first + second) == suite_names(first) + suite_names(second),
{
    lemma_joined_upto(first, second, second.len(), Context::Module, Seq::empty());
}

/// A walk reports in source order: over two statement sequences joined it
/// reports what the first gives, then what the second gives when walked with
/// the scope stack that the first has left.
pub proof fn lemma_suite_entries_joined(
    first: Seq<StatementView>,
    second: Seq<StatementView>,
    context: Context,
    scope: Seq<Seq<char>>,
)
    ensures
        suite_entries(first + second, context, scope) == suite_entries(first, context, scope)
            + suite_entries(second, context, scope + suite_names(first)),
{
    lemma_joined_upto(first, second, second.len(), context, scope);
}

} // verus!
