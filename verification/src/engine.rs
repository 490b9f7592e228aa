//! The walk that computes complexities and collects the reported items.

use crate::laws::lemma_suite_entries_at_least_one;
use crate::report::{Context, ItemComplexity};
use crate::rules::{
    cases_cost_upto, cases_entries, cases_entries_upto, cases_names, cases_names_upto,
    clauses_cost, clauses_cost_upto, clauses_entries, clauses_entries_upto, clauses_names,
    clauses_names_upto, handlers_cost, handlers_cost_upto, handlers_entries,
    handlers_entries_upto, handlers_names, handlers_names_upto, lemma_cases_cost_upto_monotonic,
    lemma_clauses_cost_upto_monotonic, lemma_handlers_cost_upto_monotonic,
    lemma_suite_cost_upto_monotonic, match_cost, statement_cost, statement_entries,
    statement_names, suite_cost, suite_cost_upto, suite_entries, suite_entries_upto,
    suite_names, suite_names_upto,
};
use crate::syntax::{
    cases_view, clauses_view, handlers_view, suite_view, Case, ElifElse, Handler, Statement,
};
use vstd::prelude::*;
use vstd::seq_lib::lemma_concat_associative;

verus! {

/// The items reported for a module whose body is `suite`, in the order in
/// which the walk reports them.
pub fn suite_complexities(suite: &Vec<Statement>) -> (items: Vec<ItemComplexity>)
    requires
        suite_cost(suite_view(suite@)) <= usize::MAX,
    ensures
        items.deep_view() == suite_entries(
            suite_view(suite@),
            Context::Module,
            Seq::<Seq<char>>::empty(),
        ),
        forall|k: int| 0 <= k < items.len() ==> (#[trigger] items[k]).complexity >= 1,
{
    let mut items: Vec<ItemComplexity> = Vec::new();
    let mut scope: Vec<String> = Vec::new();
    let ghost entries = suite_entries(
        suite_view(suite@),
        Context::Module,
        Seq::<Seq<char>>::empty(),
    );
    proof {
        assert(scope.deep_view() =~= Seq::<Seq<char>>::empty());
        assert(items.deep_view() =~= Seq::empty());
        assert(Seq::empty() + entries =~= entries);
    }
    get_complexity_number(suite, &mut items, &mut scope, Context::Module);
    proof {
        lemma_suite_entries_at_least_one(
            suite_view(suite@),
            Context::Module,
            Seq::<Seq<char>>::empty(),
        );
        assert forall|k: int| 0 <= k < items.len() implies (#[trigger] items[k]).complexity
            >= 1 by {
            assert(items.deep_view()[k] == items[k]@);
        }
    }
    items
}

/// Walks one statement sequence.
///
/// Returns the complexity of the sequence, pushes the name of every class
/// definition met onto `scope`, and appends to `complexities` one item for
/// every function definition that is reported.
pub fn get_complexity_number(
    suite: &Vec<Statement>,
    complexities: &mut Vec<ItemComplexity>,
    scope: &mut Vec<String>,
    context: Context,
) -> (complexity: usize)
    requires
        suite_cost(suite_view(suite@)) <= usize::MAX,
    ensures
        complexity == suite_cost(suite_view(suite@)),
        final(scope).deep_view() == old(scope).deep_view() + suite_names(suite_view(suite@)),
        final(complexities).deep_view() == old(complexities).deep_view() + suite_entries(
            suite_view(suite@),
            context,
            old(scope).deep_view(),
        ),
    decreases suite,
{
    let ghost tree = suite_view(suite@);
    let ghost scope0 = scope.deep_view();
    let ghost items0 = complexities.deep_view();
    let mut complexity: usize = 0;
    let mut i: usize = 0;
    proof {
        lemma_concat_empty(scope0);
        lemma_concat_empty(items0);
    }
    while i < suite.len()
        invariant
            i <= suite.len(),
            tree == suite_view(suite@),
            suite_cost(tree) <= usize::MAX,
            complexity == suite_cost_upto(tree, i as nat),
            scope.deep_view() == scope0 + suite_names_upto(tree, i as nat),
            complexities.deep_view() == items0 + suite_entries_upto(
                tree,
                i as nat,
                context,
                scope0,
            ),
        decreases suite.len() - i,
    {
        let ghost names_i = suite_names_upto(tree, i as nat);
        let ghost entries_i = suite_entries_upto(tree, i as nat, context, scope0);
        proof {
            lemma_suite_cost_upto_monotonic(tree, (i + 1) as nat, tree.len());
            assert(tree[i as int] == suite@[i as int]@);
        }
        let added: usize = statement_complexity(&suite[i], complexities, scope, context);
        complexity = complexity + added;
        proof {
            lemma_assoc(scope0, names_i, statement_names(tree[i as int]));
            lemma_assoc(
                items0,
                entries_i,
                statement_entries(tree[i as int], context, scope0 + names_i),
            );
        }
        i = i + 1;
    }
    complexity
}

/// Walks one statement.
fn statement_complexity(
    statement: &Statement,
    complexities: &mut Vec<ItemComplexity>,
    scope: &mut Vec<String>,
    context: Context,
) -> (complexity: usize)
    requires
        statement_cost(statement@) <= usize::MAX,
    ensures
        complexity == statement_cost(statement@),
        final(scope).deep_view() == old(scope).deep_view() + statement_names(statement@),
        final(complexities).deep_view() == old(complexities).deep_view() + statement_entries(
            statement@,
            context,
            old(scope).deep_view(),
        ),
    decreases statement,
{
    let ghost scope0 = scope.deep_view();
    let ghost items0 = complexities.deep_view();
    match statement {
        Statement::If { body, clauses } => {
            let ghost b = suite_view(body@);
            let ghost c = clauses_view(clauses@);
            let mut complexity: usize = 1;
            let inner: usize = get_complexity_number(body, complexities, scope, context);
            complexity = complexity + inner;
            let inner: usize = clauses_complexity(clauses, complexities, scope, context);
            complexity = complexity + inner;
            proof {
                lemma_assoc(scope0, suite_names(b), clauses_names(c));
                lemma_assoc(
                    items0,
                    suite_entries(b, context, scope0),
                    clauses_entries(c, context, scope0 + suite_names(b)),
                );
            }
            complexity
        },
        Statement::For { body, orelse } => {
            let ghost b = suite_view(body@);
            let ghost e = suite_view(orelse@);
            let mut complexity: usize = 1;
            let inner: usize = get_complexity_number(body, complexities, scope, context);
            complexity = complexity + inner;
            let inner: usize = get_complexity_number(orelse, complexities, scope, context);
            complexity = complexity + inner;
            proof {
                lemma_assoc(scope0, suite_names(b), suite_names(e));
                lemma_assoc(
                    items0,
                    suite_entries(b, context, scope0),
                    suite_entries(e, context, scope0 + suite_names(b)),
                );
            }
            complexity
        },
        Statement::While { body, orelse } => {
            let ghost b = suite_view(body@);
            let ghost e = suite_view(orelse@);
            let mut complexity: usize = 1;
            let inner: usize = get_complexity_number(body, complexities, scope, context);
            complexity = complexity + inner;
            let inner: usize = get_complexity_number(orelse, complexities, scope, context);
            complexity = complexity + inner;
            proof {
                lemma_assoc(scope0, suite_names(b), suite_names(e));
                lemma_assoc(
                    items0,
                    suite_entries(b, context, scope0),
                    suite_entries(e, context, scope0 + suite_names(b)),
                );
            }
            complexity
        },
        Statement::With { body } => get_complexity_number(body, complexities, scope, context),
        Statement::Match { cases } => cases_complexity(cases, complexities, scope, context),
        Statement::Try { body, handlers, orelse, finalbody } => {
            let ghost b = suite_view(body@);
            let ghost h = handlers_view(handlers@);
            let ghost e = suite_view(orelse@);
            let ghost f = suite_view(finalbody@);
            let mut complexity: usize = get_complexity_number(body, complexities, scope, context);
            let inner: usize = handlers_complexity(handlers, complexities, scope, context);
            complexity = complexity + inner;
            if orelse.len() > 0 {
                complexity = complexity + 1;
            }
            let inner: usize = get_complexity_number(orelse, complexities, scope, context);
            complexity = complexity + inner;
            let inner: usize = get_complexity_number(finalbody, complexities, scope, context);
            complexity = complexity + inner;
            proof {
                let nb = suite_names(b);
                let nh = handlers_names(h);
                let ne = suite_names(e);
                let nf = suite_names(f);
                lemma_assoc(scope0, nb, nh);
                lemma_assoc(scope0, nb + nh, ne);
                lemma_assoc(scope0, nb + nh + ne, nf);
                let eb = suite_entries(b, context, scope0);
                let eh = handlers_entries(h, context, scope0 + nb);
                let ee = suite_entries(e, context, scope0 + nb + nh);
                let ef = suite_entries(f, context, scope0 + nb + nh + ne);
                lemma_assoc(items0, eb, eh);
                lemma_assoc(items0, eb + eh, ee);
                lemma_assoc(items0, eb + eh + ee, ef);
            }
            complexity
        },
        Statement::FunctionDef { name, body } => {
            let ghost b = suite_view(body@);
            let inner: usize = get_complexity_number(body, complexities, scope, Context::Function);
            let complexity: usize = 1 + inner;
            let ghost inside = suite_entries(b, Context::Function, scope0);
            if context != Context::Function {
                let item = ItemComplexity {
                    scope: clone_scope(scope),
                    name: name.clone(),
                    complexity,
                };
                push_item(complexities, item);
                proof {
                    lemma_push_is_concat(items0 + inside, item@);
                    lemma_assoc(items0, inside, seq![item@]);
                }
            } else {
                proof {
                    lemma_concat_empty(inside);
                }
            }
            complexity
        },
        Statement::ClassDef { name, body } => {
            let ghost b = suite_view(body@);
            push_name(scope, name.clone());
            let complexity: usize = get_complexity_number(
                body,
                complexities,
                scope,
                Context::Class,
            );
            proof {
                lemma_push_is_concat(scope0, name@);
                lemma_assoc(scope0, seq![name@], suite_names(b));
            }
            complexity
        },
        Statement::Other => {
            proof {
                lemma_concat_empty(scope0);
                lemma_concat_empty(items0);
            }
            0
        },
    }
}

/// Walks the `elif` and `else` clauses of an `if` statement.
fn clauses_complexity(
    clauses: &Vec<ElifElse>,
    complexities: &mut Vec<ItemComplexity>,
    scope: &mut Vec<String>,
    context: Context,
) -> (complexity: usize)
    requires
        clauses_cost(clauses_view(clauses@)) <= usize::MAX,
    ensures
        complexity == clauses_cost(clauses_view(clauses@)),
        final(scope).deep_view() == old(scope).deep_view() + clauses_names(
            clauses_view(clauses@),
        ),
        final(complexities).deep_view() == old(complexities).deep_view() + clauses_entries(
            clauses_view(clauses@),
            context,
            old(scope).deep_view(),
        ),
    decreases clauses,
{
    let ghost tree = clauses_view(clauses@);
    let ghost scope0 = scope.deep_view();
    let ghost items0 = complexities.deep_view();
    let mut complexity: usize = 0;
    let mut i: usize = 0;
    proof {
        lemma_concat_empty(scope0);
        lemma_concat_empty(items0);
    }
    while i < clauses.len()
        invariant
            i <= clauses.len(),
            tree == clauses_view(clauses@),
            clauses_cost(tree) <= usize::MAX,
            complexity == clauses_cost_upto(tree, i as nat),
            scope.deep_view() == scope0 + clauses_names_upto(tree, i as nat),
            complexities.deep_view() == items0 + clauses_entries_upto(
                tree,
                i as nat,
                context,
                scope0,
            ),
        decreases clauses.len() - i,
    {
        let ghost names_i = clauses_names_upto(tree, i as nat);
        let ghost entries_i = clauses_entries_upto(tree, i as nat, context, scope0);
        let ghost b = suite_view(clauses@[i as int].body@);
        proof {
            lemma_clauses_cost_upto_monotonic(tree, (i + 1) as nat, tree.len());
            assert(tree[i as int].body == b);
            assert(tree[i as int].has_test == clauses@[i as int].has_test);
        }
        let clause = &clauses[i];
        if clause.has_test {
            complexity = complexity + 1;
        }
        let inner: usize = get_complexity_number(&clause.body, complexities, scope, context);
        complexity = complexity + inner;
        proof {
            lemma_assoc(scope0, names_i, suite_names(b));
            lemma_assoc(items0, entries_i, suite_entries(b, context, scope0 + names_i));
        }
        i = i + 1;
    }
    complexity
}

/// Walks the arms of a `match` statement. An arm adds one, except a last arm
/// that is a catch-all.
fn cases_complexity(
    cases: &Vec<Case>,
    complexities: &mut Vec<ItemComplexity>,
    scope: &mut Vec<String>,
    context: Context,
) -> (complexity: usize)
    requires
        match_cost(cases_view(cases@)) <= usize::MAX,
    ensures
        complexity == match_cost(cases_view(cases@)),
        final(scope).deep_view() == old(scope).deep_view() + cases_names(cases_view(cases@)),
        final(complexities).deep_view() == old(complexities).deep_view() + cases_entries(
            cases_view(cases@),
            context,
            old(scope).deep_view(),
        ),
    decreases cases,
{
    let ghost tree = cases_view(cases@);
    let ghost scope0 = scope.deep_view();
    let ghost items0 = complexities.deep_view();
    let mut complexity: usize = 0;
    let mut i: usize = 0;
    proof {
        lemma_concat_empty(scope0);
        lemma_concat_empty(items0);
    }
    while i < cases.len()
        invariant
            i <= cases.len(),
            tree == cases_view(cases@),
            match_cost(tree) <= usize::MAX,
            i < cases.len() ==> complexity == cases_cost_upto(tree, i as nat),
            i == cases.len() ==> complexity == match_cost(tree),
            scope.deep_view() == scope0 + cases_names_upto(tree, i as nat),
            complexities.deep_view() == items0 + cases_entries_upto(
                tree,
                i as nat,
                context,
                scope0,
            ),
        decreases cases.len() - i,
    {
        let ghost names_i = cases_names_upto(tree, i as nat);
        let ghost entries_i = cases_entries_upto(tree, i as nat, context, scope0);
        let ghost b = suite_view(cases@[i as int].body@);
        proof {
            if i + 1 < cases.len() {
                lemma_cases_cost_upto_monotonic(tree, (i + 1) as nat, (tree.len() - 1) as nat);
            }
            assert(tree.last() == tree[tree.len() - 1]);
            assert(tree[i as int].body == b);
            assert(tree[i as int].has_guard == cases@[i as int].has_guard);
            assert(tree[i as int].irrefutable == cases@[i as int].irrefutable);
        }
        let case = &cases[i];
        let catch_all: bool = i + 1 == cases.len() && !case.has_guard && case.irrefutable;
        if !catch_all {
            complexity = complexity + 1;
        }
        let inner: usize = get_complexity_number(&case.body, complexities, scope, context);
        complexity = complexity + inner;
        proof {
            lemma_assoc(scope0, names_i, suite_names(b));
            lemma_assoc(items0, entries_i, suite_entries(b, context, scope0 + names_i));
        }
        i = i + 1;
    }
    complexity
}

/// Walks the `except` clauses of a `try` statement.
fn handlers_complexity(
    handlers: &Vec<Handler>,
    complexities: &mut Vec<ItemComplexity>,
    scope: &mut Vec<String>,
    context: Context,
) -> (complexity: usize)
    requires
        handlers_cost(handlers_view(handlers@)) <= usize::MAX,
    ensures
        complexity == handlers_cost(handlers_view(handlers@)),
        final(scope).deep_view() == old(scope).deep_view() + handlers_names(
            handlers_view(handlers@),
        ),
        final(complexities).deep_view() == old(complexities).deep_view() + handlers_entries(
            handlers_view(handlers@),
            context,
            old(scope).deep_view(),
        ),
    decreases handlers,
{
    let ghost tree = handlers_view(handlers@);
    let ghost scope0 = scope.deep_view();
    let ghost items0 = complexities.deep_view();
    let mut complexity: usize = 0;
    let mut i: usize = 0;
    proof {
        lemma_concat_empty(scope0);
        lemma_concat_empty(items0);
    }
    while i < handlers.len()
        invariant
            i <= handlers.len(),
            tree == handlers_view(handlers@),
            handlers_cost(tree) <= usize::MAX,
            complexity == handlers_cost_upto(tree, i as nat),
            scope.deep_view() == scope0 + handlers_names_upto(tree, i as nat),
            complexities.deep_view() == items0 + handlers_entries_upto(
                tree,
                i as nat,
                context,
                scope0,
            ),
        decreases handlers.len() - i,
    {
        let ghost names_i = handlers_names_upto(tree, i as nat);
        let ghost entries_i = handlers_entries_upto(tree, i as nat, context, scope0);
        let ghost b = suite_view(handlers@[i as int].body@);
        proof {
            lemma_handlers_cost_upto_monotonic(tree, (i + 1) as nat, tree.len());
            assert(tree[i as int].body == b);
        }
        let handler = &handlers[i];
        complexity = complexity + 1;
        let inner: usize = get_complexity_number(&handler.body, complexities, scope, context);
        complexity = complexity + inner;
        proof {
            lemma_assoc(scope0, names_i, suite_names(b));
            lemma_assoc(items0, entries_i, suite_entries(b, context, scope0 + names_i));
        }
        i = i + 1;
    }
    complexity
}

/// A copy of the scope stack.
fn clone_scope(scope: &Vec<String>) -> (copy: Vec<String>)
    ensures
        copy.deep_view() == scope.deep_view(),
{
    let mut copy: Vec<String> = Vec::new();
    let mut i: usize = 0;
    while i < scope.len()
        invariant
            i <= scope.len(),
            copy.len() == i,
            forall|k: int| 0 <= k < i ==> copy@[k]@ == scope@[k]@,
        decreases scope.len() - i,
    {
        copy.push(scope[i].clone());
        i = i + 1;
    }
    assert(copy.deep_view() =~= scope.deep_view());
    copy
}

/// Pushes a class name onto the scope stack.
fn push_name(scope: &mut Vec<String>, name: String)
    ensures
        final(scope).deep_view() == old(scope).deep_view().push(name@),
{
    scope.push(name);
    assert(scope.deep_view() =~= old(scope).deep_view().push(name@));
}

/// Appends an item to the report.
fn push_item(complexities: &mut Vec<ItemComplexity>, item: ItemComplexity)
    ensures
        final(complexities).deep_view() == old(complexities).deep_view().push(item@),
{
    complexities.push(item);
    assert(complexities.deep_view() =~= old(complexities).deep_view().push(item@));
}

/// Appending nothing changes nothing.
proof fn lemma_concat_empty<T>(a: Seq<T>)
    ensures
        a + Seq::<T>::empty() == a,
{
    assert(a + Seq::<T>::empty() =~= a);
}

/// Pushing an element is appending the sequence that holds just it.
proof fn lemma_push_is_concat<T>(a: Seq<T>, x: T)
    ensures
        a.push(x) == a + seq![x],
{
    assert(a.push(x) =~= a + seq![x]);
}

/// `a + (b + c)` is `(a + b) + c`.
proof fn lemma_assoc<T>(a: Seq<T>, b: Seq<T>, c: Seq<T>)
    ensures
        a + (b + c) == (a + b) + c,
{
    lemma_concat_associative(a, b, c);
}

} // verus!
