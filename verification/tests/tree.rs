use pycabe::{
    checked_complexity, get_complexity_number, suite_complexities, Case, Context, ElifElse,
    Handler, ItemComplexity, Statement,
};

fn function(name: &str, body: Vec<Statement>) -> Statement {
    Statement::FunctionDef { name: name.to_string(), body }
}

fn class(name: &str, body: Vec<Statement>) -> Statement {
    Statement::ClassDef { name: name.to_string(), body }
}

fn branch() -> Statement {
    Statement::If { body: vec![], clauses: vec![] }
}

fn case(has_guard: bool, irrefutable: bool, body: Vec<Statement>) -> Case {
    Case { has_guard, irrefutable, body }
}

fn names(scope: &[String]) -> Vec<&str> {
    scope.iter().map(|name| name.as_str()).collect()
}

fn shape(items: &[ItemComplexity]) -> Vec<(Vec<&str>, &str, usize)> {
    items
        .iter()
        .map(|item| (names(&item.scope), item.name.as_str(), item.complexity))
        .collect()
}

/// The complexity of a sequence walked in module context from empty state.
fn cost(suite: &Vec<Statement>) -> usize {
    let mut items = Vec::new();
    let mut scope = Vec::new();
    get_complexity_number(suite, &mut items, &mut scope, Context::Module)
}

#[test]
fn empty_sequence_costs_nothing_and_changes_nothing() {
    let mut items = Vec::new();
    let mut scope = vec!["A".to_string()];
    let complexity = get_complexity_number(&vec![], &mut items, &mut scope, Context::Class);
    assert_eq!(complexity, 0);
    assert!(items.is_empty());
    assert_eq!(names(&scope), vec!["A"]);
}

#[test]
fn other_statements_cost_nothing() {
    assert_eq!(cost(&vec![Statement::Other, Statement::Other]), 0);
}

#[test]
fn if_costs_one_plus_one_per_elif() {
    let chain = Statement::If {
        body: vec![branch()],
        clauses: vec![
            ElifElse { has_test: true, body: vec![branch()] },
            ElifElse { has_test: true, body: vec![] },
            ElifElse { has_test: false, body: vec![branch(), branch()] },
        ],
    };
    // 1 for the if, 2 for the elifs, 0 for the else, 4 nested ifs
    assert_eq!(cost(&vec![chain]), 7);
}

#[test]
fn loops_cost_one_and_include_their_else() {
    let for_loop = Statement::For { body: vec![branch()], orelse: vec![branch()] };
    let while_loop = Statement::While { body: vec![], orelse: vec![branch()] };
    assert_eq!(cost(&vec![for_loop]), 3);
    assert_eq!(cost(&vec![while_loop]), 2);
}

#[test]
fn with_costs_only_its_body() {
    assert_eq!(cost(&vec![Statement::With { body: vec![] }]), 0);
    assert_eq!(cost(&vec![Statement::With { body: vec![branch()] }]), 1);
}

#[test]
fn match_costs_one_per_case() {
    let cases = vec![case(false, false, vec![branch()]), case(false, false, vec![])];
    assert_eq!(cost(&vec![Statement::Match { cases }]), 3);
}

#[test]
fn match_discounts_a_catch_all_last_case() {
    let cases = vec![case(false, false, vec![]), case(false, true, vec![branch()])];
    assert_eq!(cost(&vec![Statement::Match { cases }]), 2);
}

#[test]
fn match_with_only_a_catch_all_costs_nothing() {
    let cases = vec![case(false, true, vec![])];
    assert_eq!(cost(&vec![Statement::Match { cases }]), 0);
}

#[test]
fn match_does_not_discount_a_guarded_or_earlier_catch_all() {
    let guarded = vec![case(false, false, vec![]), case(true, true, vec![])];
    assert_eq!(cost(&vec![Statement::Match { cases: guarded }]), 2);
    let earlier = vec![case(false, true, vec![]), case(false, false, vec![])];
    assert_eq!(cost(&vec![Statement::Match { cases: earlier }]), 2);
}

#[test]
fn match_without_cases_costs_nothing() {
    assert_eq!(cost(&vec![Statement::Match { cases: vec![] }]), 0);
}

#[test]
fn try_costs_one_per_handler_and_one_for_a_nonempty_else() {
    let with_else = Statement::Try {
        body: vec![branch()],
        handlers: vec![Handler { body: vec![] }, Handler { body: vec![branch()] }],
        orelse: vec![Statement::Other],
        finalbody: vec![branch()],
    };
    // 2 handlers, 1 for the else, 3 nested ifs
    assert_eq!(cost(&vec![with_else]), 6);
    let without_else = Statement::Try {
        body: vec![],
        handlers: vec![Handler { body: vec![] }],
        orelse: vec![],
        finalbody: vec![Statement::Other],
    };
    assert_eq!(cost(&vec![without_else]), 1);
}

#[test]
fn function_costs_one_plus_its_body() {
    assert_eq!(cost(&vec![function("f", vec![])]), 1);
    assert_eq!(cost(&vec![function("f", vec![branch(), branch()])]), 3);
}

#[test]
fn class_costs_only_its_body() {
    assert_eq!(cost(&vec![class("A", vec![])]), 0);
    assert_eq!(cost(&vec![class("A", vec![function("m", vec![branch()])])]), 2);
}

#[test]
fn function_with_empty_body_is_reported_with_complexity_one() {
    let items = suite_complexities(&vec![function("f", vec![])]);
    assert_eq!(shape(&items), vec![(vec![], "f", 1)]);
}

#[test]
fn second_function_is_scored_without_the_first() {
    let suite = vec![branch(), function("f", vec![branch()]), function("g", vec![])];
    let items = suite_complexities(&suite);
    assert_eq!(shape(&items), vec![(vec![], "f", 2), (vec![], "g", 1)]);
    assert_eq!(cost(&suite), 4);
}

#[test]
fn function_directly_in_a_function_is_counted_but_not_reported() {
    let inner = function("inner", vec![branch()]);
    let items = suite_complexities(&vec![function("outer", vec![inner])]);
    assert_eq!(shape(&items), vec![(vec![], "outer", 3)]);
}

#[test]
fn function_context_reports_nothing_at_top_level_of_the_sequence() {
    let mut items = Vec::new();
    let mut scope = Vec::new();
    let suite = vec![function("f", vec![branch()])];
    let complexity = get_complexity_number(&suite, &mut items, &mut scope, Context::Function);
    assert_eq!(complexity, 2);
    assert!(items.is_empty());
}

#[test]
fn class_context_reports_methods() {
    let mut items = Vec::new();
    let mut scope = vec!["A".to_string()];
    let suite = vec![function("m", vec![])];
    let complexity = get_complexity_number(&suite, &mut items, &mut scope, Context::Class);
    assert_eq!(complexity, 1);
    assert_eq!(shape(&items), vec![(vec!["A"], "m", 1)]);
    assert_eq!(names(&scope), vec!["A"]);
}

#[test]
fn items_are_appended_after_those_already_there() {
    let mut items = vec![ItemComplexity { scope: vec![], name: "old".to_string(), complexity: 9 }];
    let mut scope = Vec::new();
    get_complexity_number(&vec![function("f", vec![])], &mut items, &mut scope, Context::Module);
    assert_eq!(shape(&items), vec![(vec![], "old", 9), (vec![], "f", 1)]);
}

#[test]
fn class_names_are_pushed_in_walk_order_and_never_popped() {
    let suite = vec![
        class("A", vec![class("B", vec![function("m", vec![])])]),
        Statement::With { body: vec![class("C", vec![])] },
        function("f", vec![class("D", vec![function("n", vec![])])]),
        function("g", vec![]),
    ];
    let mut items = Vec::new();
    let mut scope = vec!["Z".to_string()];
    let complexity = get_complexity_number(&suite, &mut items, &mut scope, Context::Module);
    assert_eq!(complexity, 4);
    assert_eq!(names(&scope), vec!["Z", "A", "B", "C", "D"]);
    assert_eq!(
        shape(&items),
        vec![
            (vec!["Z", "A", "B"], "m", 1),
            (vec!["Z", "A", "B", "C", "D"], "n", 1),
            (vec!["Z", "A", "B", "C", "D"], "f", 2),
            (vec!["Z", "A", "B", "C", "D"], "g", 1),
        ]
    );
}

#[test]
fn nested_sequences_are_walked_in_source_order() {
    let suite = vec![
        Statement::If {
            body: vec![function("a", vec![])],
            clauses: vec![
                ElifElse { has_test: true, body: vec![function("b", vec![])] },
                ElifElse { has_test: false, body: vec![function("c", vec![])] },
            ],
        },
        Statement::For { body: vec![function("d", vec![])], orelse: vec![function("e", vec![])] },
        Statement::While { body: vec![function("f", vec![])], orelse: vec![function("g", vec![])] },
        Statement::Match {
            cases: vec![
                case(false, false, vec![function("h", vec![])]),
                case(false, true, vec![function("i", vec![])]),
            ],
        },
        Statement::Try {
            body: vec![function("j", vec![])],
            handlers: vec![
                Handler { body: vec![function("k", vec![])] },
                Handler { body: vec![function("l", vec![])] },
            ],
            orelse: vec![function("m", vec![])],
            finalbody: vec![function("n", vec![])],
        },
    ];
    let items = suite_complexities(&suite);
    let order: Vec<&str> = items.iter().map(|item| item.name.as_str()).collect();
    assert_eq!(
        order,
        vec!["a", "b", "c", "d", "e", "f", "g", "h", "i", "j", "k", "l", "m", "n"]
    );
    assert!(items.iter().all(|item| item.complexity == 1 && item.scope.is_empty()));
    // if: 1 + 1 elif; for: 1; while: 1; match: 2 - 1; try: 2 handlers + else; 14 functions
    assert_eq!(cost(&suite), 2 + 1 + 1 + 1 + 3 + 14);
}

#[test]
fn walking_two_sequences_in_turn_is_walking_them_joined() {
    let first = || vec![class("A", vec![function("m", vec![branch()])]), branch()];
    let second = || vec![function("f", vec![]), class("B", vec![function("n", vec![])])];
    let mut joined = first();
    joined.extend(second());

    let mut items = Vec::new();
    let mut scope = Vec::new();
    let whole = get_complexity_number(&joined, &mut items, &mut scope, Context::Module);

    let mut items_in_turn = Vec::new();
    let mut scope_in_turn = Vec::new();
    let head =
        get_complexity_number(&first(), &mut items_in_turn, &mut scope_in_turn, Context::Module);
    let tail =
        get_complexity_number(&second(), &mut items_in_turn, &mut scope_in_turn, Context::Module);

    assert_eq!(whole, head + tail);
    assert_eq!(whole, 5);
    assert_eq!(scope, scope_in_turn);
    assert_eq!(shape(&items), shape(&items_in_turn));
    assert_eq!(
        shape(&items),
        vec![(vec!["A"], "m", 2), (vec!["A"], "f", 1), (vec!["A", "B"], "n", 1)]
    );
}

#[test]
fn every_item_has_complexity_at_least_one() {
    let suite = vec![
        function("f", vec![]),
        class("A", vec![function("m", vec![Statement::Match { cases: vec![] }])]),
        Statement::Try {
            body: vec![function("g", vec![Statement::Other])],
            handlers: vec![],
            orelse: vec![],
            finalbody: vec![],
        },
    ];
    let items = suite_complexities(&suite);
    assert_eq!(items.len(), 3);
    assert!(items.iter().all(|item| item.complexity >= 1));
}

#[test]
fn checked_complexity_agrees_with_the_walk() {
    let suite = vec![
        function("f", vec![branch(), Statement::For { body: vec![branch()], orelse: vec![] }]),
        Statement::Match { cases: vec![case(false, true, vec![branch()])] },
        Statement::Try {
            body: vec![],
            handlers: vec![Handler { body: vec![] }],
            orelse: vec![branch()],
            finalbody: vec![],
        },
    ];
    assert_eq!(checked_complexity(&suite), Some(8));
    assert_eq!(cost(&suite), 8);
    assert_eq!(checked_complexity(&vec![]), Some(0));
}
