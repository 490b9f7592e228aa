use pycabe::{module_complexities, try_module_complexities, ItemComplexity};

fn summary(items: &[ItemComplexity]) -> Vec<(String, String, usize)> {
    items
        .iter()
        .map(|item| (item.scope.join(":"), item.name.clone(), item.complexity))
        .collect()
}

fn entry(scope: &str, name: &str, complexity: usize) -> (String, String, usize) {
    (scope.to_string(), name.to_string(), complexity)
}

#[test]
fn function_without_branches_scores_one() {
    let items = module_complexities("def f(): pass");
    assert_eq!(summary(&items), vec![entry("", "f", 1)]);
}

#[test]
fn single_if_scores_two() {
    let items = module_complexities("def f():\n if a: pass");
    assert_eq!(summary(&items), vec![entry("", "f", 2)]);
}

#[test]
fn if_elif_else_scores_three() {
    let items = module_complexities("def f():\n if a: pass\n elif b: pass\n else: pass");
    assert_eq!(summary(&items), vec![entry("", "f", 3)]);
}

#[test]
fn match_with_wildcard_last_scores_two() {
    let items = module_complexities("def f():\n match x:\n  case 1: pass\n  case _: pass");
    assert_eq!(summary(&items), vec![entry("", "f", 2)]);
}

#[test]
fn try_with_one_handler_scores_two() {
    let items = module_complexities("def f():\n try: pass\n except E: pass");
    assert_eq!(summary(&items), vec![entry("", "f", 2)]);
}

#[test]
fn nested_function_is_folded_into_outer() {
    let items = module_complexities("def outer():\n def inner():\n  if x: pass");
    assert_eq!(summary(&items), vec![entry("", "outer", 3)]);
}

#[test]
fn empty_source_reports_nothing() {
    assert!(module_complexities("").is_empty());
}

#[test]
fn module_level_branches_are_not_reported() {
    assert!(module_complexities("if a:\n    pass\nfor x in y:\n    pass\n").is_empty());
}

#[test]
fn each_function_is_scored_on_its_own() {
    let source = "if a:\n    pass\ndef f():\n    pass\ndef g():\n    while a:\n        pass\n";
    let items = module_complexities(source);
    assert_eq!(summary(&items), vec![entry("", "f", 1), entry("", "g", 2)]);
}

#[test]
fn for_and_while_count_one_each_and_walk_their_else() {
    let source = "\
def f():
    for x in xs:
        if x: pass
    else:
        while x:
            pass
        else:
            if y: pass
";
    let items = module_complexities(source);
    assert_eq!(summary(&items), vec![entry("", "f", 5)]);
}

#[test]
fn with_adds_nothing_but_its_body_counts() {
    let source = "def f():\n    with a as b:\n        if c: pass\n";
    let items = module_complexities(source);
    assert_eq!(summary(&items), vec![entry("", "f", 2)]);
}

#[test]
fn async_forms_count_like_their_plain_forms() {
    let source = "\
async def f():
    async for x in xs:
        pass
    async with a:
        pass
";
    let items = module_complexities(source);
    assert_eq!(summary(&items), vec![entry("", "f", 2)]);
}

#[test]
fn elif_without_else_counts() {
    let source = "def f():\n    if a: pass\n    elif b: pass\n    elif c: pass\n";
    let items = module_complexities(source);
    assert_eq!(summary(&items), vec![entry("", "f", 4)]);
}

#[test]
fn single_irrefutable_case_adds_nothing() {
    let source = "def f():\n    match x:\n        case _: pass\n";
    let items = module_complexities(source);
    assert_eq!(summary(&items), vec![entry("", "f", 1)]);
}

#[test]
fn capture_pattern_last_is_a_catch_all() {
    let source = "def f():\n    match x:\n        case 1: pass\n        case other: pass\n";
    let items = module_complexities(source);
    assert_eq!(summary(&items), vec![entry("", "f", 2)]);
}

#[test]
fn guarded_wildcard_last_is_not_discounted() {
    let source = "def f():\n    match x:\n        case 1: pass\n        case _ if y: pass\n";
    let items = module_complexities(source);
    assert_eq!(summary(&items), vec![entry("", "f", 3)]);
}

#[test]
fn refutable_last_case_is_not_discounted() {
    let source = "def f():\n    match x:\n        case 1: pass\n        case 2: pass\n";
    let items = module_complexities(source);
    assert_eq!(summary(&items), vec![entry("", "f", 3)]);
}

#[test]
fn irrefutable_case_that_is_not_last_is_not_discounted() {
    let source = "def f():\n    match x:\n        case _: pass\n        case 2: pass\n";
    let items = module_complexities(source);
    assert_eq!(summary(&items), vec![entry("", "f", 3)]);
}

#[test]
fn try_counts_handlers_and_nonempty_else_but_not_finally() {
    let source = "\
def f():
    try:
        pass
    except A:
        pass
    except B:
        if c: pass
    else:
        pass
    finally:
        if d: pass
";
    let items = module_complexities(source);
    // 1 + two handlers + else + the two nested ifs
    assert_eq!(summary(&items), vec![entry("", "f", 6)]);
}

#[test]
fn try_finally_alone_adds_nothing() {
    let source = "def f():\n    try:\n        pass\n    finally:\n        pass\n";
    let items = module_complexities(source);
    assert_eq!(summary(&items), vec![entry("", "f", 1)]);
}

#[test]
fn expression_level_branching_is_not_counted() {
    let source = "def f():\n    x = a if b else c\n    y = [i for i in z if i]\n    return x and y\n";
    let items = module_complexities(source);
    assert_eq!(summary(&items), vec![entry("", "f", 1)]);
}

#[test]
fn methods_carry_their_class_as_scope() {
    let source = "\
class A:
    def m(self):
        if x: pass
    class B:
        def n(self): pass
";
    let items = module_complexities(source);
    assert_eq!(summary(&items), vec![entry("A", "m", 2), entry("A:B", "n", 1)]);
}

#[test]
fn a_class_name_stays_on_the_scope_stack() {
    let source = "\
class A:
    def m(self): pass
class B:
    def n(self): pass
def f(): pass
";
    let items = module_complexities(source);
    assert_eq!(
        summary(&items),
        vec![entry("A", "m", 1), entry("A:B", "n", 1), entry("A:B", "f", 1)]
    );
}

#[test]
fn method_of_a_class_inside_a_function_is_reported_before_it() {
    let source = "\
def f():
    class C:
        def m(self):
            if x: pass
";
    let items = module_complexities(source);
    assert_eq!(summary(&items), vec![entry("C", "m", 2), entry("C", "f", 3)]);
}

#[test]
fn function_nested_in_a_branch_of_a_function_is_not_reported() {
    let source = "\
def f():
    if a:
        def g(): pass
";
    let items = module_complexities(source);
    assert_eq!(summary(&items), vec![entry("", "f", 3)]);
}

#[test]
fn function_in_a_module_level_branch_is_reported() {
    let source = "\
if a:
    def g():
        pass
else:
    def h():
        for x in y: pass
";
    let items = module_complexities(source);
    assert_eq!(summary(&items), vec![entry("", "g", 1), entry("", "h", 2)]);
}

#[test]
fn items_of_a_try_come_in_source_order() {
    let source = "\
try:
    def a(): pass
except E:
    def b(): pass
else:
    def c(): pass
finally:
    def d(): pass
";
    let items = module_complexities(source);
    assert_eq!(
        summary(&items),
        vec![entry("", "a", 1), entry("", "b", 1), entry("", "c", 1), entry("", "d", 1)]
    );
}

#[test]
fn every_reported_complexity_is_at_least_one() {
    let source = "\
class A:
    def m(self): pass
    def n(self):
        match x:
            case _: pass
def f():
    with a: pass
";
    let items = module_complexities(source);
    assert_eq!(items.len(), 3);
    assert!(items.iter().all(|item| item.complexity >= 1));
}

#[test]
fn analysing_twice_gives_the_same_report() {
    let source = "class A:\n    def m(self):\n        if x: pass\ndef f():\n    pass\n";
    let first = module_complexities(source);
    let second = module_complexities(source);
    assert_eq!(summary(&first), summary(&second));
    assert_eq!(format!("{:?}", first), format!("{:?}", second));
}

#[test]
fn try_variant_agrees_with_plain_variant() {
    let source = "def f():\n    if a: pass\n    elif b: pass\n";
    let plain = module_complexities(source);
    let tried = try_module_complexities(source).unwrap();
    assert_eq!(summary(&plain), summary(&tried));
    assert_eq!(summary(&tried), vec![entry("", "f", 3)]);
}

#[test]
fn syntax_error_gives_none() {
    assert!(try_module_complexities("def f(:\n    pass\n").is_none());
    assert!(try_module_complexities("def 1(): pass").is_none());
}
