use pycabe::{is_python_file, module_complexities, ItemComplexity};

fn item(scope: &[&str], name: &str, complexity: usize) -> ItemComplexity {
    ItemComplexity {
        scope: scope.iter().map(|segment| segment.to_string()).collect(),
        name: name.to_string(),
        complexity,
    }
}

#[test]
fn line_with_empty_scope_has_an_empty_segment() {
    assert_eq!(item(&[], "f", 1).line("src/a.py"), "src/a.py::f 1");
}

#[test]
fn line_with_one_scope_segment() {
    assert_eq!(item(&["A"], "method", 12).line("a.py"), "a.py:A:method 12");
}

#[test]
fn line_joins_scope_segments_with_colons() {
    assert_eq!(item(&["A", "B", "C"], "m", 305).line("./pkg/b.py"), "./pkg/b.py:A:B:C:m 305");
}

#[test]
fn line_renders_complexity_in_decimal() {
    assert_eq!(item(&[], "f", 0).line("p"), "p::f 0");
    assert_eq!(item(&[], "f", 9).line("p"), "p::f 9");
    assert_eq!(item(&[], "f", 10).line("p"), "p::f 10");
    assert_eq!(item(&[], "f", 1000).line("p"), "p::f 1000");
    assert_eq!(item(&[], "f", 4294967295).line("p"), "p::f 4294967295");
    assert_eq!(item(&[], "f", usize::MAX).line("p"), format!("p::f {}", usize::MAX));
}

#[test]
fn line_keeps_non_ascii_text() {
    assert_eq!(item(&["Ä"], "füße", 2).line("d/é.py"), "d/é.py:Ä:füße 2");
}

#[test]
fn line_with_empty_path() {
    assert_eq!(item(&["A"], "m", 1).line(""), ":A:m 1");
}

#[test]
fn lines_of_a_parsed_module() {
    let source = "class A:\n    def m(self):\n        if x: pass\ndef f(): pass\n";
    let lines: Vec<String> =
        module_complexities(source).iter().map(|item| item.line("m.py")).collect();
    assert_eq!(lines, vec!["m.py:A:m 2".to_string(), "m.py:A:f 1".to_string()]);
}

#[test]
fn directories_are_always_visited() {
    assert!(is_python_file(true, b"src"));
    assert!(is_python_file(true, b""));
    assert!(is_python_file(true, b"notes.txt"));
}

#[test]
fn files_are_visited_when_their_name_ends_in_py() {
    assert!(is_python_file(false, b"a.py"));
    assert!(is_python_file(false, b".py"));
    assert!(is_python_file(false, b"archive.tar.py"));
}

#[test]
fn other_files_are_not_visited() {
    assert!(!is_python_file(false, b""));
    assert!(!is_python_file(false, b"py"));
    assert!(!is_python_file(false, b"a.pyc"));
    assert!(!is_python_file(false, b"a.PY"));
    assert!(!is_python_file(false, b"a.py "));
    assert!(!is_python_file(false, b"apy"));
    assert!(!is_python_file(false, b"a.rs"));
}
