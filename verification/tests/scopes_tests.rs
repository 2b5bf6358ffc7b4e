use moss::scopes::{Binding, BindingKind, Scope, ScopeKind, ScopeResult};

fn binding(name: &str, kind: BindingKind, line: usize) -> Binding {
    Binding { name: name.to_string(), kind, line, column: 0 }
}

fn sample() -> ScopeResult {
    let inner = Scope {
        kind: ScopeKind::Function,
        name: Some("f".to_string()),
        start_line: 3,
        end_line: 6,
        bindings: vec![binding("x", BindingKind::Parameter, 3), binding("y", BindingKind::Variable, 5)],
        children: vec![Scope {
            kind: ScopeKind::Loop,
            name: None,
            start_line: 4,
            end_line: 5,
            bindings: vec![binding("x", BindingKind::ForLoop, 4)],
            children: vec![],
        }],
    };
    ScopeResult {
        root: Scope {
            kind: ScopeKind::Module,
            name: None,
            start_line: 1,
            end_line: 10,
            bindings: vec![binding("os", BindingKind::Import, 1), binding("f", BindingKind::Function, 3), binding("late", BindingKind::Variable, 9)],
            children: vec![inner],
        },
        file_path: "a.py".to_string(),
    }
}

#[test]
fn bindings_visible_at_a_line() {
    let result = sample();
    let names = |line: usize| -> Vec<String> {
        result.bindings_at_line(line).into_iter().map(|b| b.name.clone()).collect()
    };
    assert_eq!(names(1), vec!["os"]);
    assert_eq!(names(3), vec!["os", "f", "x"]);
    assert_eq!(names(4), vec!["os", "f", "x", "x"]);
    assert_eq!(names(5), vec!["os", "f", "x", "y", "x"]);
    assert_eq!(names(6), vec!["os", "f", "x", "y"]);
    assert_eq!(names(9), vec!["os", "f", "late"]);
    assert!(names(11).is_empty());
    assert!(names(0).is_empty());
}

#[test]
fn definition_is_the_last_binding_of_the_name() {
    let result = sample();
    assert_eq!(result.find_definition("x", 3).unwrap().kind, BindingKind::Parameter);
    assert_eq!(result.find_definition("x", 4).unwrap().kind, BindingKind::ForLoop);
    assert_eq!(result.find_definition("x", 6).unwrap().kind, BindingKind::Parameter);
    assert!(result.find_definition("x", 7).is_none());
    assert!(result.find_definition("late", 8).is_none());
    assert_eq!(result.find_definition("late", 9).unwrap().line, 9);
}

#[test]
fn scopes_as_text() {
    let result = sample();
    assert_eq!(
        result.format(),
        "# Scopes in a.py\n\nmodule <anonymous> (lines 1-10)\n  import os (line 1)\n  function f (line 3)\n  variable late (line 9)\n  function f (lines 3-6)\n    parameter x (line 3)\n    variable y (line 5)\n    loop <anonymous> (lines 4-5)\n      for x (line 4)"
    );
    assert_eq!(ScopeKind::Comprehension.as_str(), "comprehension");
    assert_eq!(ScopeKind::Impl.as_str(), "impl");
    assert_eq!(BindingKind::ExceptHandler.as_str(), "except");
    assert_eq!(BindingKind::WithItem.as_str(), "with");
}
