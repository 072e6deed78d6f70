use gdshader_lsp::memory::{
    FunctionReturn, ScopeList, ScopeType, TypeInfo, ValueInfo,
};
use gdshader_lsp::position::{Position, Range};

fn range(a: u32, b: u32, c: u32, d: u32) -> Range {
    Range::new(Position::new(a, b), Position::new(c, d))
}

fn value(ty: &str, is_const: bool) -> ValueInfo {
    ValueInfo {
        ty: TypeInfo::from_str(ty),
        editable: !is_const,
        is_const,
        range: None,
        description: None,
    }
}

fn function(expected: Option<&str>) -> ScopeType {
    ScopeType::Function(Box::new(FunctionReturn {
        expected: expected.map(TypeInfo::from_str),
        returned: None,
    }))
}

fn names(scopes: &ScopeList) -> Vec<Vec<String>> {
    scopes
        .collect_scopes()
        .iter()
        .map(|table| table.iter().map(|entry| entry.0.clone()).collect())
        .collect()
}

#[test]
fn the_root_cannot_be_left() {
    let mut scopes = ScopeList::new();
    assert_eq!(scopes.len(), 1);
    assert_eq!(scopes.current(), 0);
    assert!(!scopes.leave_scope());
    assert_eq!(scopes.current(), 0);
    assert!(matches!(scopes.scope_type(), ScopeType::TopLevel));
}

#[test]
fn entering_and_leaving() {
    let mut scopes = ScopeList::new();
    scopes.enter_scope(ScopeType::Block, range(0, 0, 9, 0));
    scopes.enter_scope(ScopeType::Loop, range(1, 0, 2, 0));
    assert_eq!(scopes.current(), 2);
    assert!(matches!(scopes.scope_type(), ScopeType::Loop));
    assert!(scopes.leave_scope());
    assert_eq!(scopes.current(), 1);
    scopes.enter_scope(ScopeType::Loop, range(3, 0, 4, 0));
    assert_eq!(scopes.current(), 3);
    assert!(scopes.leave_scope());
    assert!(scopes.leave_scope());
    assert_eq!(scopes.current(), 0);
    assert!(!scopes.leave_scope());
    assert_eq!(scopes.len(), 4);
}

#[test]
fn the_nearest_binding_comes_first() {
    let mut scopes = ScopeList::new();
    scopes.insert("a".to_string(), value("float", false));
    scopes.enter_scope(ScopeType::Block, range(0, 0, 9, 0));
    scopes.insert("b".to_string(), value("int", false));
    scopes.enter_scope(ScopeType::Loop, range(1, 0, 2, 0));
    scopes.extend(vec![
        ("c".to_string(), value("bool", true)),
        ("d".to_string(), value("uint", true)),
        ("c".to_string(), value("vec2", true)),
    ]);
    assert_eq!(names(&scopes), vec![vec!["c", "d"], vec!["b"], vec!["a"]]);
    assert_eq!(scopes.collect_scopes()[0][0].1.ty.to_string(), "vec2");
    scopes.leave_scope();
    assert_eq!(names(&scopes), vec![vec!["b"], vec!["a"]]);
    scopes.enter_scope(ScopeType::Loop, range(3, 0, 4, 0));
    assert_eq!(names(&scopes), vec![vec![], vec!["b"], vec!["a"]]);
    let from_first_loop: Vec<usize> =
        scopes.collect_scopes_from(2).iter().map(|table| table.len()).collect();
    assert_eq!(from_first_loop, vec![2, 1, 1]);
    assert_eq!(scopes.collect_scopes_from(0).len(), 1);
    assert_eq!(scopes.collect_scopes_from(99).len(), 1);
    scopes.insert("b".to_string(), value("mat3", false));
    scopes.insert("b".to_string(), value("mat4", false));
    assert_eq!(names(&scopes), vec![vec!["b"], vec!["b"], vec!["a"]]);
    assert_eq!(scopes.collect_scopes()[0][0].1.ty.to_string(), "mat4");
}

#[test]
fn the_innermost_scope_at_a_position() {
    let mut scopes = ScopeList::new();
    scopes.enter_scope(function(None), range(1, 0, 9, 1));
    scopes.enter_scope(ScopeType::Loop, range(2, 4, 4, 5));
    scopes.leave_scope();
    scopes.enter_scope(ScopeType::Loop, range(5, 4, 7, 5));
    assert_eq!(scopes.find_scope_from_position(Position::new(0, 0)), 0);
    assert_eq!(scopes.find_scope_from_position(Position::new(0, 3)), 0);
    assert_eq!(scopes.find_scope_from_position(Position::new(1, 0)), 1);
    assert_eq!(scopes.find_scope_from_position(Position::new(3, 0)), 2);
    assert_eq!(scopes.find_scope_from_position(Position::new(4, 6)), 1);
    assert_eq!(scopes.find_scope_from_position(Position::new(6, 2)), 3);
    assert_eq!(scopes.find_scope_from_position(Position::new(9, 1)), 1);
    assert_eq!(scopes.find_scope_from_position(Position::new(9, 2)), 0);
    scopes.force_scope(2);
    assert_eq!(scopes.current(), 2);
    scopes.force_scope(17);
    assert_eq!(scopes.current(), 2);
}

#[test]
fn what_a_function_returns_is_noted_in_its_scope() {
    let mut scopes = ScopeList::new();
    assert!(scopes.get_expected_return_type().is_none());
    assert!(!scopes.assert_returned());
    scopes.set_actual_return_type(Some(TypeInfo::from_str("float")));
    assert!(!scopes.assert_returned());
    scopes.enter_scope(function(Some("float")), range(0, 0, 9, 0));
    assert_eq!(scopes.get_expected_return_type().map(|t| t.to_string()), Some("float".to_string()));
    assert!(!scopes.assert_returned());
    scopes.enter_scope(ScopeType::Loop, range(1, 0, 2, 0));
    assert_eq!(scopes.get_expected_return_type().map(|t| t.to_string()), Some("float".to_string()));
    scopes.set_actual_return_type(Some(TypeInfo::from_str("float")));
    assert!(scopes.assert_returned());
    scopes.set_actual_return_type(Some(TypeInfo::from_str("int")));
    assert!(!scopes.assert_returned());
    scopes.set_actual_return_type(Some(TypeInfo::from_str("vec_type")));
    assert!(scopes.assert_returned());
    scopes.set_actual_return_type(None);
    assert!(!scopes.assert_returned());
    scopes.leave_scope();
    scopes.leave_scope();
    assert!(!scopes.assert_returned());
    scopes.enter_scope(function(None), range(10, 0, 19, 0));
    assert!(scopes.get_expected_return_type().is_none());
    assert!(scopes.assert_returned());
    scopes.set_actual_return_type(Some(TypeInfo::from_str("int")));
    assert!(!scopes.assert_returned());
    match scopes.scope_type() {
        ScopeType::Function(noted) => {
            assert!(noted.expected.is_none());
            assert_eq!(noted.returned.map(|t| t.to_string()), Some("int".to_string()));
        },
        _ => panic!("not a function scope"),
    }
}
