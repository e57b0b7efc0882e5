use byte::forms::{Form, FormError, FormField, FormValue, PathKind};

#[test]
fn builder_adds_fields_in_order() {
    let form = Form::new("T")
        .description("D")
        .text_input("name", "Name", "n")
        .email("mail", "Mail", "m")
        .number("n", "Count", 5, Some(1), Some(9))
        .select("s", "Pick", vec!["a".to_string(), "b".to_string()])
        .multi_select("ms", "Many", vec!["x".to_string(), "y".to_string()])
        .checkbox("c", "Check")
        .path("p", "Where", PathKind::Directory);
    assert_eq!(form.fields.len(), 7);
    assert_eq!(form.fields[2].label(), "Count");
    assert_eq!(form.description.as_deref(), Some("D"));
    assert!(!form.is_done());
}

#[test]
fn keys_edit_fields() {
    let mut f = FormField::TextInput { id: "a".into(), label: "A".into(), placeholder: "".into(), value: "".into() };
    f.handle_char('h');
    f.handle_char('i');
    f.handle_backspace();
    assert_eq!(f.get_value().1.as_str(), Some("h"));
    let mut n = FormField::Number { id: "n".into(), label: "N".into(), value: 3, min: None, max: None };
    n.handle_up();
    n.handle_up();
    n.handle_down();
    assert_eq!(n.get_value().1.as_number(), Some(4));
    let mut s = FormField::Select { id: "s".into(), label: "S".into(), options: vec!["a".into(), "b".into()], selected: 0 };
    s.handle_down();
    s.handle_down();
    assert_eq!(s.get_value().1.as_str(), Some("b"));
    s.handle_up();
    s.handle_up();
    assert_eq!(s.get_value().1.as_str(), Some("a"));
    let mut c = FormField::Checkbox { id: "c".into(), label: "C".into(), checked: false };
    c.handle_space();
    assert_eq!(c.get_value().1.as_bool(), Some(true));
    c.handle_space();
    assert_eq!(c.get_value().1.as_bool(), Some(false));
    let mut m = FormField::MultiSelect { id: "m".into(), label: "M".into(), options: vec!["x".into()], selected: vec![] };
    m.handle_space();
    match m.get_value().1 {
        FormValue::List(l) => assert_eq!(l, vec!["x".to_string()]),
        other => panic!("unexpected {:?}", other),
    }
}

#[test]
fn validation_and_submission() {
    let mut form = Form::new("T").email("mail", "Mail", "m").number("n", "Count", 5, Some(1), Some(9));
    form.fields[0] = FormField::Email { id: "mail".into(), label: "Mail".into(), placeholder: "m".into(), value: "nobody".into() };
    match form.submit() {
        Err(e) => {
            assert!(matches!(e, FormError::InvalidEmail { .. }));
            assert_eq!(e.message(), "Mail: Invalid email format");
        }
        Ok(_) => panic!("should be refused"),
    }
    assert!(!form.submitted);
    form.fields[0] = FormField::Email { id: "mail".into(), label: "Mail".into(), placeholder: "m".into(), value: "a@b".into() };
    form.fields[1] = FormField::Number { id: "n".into(), label: "Count".into(), value: 10, min: Some(1), max: Some(9) };
    let e = form.validate().unwrap_err();
    assert_eq!(e.message(), "Count: Value must be at most 9");
    form.fields[1] = FormField::Number { id: "n".into(), label: "Count".into(), value: -3, min: Some(-2), max: None };
    assert_eq!(form.validate().unwrap_err().message(), "Count: Value must be at least -2");
    form.fields[1] = FormField::Number { id: "n".into(), label: "Count".into(), value: 2, min: Some(1), max: Some(9) };
    let values = form.submit().unwrap();
    assert!(form.submitted);
    assert_eq!(values.len(), 2);
    assert_eq!(values[0].0, "mail");
    assert_eq!(values[1].1.as_number(), Some(2));
}

#[test]
fn field_navigation_stops_at_the_ends() {
    let mut form = Form::new("T").checkbox("a", "A").checkbox("b", "B");
    form.prev_field();
    assert_eq!(form.current_field, 0);
    form.next_field();
    form.next_field();
    assert_eq!(form.current_field, 1);
    assert_eq!(form.current_field_ref().unwrap().label(), "B");
    form.cancel();
    assert!(form.is_done());
}

#[test]
fn later_fields_with_the_same_id_win() {
    let form = Form::new("T").checkbox("x", "A").text_input("x", "B", "");
    let values = form.values();
    assert_eq!(values.len(), 1);
    assert_eq!(values[0].1.as_str(), Some(""));
}
