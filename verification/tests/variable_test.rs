use rudr::json::JsonValue;
use rudr::schematic::parameter::ParameterValue;
use rudr::schematic::variable::{
    dedup, get_variable_values, parse_from_variable, resolve_variables, Variable,
};

fn s(v: &str) -> JsonValue {
    JsonValue::from_str(v)
}

#[test]
fn test_resolve_variables() {
    let out = resolve_variables(
        &vec![
            ParameterValue {
                name: "dinner1".into(),
                value: Some(s("[fromVariable(pet1)]")),
                from_param: None,
            },
            ParameterValue {
                name: "dinner2".into(),
                value: Some(s("[fromVariable(pet2)]")),
                from_param: None,
            },
        ],
        &vec![
            Variable { name: "pet1".into(), value: s("cat") },
            Variable { name: "pet2".into(), value: s("dog") },
        ],
    )
    .expect("resolve variables");
    assert_eq!(Some(s("cat")), out[0].value);
    assert_eq!(Some(s("dog")), out[1].value);

    // test parameter value referencing undefine variable should error.
    let err = resolve_variables(
        &vec![ParameterValue {
            name: "dinner".into(),
            value: Some(s("[fromVariable(cereal)]")),
            from_param: None,
        }],
        &vec![],
    )
    .expect_err(r#"undefined variable `"cereal"`"#);
    assert_eq!(
        "parameter `\"dinner\"` references undefined variable `\"cereal\"`",
        err.to_string()
    );
}

#[test]
fn test_parse_from_variable() {
    assert_eq!(
        Some("VAR_42".to_owned()),
        parse_from_variable("[fromVariable(VAR_42)]")
    );
    assert_eq!(Some("_".to_owned()), parse_from_variable("[fromVariable(_)]"));
    assert_eq!(Some("42".to_owned()), parse_from_variable("[fromVariable(42)]"));
    assert_eq!(Some("VAR".to_owned()), parse_from_variable("[fromVariable(VAR)]"));
    assert_eq!(None, parse_from_variable("[fromVariable (VAR)]")); // illegal
    assert_eq!(None, parse_from_variable("[fromVariable()]"));
}

#[test]
fn parse_from_variable_needs_the_whole_text() {
    assert_eq!(None, parse_from_variable("x[fromVariable(VAR)]"));
    assert_eq!(None, parse_from_variable("[fromVariable(VAR)]x"));
    assert_eq!(None, parse_from_variable("[fromVariable(V-R)]"));
    assert_eq!(None, parse_from_variable(""));
}

#[test]
fn dedup_sorts_and_keeps_one_per_name() {
    let mut vars = vec![
        Variable { name: "b".into(), value: s("1") },
        Variable { name: "a".into(), value: s("2") },
        Variable { name: "b".into(), value: s("3") },
    ];
    dedup(&mut vars);
    assert_eq!(2, vars.len());
    assert_eq!("a", vars[0].name);
    assert_eq!("b", vars[1].name);
}

#[test]
fn variable_values_are_parameter_values() {
    let vals = get_variable_values(Some(vec![
        Variable { name: "z".into(), value: s("last") },
        Variable { name: "m".into(), value: JsonValue::from_i64(7) },
    ]));
    assert_eq!(2, vals.len());
    assert_eq!("m", vals[0].name);
    assert_eq!(Some(JsonValue::from_i64(7)), vals[0].value);
    assert_eq!(None, vals[0].from_param);
    assert_eq!("z", vals[1].name);
    assert!(get_variable_values(None).is_empty());
}
