use rudr::json::JsonValue;
use rudr::schematic::parameter::{
    resolve_parameters, resolve_value, resolve_values, Parameter, ParameterType, ParameterValue,
    ResolvedVals,
};
use rudr::strmap::StrMap;

fn s(v: &str) -> JsonValue {
    JsonValue::from_str(v)
}

#[test]
fn test_resolve_parameters() {
    let params = vec![
        Parameter {
            name: "email".into(),
            description: Some("a valid email address".into()),
            parameter_type: ParameterType::String,
            required: true,
            default: None,
        },
        Parameter {
            name: "yob".into(),
            description: Some("year of birth".into()),
            parameter_type: ParameterType::Number,
            default: Some(JsonValue::from_i64(1912)),
            required: false,
        },
    ];
    let mut vals1: ResolvedVals = StrMap::new();
    vals1.insert("email".into(), s("eliot@example.com"));
    vals1.insert("yob".into(), JsonValue::from_i64(1888));

    let res = resolve_parameters(&params, &vals1).expect("vals1 should pass successfully");
    assert_eq!(
        s("eliot@example.com"),
        *res.get("email").expect("email should be set")
    );
    assert_eq!(JsonValue::from_i64(1888), *res.get("yob").expect("yob should be set"));

    // This set of values should fail. Email is required.
    let mut vals2: ResolvedVals = StrMap::new();
    vals2.insert("yob".into(), JsonValue::from_i64(1888));

    let res = resolve_parameters(&params, &vals2);
    assert!(res.is_err());
    assert!(res
        .unwrap_err()
        .to_string()
        .starts_with("validation failed"));

    // Type mismatch
    let mut vals3: ResolvedVals = StrMap::new();
    vals3.insert("email".into(), s("eliot@example.com"));
    vals3.insert("yob".into(), s("not an integer"));
    let res = resolve_parameters(&params, &vals3);
    assert!(res.is_err());
    assert!(res
        .unwrap_err()
        .to_string()
        .starts_with("validation failed"));

    // Check that default field works.
    let mut vals3: ResolvedVals = StrMap::new();
    vals3.insert("email".into(), s("eliot@example.com"));
    let res = resolve_parameters(&params, &vals3).expect("default value is okay");
    assert_eq!(
        JsonValue::from_i64(1912),
        *res.get("yob").expect("yob should be set to default")
    );
}

#[test]
fn resolve_parameters_reports_each_failure() {
    let params = vec![Parameter {
        name: "email".into(),
        description: None,
        parameter_type: ParameterType::String,
        required: true,
        default: None,
    }];
    let vals: ResolvedVals = StrMap::new();
    let err = resolve_parameters(&params, &vals).unwrap_err();
    assert_eq!(
        vec![
            "parameter email is required".to_string(),
            "expected string value for email".to_string()
        ],
        err.errs
    );
    assert_eq!(
        r#"validation failed: ["parameter email is required", "expected string value for email"]"#,
        err.to_string()
    );
}

#[test]
fn validate_checks_each_type() {
    let mk = |t: ParameterType| Parameter {
        name: "p".into(),
        description: None,
        parameter_type: t,
        required: false,
        default: None,
    };
    assert!(mk(ParameterType::Boolean).validate(&JsonValue::Bool(true)).is_ok());
    assert_eq!(
        Err("expected boolean value for p".to_string()),
        mk(ParameterType::Boolean).validate(&s("x"))
    );
    assert!(mk(ParameterType::Number).validate(&JsonValue::from_i64(-3)).is_ok());
    assert_eq!(
        Err("expected numeric value for p".to_string()),
        mk(ParameterType::Number).validate(&JsonValue::Null)
    );
    assert!(mk(ParameterType::Null).validate(&JsonValue::Null).is_ok());
    assert_eq!(
        Err("expected null value for p".to_string()),
        mk(ParameterType::Null).validate(&JsonValue::Bool(false))
    );
}

#[test]
fn test_resolve_values() {
    let parent = vec![
        ParameterValue {
            name: "pet".into(),
            value: Some(s("dog")),
            from_param: None,
        },
        ParameterValue {
            name: "home".into(),
            value: Some(s("house")),
            from_param: None,
        },
    ];
    let child = vec![
        ParameterValue {
            name: "favorite_animal".into(),
            value: None,
            from_param: Some("pet".to_string()),
        },
        ParameterValue {
            name: "abode".into(),
            value: None,
            from_param: Some("home".to_string()),
        },
    ];

    let merged = resolve_values(&child, &parent).expect("resolve parent values into child");
    assert_eq!(
        Some(&"house".to_string()),
        merged.get("abode").expect("abode is home").as_str()
    );
    assert_eq!(
        Some(&"dog".to_string()),
        merged
            .get("favorite_animal")
            .expect("abode is home")
            .as_str()
    );

    // Failed `from`
    let parent = vec![ParameterValue {
        name: "home".into(),
        value: Some(s("house")),
        from_param: None,
    }];
    let child = vec![
        ParameterValue {
            name: "favorite_animal".into(),
            value: None,
            from_param: Some("pet".to_string()),
        },
        ParameterValue {
            name: "abode".into(),
            value: None,
            from_param: Some("home".to_string()),
        },
    ];

    assert_eq!(
        "could not resolve fromParam:pet for favorite_animal",
        resolve_values(&child, &parent)
            .expect_err("expected failure")
            .to_string()
    );

    // No from, but with a default value.
    let parent = vec![ParameterValue {
        name: "home".into(),
        value: Some(s("house")),
        from_param: None,
    }];
    let child = vec![
        ParameterValue {
            name: "favorite_animal".into(),
            value: Some(s("cat")),
            from_param: Some("pet".to_string()),
        },
        ParameterValue {
            name: "abode".into(),
            value: Some(s("condo")),
            from_param: Some("home".to_string()),
        },
    ];

    let merged = resolve_values(&child, &parent).expect("should parse fine");
    assert_eq!(
        Some(&"cat".to_string()),
        merged
            .get("favorite_animal")
            .expect("favorite animal")
            .as_str()
    );
    assert_eq!(Some(&"house".to_string()), merged.get("abode").expect("abode").as_str());
}

#[test]
fn resolve_value_prefers_the_named_parameter() {
    let mut params: ResolvedVals = StrMap::new();
    params.insert("one".into(), s("test one"));
    params.insert("num".into(), JsonValue::from_i64(42));
    assert_eq!(
        Some("test one".to_string()),
        resolve_value(&params, &Some("one".into()), &Some("lit".into()))
    );
    assert_eq!(
        Some("42".to_string()),
        resolve_value(&params, &Some("num".into()), &None)
    );
    assert_eq!(
        Some("lit".to_string()),
        resolve_value(&params, &Some("two".into()), &Some("lit".into()))
    );
    assert_eq!(None, resolve_value(&params, &None, &None));
}

#[test]
fn optional_parameters_may_be_left_out() {
    let params = vec![
        Parameter {
            name: "nickname".into(),
            description: None,
            parameter_type: ParameterType::String,
            required: false,
            default: None,
        },
        Parameter {
            name: "email".into(),
            description: None,
            parameter_type: ParameterType::String,
            required: true,
            default: None,
        },
    ];
    let mut vals: ResolvedVals = StrMap::new();
    vals.insert("email".into(), s("eliot@example.com"));
    let res = resolve_parameters(&params, &vals).expect("an optional parameter may be left out");
    assert_eq!(JsonValue::Null, *res.get("nickname").expect("nickname resolves to null"));
    // A required parameter left out still fails, on both counts.
    let err = resolve_parameters(&params, &StrMap::new()).expect_err("email is required");
    assert_eq!(
        vec!["parameter email is required".to_string(), "expected string value for email".to_string()],
        err.errs
    );
    // A value of the wrong type for an optional parameter still fails.
    vals.insert("nickname".into(), JsonValue::from_i64(7));
    assert!(resolve_parameters(&params, &vals).is_err());
}
