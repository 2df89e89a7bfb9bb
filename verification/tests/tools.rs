use ghost::tools::{bool_param, int_param, str_param, ParamValue, Params};

fn params(members: Vec<(&str, ParamValue)>) -> Params {
    Params { entries: members.into_iter().map(|(k, v)| (k.to_string(), v)).collect() }
}

#[test]
fn str_param_returns_string_or_none() {
    let v = params(vec![("a", ParamValue::Str("hello".to_string())), ("b", ParamValue::Int(3))]);
    assert_eq!(str_param(&v, "a"), Some("hello"));
    // Present but not a string.
    assert_eq!(str_param(&v, "b"), None);
    // Absent.
    assert_eq!(str_param(&v, "missing"), None);
}

#[test]
fn bool_param_uses_default_when_absent_or_wrong_type() {
    let v = params(vec![("flag", ParamValue::Bool(true)), ("notbool", ParamValue::Str("yes".to_string()))]);
    assert!(bool_param(&v, "flag", false));
    assert!(bool_param(&v, "notbool", true)); // wrong type → default
    assert!(!bool_param(&v, "absent", false));
}

#[test]
fn int_param_uses_default_when_absent_or_wrong_type() {
    let v = params(vec![("n", ParamValue::Int(7)), ("s", ParamValue::Str("12".to_string()))]);
    assert_eq!(int_param(&v, "n", 0), 7);
    assert_eq!(int_param(&v, "s", -1), -1); // string is not an i64 → default
    assert_eq!(int_param(&v, "absent", 99), 99);
}

#[test]
fn params_of_a_non_object_have_no_members() {
    let v = params(vec![]);
    assert_eq!(str_param(&v, "a"), None);
    assert!(bool_param(&v, "a", true));
    assert_eq!(int_param(&v, "a", 5), 5);
    let other = params(vec![("x", ParamValue::Other)]);
    assert_eq!(int_param(&other, "x", 4), 4);
}
