use shunt::env::apply_env_overrides;

fn bindings(pairs: &[(&str, &str)]) -> Vec<(String, String)> {
    pairs.iter().map(|(k, v)| (k.to_string(), v.to_string())).collect()
}

fn lookup<'a>(env: &'a [(String, String)], k: &str) -> Option<&'a str> {
    env.iter().find(|(key, _)| key == k).map(|(_, v)| v.as_str())
}

#[test]
fn env_override_with_value_sets_variable() {
    let inherited = bindings(&[("PATH", "/usr/bin"), ("LANG", "C")]);
    let overrides = vec![(String::from("LANG"), Some(String::from("en_US.UTF-8")))];
    let child = apply_env_overrides(&inherited, &overrides);
    assert_eq!(lookup(&child, "LANG"), Some("en_US.UTF-8"));
    assert_eq!(lookup(&child, "PATH"), Some("/usr/bin"));
}

#[test]
fn env_override_without_value_removes_variable() {
    let inherited = bindings(&[("PATH", "/usr/bin"), ("SECRET", "hunter2")]);
    let overrides = vec![(String::from("SECRET"), None)];
    let child = apply_env_overrides(&inherited, &overrides);
    assert_eq!(lookup(&child, "SECRET"), None);
    assert_eq!(lookup(&child, "PATH"), Some("/usr/bin"));
    assert_eq!(child.len(), 1);
}

#[test]
fn env_untouched_variables_pass_through() {
    let inherited = bindings(&[("A", "1"), ("B", "2"), ("C", "3")]);
    let overrides = vec![
        (String::from("B"), Some(String::from("two"))),
        (String::from("D"), Some(String::from("4"))),
    ];
    let child = apply_env_overrides(&inherited, &overrides);
    assert_eq!(lookup(&child, "A"), Some("1"));
    assert_eq!(lookup(&child, "B"), Some("two"));
    assert_eq!(lookup(&child, "C"), Some("3"));
    assert_eq!(lookup(&child, "D"), Some("4"));
    assert_eq!(child.len(), 4);
}

#[test]
fn env_removing_absent_variable_is_harmless() {
    let inherited = bindings(&[("A", "1")]);
    let overrides = vec![(String::from("GONE"), None)];
    let child = apply_env_overrides(&inherited, &overrides);
    assert_eq!(child, bindings(&[("A", "1")]));
}

#[test]
fn env_no_overrides_is_identity() {
    let inherited = bindings(&[("A", "1"), ("B", "2")]);
    let overrides: Vec<(String, Option<String>)> = Vec::new();
    let child = apply_env_overrides(&inherited, &overrides);
    assert_eq!(child, inherited);
}
