use env_config::{assemble, EnvError, EnvVarError, Environment, FieldDecl, RawLookupResult};

fn field(name: &str, optional: bool) -> FieldDecl {
    FieldDecl { name: String::from(name), optional }
}

#[test]
fn assembles_fields_in_declaration_order() {
    let fields = vec![
        field("alpha", false),
        field("beta", true),
        field("gamma", true),
    ];
    let mut env = Environment::new();
    env.record_text(String::from("CFG_ALPHA"), String::from("true"));
    env.record_text(String::from("CFG_GAMMA"), String::from("false"));
    let r = assemble::<bool>(Some("CFG"), &fields, &env).unwrap();
    assert_eq!(r, vec![Some(true), None, Some(false)]);
}

#[test]
fn without_prefix_names_are_the_uppercased_fields() {
    let fields = vec![field("flag", false)];
    let mut env = Environment::new();
    env.record_text(String::from("FLAG"), String::from("true"));
    let r = assemble::<bool>(None, &fields, &env).unwrap();
    assert_eq!(r, vec![Some(true)]);
}

#[test]
fn first_failure_wins() {
    // Both fields are misconfigured; only the first field's error is
    // reported.
    let fields = vec![field("alpha", false), field("beta", false)];
    let mut env = Environment::new();
    env.record_text(String::from("ALPHA"), String::from("yes"));
    match assemble::<bool>(None, &fields, &env) {
        Err(EnvError::InvalidValue(EnvVarError::NotParsable { env_var_name, env_var_value })) => {
            assert_eq!(env_var_name, "ALPHA");
            assert_eq!(env_var_value, "yes");
        }
        other => panic!("expected NotParsable for ALPHA, got {:?}", other),
    }
}

#[test]
fn missing_mandatory_field_reports_the_derived_name() {
    let fields = vec![field("beta", true), field("alpha", false)];
    let env = Environment::new();
    match assemble::<bool>(Some("TEST"), &fields, &env) {
        Err(EnvError::MandatoryEnvVarNotSet { env_var_name }) => {
            assert_eq!(env_var_name, "TEST_ALPHA");
        }
        other => panic!("expected MandatoryEnvVarNotSet, got {:?}", other),
    }
}

#[test]
fn non_text_value_fails_an_optional_field_too() {
    let fields = vec![field("alpha", true)];
    let raw = vec![0x66, 0x6f, 0x80, 0x6f];
    let mut env = Environment::new();
    env.record_non_text(String::from("ALPHA"), raw.clone());
    match assemble::<bool>(None, &fields, &env) {
        Err(EnvError::InvalidValue(EnvVarError::NotUnicode { env_var_name, env_var_raw_value })) => {
            assert_eq!(env_var_name, "ALPHA");
            assert_eq!(env_var_raw_value, raw);
        }
        other => panic!("expected NotUnicode, got {:?}", other),
    }
}

#[test]
fn non_text_value_fails_a_mandatory_field_the_same_way() {
    let fields = vec![field("alpha", false)];
    let raw = vec![0x66, 0x6f, 0x80, 0x6f];
    let mut env = Environment::new();
    env.record_non_text(String::from("ALPHA"), raw.clone());
    match assemble::<bool>(None, &fields, &env) {
        Err(EnvError::InvalidValue(EnvVarError::NotUnicode { env_var_name, env_var_raw_value })) => {
            assert_eq!(env_var_name, "ALPHA");
            assert_eq!(env_var_raw_value, raw);
        }
        other => panic!("expected NotUnicode, got {:?}", other),
    }
}

#[test]
fn lookup_returns_the_first_entry_with_a_name() {
    let mut env = Environment::new();
    assert_eq!(env.lookup(&String::from("X")), RawLookupResult::Absent);
    env.record_text(String::from("X"), String::from("true"));
    env.record_text(String::from("X"), String::from("false"));
    assert_eq!(
        env.lookup(&String::from("X")),
        RawLookupResult::Text { value: String::from("true") }
    );
}
