use env_config::derive_env_var_name;

#[test]
fn prefix_and_field_join_with_underscore() {
    assert_eq!(
        derive_env_var_name(Some("TEST"), "some_mandatory_bool"),
        "TEST_SOME_MANDATORY_BOOL"
    );
}

#[test]
fn no_prefix_yields_uppercased_field() {
    assert_eq!(
        derive_env_var_name(None, "some_mandatory_bool"),
        "SOME_MANDATORY_BOOL"
    );
}

#[test]
fn folding_is_ascii_only_and_keeps_digits() {
    assert_eq!(derive_env_var_name(None, "db_port2"), "DB_PORT2");
    assert_eq!(derive_env_var_name(None, "aBcD"), "ABCD");
}

#[test]
fn prefix_is_used_verbatim() {
    assert_eq!(derive_env_var_name(Some("low"), "x"), "low_X");
}

#[test]
fn empty_field_identifier_yields_only_the_prefix_part() {
    assert_eq!(derive_env_var_name(Some("TEST"), ""), "TEST_");
    assert_eq!(derive_env_var_name(None, ""), "");
}

#[test]
fn derivation_is_deterministic() {
    let a = derive_env_var_name(Some("APP"), "listen_addr");
    let b = derive_env_var_name(Some("APP"), "listen_addr");
    assert_eq!(a, b);
    assert_eq!(a, "APP_LISTEN_ADDR");
}
