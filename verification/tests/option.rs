use env_config::{derive_env_var_name, optional_field, EnvError, Environment, FromEnv};

#[derive(Debug, PartialEq)]
struct MyLovelyConfig {
    some_optional_bool: Option<bool>,
}

impl FromEnv for MyLovelyConfig {
    fn from_env(env: &Environment) -> Result<MyLovelyConfig, EnvError> {
        let env_var_name = derive_env_var_name(Some("TEST"), "some_optional_bool");
        let lookup = env.lookup(&env_var_name);
        let some_optional_bool: Option<bool> = optional_field(&env_var_name, lookup)?;
        Ok(MyLovelyConfig { some_optional_bool })
    }
}

#[test]
fn option_test_test_env_var_set_to_true() {
    let mut env = Environment::new();
    env.record_text(
        String::from("TEST_SOME_OPTIONAL_BOOL"),
        String::from("true"),
    );
    let c = MyLovelyConfig::from_env(&env).unwrap();
    assert_eq!(c, MyLovelyConfig { some_optional_bool: Some(true) });
}

#[test]
fn option_test_test_env_var_set_to_false() {
    let mut env = Environment::new();
    env.record_text(
        String::from("TEST_SOME_OPTIONAL_BOOL"),
        String::from("false"),
    );
    let c = MyLovelyConfig::from_env(&env).unwrap();
    assert_eq!(c, MyLovelyConfig { some_optional_bool: Some(false) });
}

#[test]
fn option_test_test_env_var_not_set() {
    let env = Environment::new();
    let c = MyLovelyConfig::from_env(&env).unwrap();
    assert_eq!(c, MyLovelyConfig { some_optional_bool: None });
}
