use env_config::{derive_env_var_name, mandatory_field, EnvError, Environment, FromEnv};

#[derive(Debug, PartialEq)]
struct MyLovelyConfig {
    some_mandatory_bool: bool,
}

impl FromEnv for MyLovelyConfig {
    fn from_env(env: &Environment) -> Result<MyLovelyConfig, EnvError> {
        let env_var_name = derive_env_var_name(Some("TEST"), "some_mandatory_bool");
        let lookup = env.lookup(&env_var_name);
        let some_mandatory_bool: bool = mandatory_field(&env_var_name, lookup)?;
        Ok(MyLovelyConfig { some_mandatory_bool })
    }
}

#[test]
fn mandatory_test_test_env_var_set_to_true() {
    let mut env = Environment::new();
    env.record_text(
        String::from("TEST_SOME_MANDATORY_BOOL"),
        String::from("true"),
    );
    let c = MyLovelyConfig::from_env(&env).unwrap();
    assert_eq!(c, MyLovelyConfig { some_mandatory_bool: true });
}

#[test]
fn mandatory_test_test_env_var_set_to_false() {
    let mut env = Environment::new();
    env.record_text(
        String::from("TEST_SOME_MANDATORY_BOOL"),
        String::from("false"),
    );
    let c = MyLovelyConfig::from_env(&env).unwrap();
    assert_eq!(c, MyLovelyConfig { some_mandatory_bool: false });
}

#[test]
fn mandatory_test_test_env_var_not_set() {
    let env = Environment::new();
    match MyLovelyConfig::from_env(&env) {
        Err(EnvError::MandatoryEnvVarNotSet { env_var_name }) => {
            assert_eq!(env_var_name, "TEST_SOME_MANDATORY_BOOL");
        }
        other => panic!("expected MandatoryEnvVarNotSet, got {:?}", other),
    }
}
