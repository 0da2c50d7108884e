use warden::environment::Environment;
use warden::error::ConfigError;

#[test]
fn parses_every_spelling_of_the_names() {
    let cases = [
        ("default", Environment::Default),
        ("Default", Environment::Default),
        ("DEFAULT", Environment::Default),
        ("staging", Environment::Staging),
        ("Staging", Environment::Staging),
        ("production", Environment::Production),
        ("PRODUCTION", Environment::Production),
        ("pRoDuCtIoN", Environment::Production),
    ];
    for (raw, expected) in cases {
        assert_eq!(Environment::parse(raw), Ok(expected), "input {raw}");
    }
}

#[test]
fn rejects_unknown_names() {
    let err = Environment::parse("bogus").unwrap_err();
    assert_eq!(err, ConfigError::UnsupportedEnvironment { value: "bogus".to_string() });
    assert_eq!(
        err.describe(),
        "unsupported environment 'bogus'; valid values: default, staging, production"
    );
}

#[test]
fn rejects_near_misses() {
    for raw in ["", "prod", "production ", " default", "stagingx", "defaul"] {
        assert_eq!(
            Environment::parse(raw),
            Err(ConfigError::UnsupportedEnvironment { value: raw.to_string() })
        );
    }
}

#[test]
fn rejects_non_ascii_look_alikes() {
    // U+0130 lower-cases to two characters, U+212A to 'k'.
    assert!(Environment::parse("\u{130}").is_err());
    assert!(Environment::parse("STAG\u{130}NG").is_err());
}

#[test]
fn unset_variable_selects_default() {
    assert_eq!(Environment::resolve(None), Ok(Environment::Default));
    assert_eq!(Environment::resolve(Some("Staging")), Ok(Environment::Staging));
    assert_eq!(
        Environment::resolve(Some("bogus")),
        Err(ConfigError::UnsupportedEnvironment { value: "bogus".to_string() })
    );
}

#[test]
fn names_and_paths() {
    assert_eq!(Environment::Default.as_str(), "default");
    assert_eq!(Environment::Staging.as_str(), "staging");
    assert_eq!(Environment::Production.as_str(), "production");
    assert_eq!(Environment::Default.config_path(), "config/default.yml");
    assert_eq!(Environment::Staging.config_path(), "config/staging.yml");
    assert_eq!(Environment::Production.config_path(), "config/production.yml");
}

#[test]
fn unset_variable_loads_default_file() {
    let env = Environment::resolve(None).unwrap();
    assert_eq!(env, Environment::Default);
    assert_eq!(env.config_path(), "config/default.yml");
}

#[test]
fn error_descriptions() {
    let e = ConfigError::SourceUnavailable { path: "config/default.yml".to_string() };
    assert_eq!(e.describe(), "configuration source unavailable: config/default.yml");
    let e = ConfigError::SchemaError { field: "app.port".to_string() };
    assert_eq!(e.describe(), "configuration schema error at app.port");
    let e = ConfigError::AddressInvalid { address: "x:1".to_string() };
    assert_eq!(e.describe(), "invalid bind address: x:1");
}

#[test]
fn try_from_string_keeps_the_rejected_value() {
    assert_eq!(Environment::try_from("Production".to_string()), Ok(Environment::Production));
    assert_eq!(
        Environment::try_from("qa".to_string()),
        Err(ConfigError::UnsupportedEnvironment { value: "qa".to_string() })
    );
}
