use vstd::prelude::*;

use crate::error::ConfigError;

verus! {

/// The deployment environments that the service can run in.
#[derive(Clone, Copy, Debug, PartialEq, Eq, Structural)]
pub enum Environment {
    Default,
    Staging,
    Production,
}

/// `c` equals the lower-case ASCII letter or symbol `t`, ignoring ASCII case.
pub open spec fn char_matches(c: char, t: char) -> bool {
    ||| c == t
    ||| ('a' <= t && t <= 'z' && c as u32 + 32 == t as u32)
}

/// `s` spells the lower-case token `t`, ignoring ASCII case.
pub open spec fn matches_token(s: Seq<char>, t: Seq<char>) -> bool {
    &&& s.len() == t.len()
    &&& forall|i: int| 0 <= i < s.len() ==> char_matches(#[trigger] s[i], t[i])
}

impl Environment {
    /// The canonical lower-case name of the environment.
    pub open spec fn token(self) -> Seq<char> {
        match self {
            Environment::Default => "default"@,
            Environment::Staging => "staging"@,
            Environment::Production => "production"@,
        }
    }

    /// The environment that `raw` names, if any.
    pub open spec fn named(raw: Seq<char>) -> Option<Environment> {
        if matches_token(raw, Environment::Default.token()) {
            Some(Environment::Default)
        } else if matches_token(raw, Environment::Staging.token()) {
            Some(Environment::Staging)
        } else if matches_token(raw, Environment::Production.token()) {
            Some(Environment::Production)
        } else {
            None
        }
    }

    pub fn as_str(&self) -> (r: &'static str)
        ensures
            r@ == self.token(),
    {
        match self {
            Environment::Default => "default",
            Environment::Staging => "staging",
            Environment::Production => "production",
        }
    }

    /// Parses an environment name, ignoring ASCII case. Unicode lower-casing
    /// would accept exactly the same strings here: no other character
    /// lower-cases to a letter of the three names.
    pub fn parse(raw: &str) -> (r: Result<Environment, ConfigError>)
        ensures
            match Environment::named(raw@) {
                Some(e) => r == Ok::<Environment, ConfigError>(e),
                None => r matches Err(ConfigError::UnsupportedEnvironment { value })
                    && value@ == raw@,
            },
    {
        match find_named(raw) {
            Some(e) => Ok(e),
            None => Err(ConfigError::UnsupportedEnvironment { value: raw.to_string() }),
        }
    }

    /// Resolves the environment from the raw value of the selecting variable;
    /// an unset variable selects `default`.
    pub fn resolve(raw: Option<&str>) -> (r: Result<Environment, ConfigError>)
        ensures
            raw is None ==> r == Ok::<Environment, ConfigError>(Environment::Default),
            raw matches Some(s) ==> match Environment::named(s@) {
                Some(e) => r == Ok::<Environment, ConfigError>(e),
                None => r matches Err(ConfigError::UnsupportedEnvironment { value })
                    && value@ == s@,
            },
    {
        match raw {
            None => Ok(Environment::Default),
            Some(s) => Environment::parse(s),
        }
    }

    /// The path of this environment's configuration file, relative to the
    /// working directory: `config/<name>.yml`.
    pub fn config_path(&self) -> (r: String)
        ensures
            r@ == "config/"@ + self.token() + ".yml"@,
    {
        let mut path = String::from_str("config/");
        path.append(self.as_str());
        path.append(".yml");
        path
    }
}

impl TryFrom<String> for Environment {
    type Error = ConfigError;

    fn try_from(value: String) -> (r: Result<Environment, ConfigError>)
        ensures
            match Environment::named(value@) {
                Some(e) => r == Ok::<Environment, ConfigError>(e),
                None => r matches Err(ConfigError::UnsupportedEnvironment { value: v })
                    && v@ == value@,
            },
    {
        match find_named(value.as_str()) {
            Some(e) => Ok(e),
            None => Err(ConfigError::UnsupportedEnvironment { value }),
        }
    }
}

impl vstd::std_specs::convert::TryFromSpecImpl<String> for Environment {
    open spec fn obeys_try_from_spec() -> bool {
        true
    }

    open spec fn try_from_spec(value: String) -> Result<Environment, ConfigError> {
        match Environment::named(value@) {
            Some(e) => Ok(e),
            None => Err(ConfigError::UnsupportedEnvironment { value }),
        }
    }
}

fn find_named(raw: &str) -> (r: Option<Environment>)
    ensures
        r == Environment::named(raw@),
{
    if eq_ignore_ascii_case(raw, "default") {
        Some(Environment::Default)
    } else if eq_ignore_ascii_case(raw, "staging") {
        Some(Environment::Staging)
    } else if eq_ignore_ascii_case(raw, "production") {
        Some(Environment::Production)
    } else {
        None
    }
}

/// Compares `s` with the lower-case token `t`, ignoring ASCII case.
fn eq_ignore_ascii_case(s: &str, t: &str) -> (r: bool)
    ensures
        r == matches_token(s@, t@),
{
    let n = s.unicode_len();
    if n != t.unicode_len() {
        return false;
    }
    let mut i: usize = 0;
    while i < n
        invariant
            n == s@.len(),
            n == t@.len(),
            i <= n,
            forall|j: int| 0 <= j < i ==> char_matches(#[trigger] s@[j], t@[j]),
        decreases n - i,
    {
        let c = s.get_char(i);
        let d = t.get_char(i);
        if !(c == d || ('a' <= d && d <= 'z' && c as u32 + 32 == d as u32)) {
            return false;
        }
        i = i + 1;
    }
    true
}

} // verus!
