use vstd::prelude::*;

verus! {

/// Every way in which the startup sequence can fail.
#[derive(Debug, PartialEq, Eq)]
pub enum ConfigError {
    /// The environment name is none of `default`, `staging`, `production`.
    UnsupportedEnvironment { value: String },
    /// The configuration file could not be read.
    SourceUnavailable { path: String },
    /// The configuration text is not YAML, or the field at this dotted
    /// path (`app.port`) is absent or of the wrong kind; the path is
    /// `document` where the text is not one well-formed YAML document.
    SchemaError { field: String },
    /// `hostname:port` does not parse as a socket address.
    AddressInvalid { address: String },
}

impl ConfigError {
    /// The diagnostic for this error, naming the stage and the offending value.
    pub open spec fn description(&self) -> Seq<char> {
        match self {
            ConfigError::UnsupportedEnvironment { value } => "unsupported environment '"@ + value@
                + "'; valid values: default, staging, production"@,
            ConfigError::SourceUnavailable { path } => "configuration source unavailable: "@
                + path@,
            ConfigError::SchemaError { field } => "configuration schema error at "@ + field@,
            ConfigError::AddressInvalid { address } => "invalid bind address: "@ + address@,
        }
    }

    pub fn describe(&self) -> (r: String)
        ensures
            r@ == self.description(),
    {
        match self {
            ConfigError::UnsupportedEnvironment { value } => {
                let mut r = String::from_str("unsupported environment '");
                r.append(value.as_str());
                r.append("'; valid values: default, staging, production");
                r
            },
            ConfigError::SourceUnavailable { path } => {
                String::from_str("configuration source unavailable: ").concat(path.as_str())
            },
            ConfigError::SchemaError { field } => {
                String::from_str("configuration schema error at ").concat(field.as_str())
            },
            ConfigError::AddressInvalid { address } => {
                String::from_str("invalid bind address: ").concat(address.as_str())
            },
        }
    }
}

} // verus!
