use vstd::prelude::*;
use vstd::string::*;

verus! {

/// A required property is not in the configuration.
///
/// * `property`: the key that was looked for
#[derive(Clone, Debug, PartialEq, Eq)]
pub struct MissingConfigPropertyError {
    pub property: String,
}

/// A property is invalid or holds unexpected data.
///
/// * `key`: the key of the property
#[derive(Clone, Debug, PartialEq, Eq)]
pub struct InvalidConfigPropertyKeyError {
    pub key: String,
}

/// What can be wrong with the properties of a configuration.
#[derive(Clone, Debug, PartialEq, Eq)]
pub enum ConfigPropertiesError {
    MissingConfigPropertyError(MissingConfigPropertyError),
    InvalidConfigPropertyKeyError(InvalidConfigPropertyKeyError),
}

/// A defect of the properties, with the key it was found at as plain characters.
pub enum ConfigDefect {
    Missing(Seq<char>),
    Invalid(Seq<char>),
}

impl MissingConfigPropertyError {
    /// The sentence that reports the error.
    pub open spec fn message_text(self) -> Seq<char> {
        "property does not exist in configuration: "@ + self.property@
    }

    /// Writes the sentence that reports the error.
    pub fn message(&self) -> (r: String)
        ensures
            r@ == self.message_text(),
    {
        let mut out = String::from_str("property does not exist in configuration: ");
        out.append(self.property.as_str());
        out
    }
}

impl InvalidConfigPropertyKeyError {
    /// The sentence that reports the error.
    pub open spec fn message_text(self) -> Seq<char> {
        "invalid configuration properties key: "@ + self.key@
    }

    /// Writes the sentence that reports the error.
    pub fn message(&self) -> (r: String)
        ensures
            r@ == self.message_text(),
    {
        let mut out = String::from_str("invalid configuration properties key: ");
        out.append(self.key.as_str());
        out
    }
}

impl View for ConfigPropertiesError {
    type V = ConfigDefect;

    open spec fn view(&self) -> ConfigDefect {
        match self {
            ConfigPropertiesError::MissingConfigPropertyError(error) => ConfigDefect::Missing(
                error.property@,
            ),
            ConfigPropertiesError::InvalidConfigPropertyKeyError(error) => ConfigDefect::Invalid(
                error.key@,
            ),
        }
    }
}

impl ConfigPropertiesError {
    /// The sentence that reports the error.
    pub open spec fn message_text(self) -> Seq<char> {
        match self {
            ConfigPropertiesError::MissingConfigPropertyError(error) => error.message_text(),
            ConfigPropertiesError::InvalidConfigPropertyKeyError(error) => error.message_text(),
        }
    }

    /// The error for a property that is not there.
    pub fn missing(key: &str) -> (r: ConfigPropertiesError)
        ensures
            r@ == ConfigDefect::Missing(key@),
    {
        ConfigPropertiesError::MissingConfigPropertyError(
            MissingConfigPropertyError { property: String::from_str(key) },
        )
    }

    /// The error for a property that is there and cannot be used.
    pub fn invalid(key: &str) -> (r: ConfigPropertiesError)
        ensures
            r@ == ConfigDefect::Invalid(key@),
    {
        ConfigPropertiesError::InvalidConfigPropertyKeyError(
            InvalidConfigPropertyKeyError { key: String::from_str(key) },
        )
    }

    /// Writes the sentence that reports the error.
    pub fn message(&self) -> (r: String)
        ensures
            r@ == self.message_text(),
    {
        match self {
            ConfigPropertiesError::MissingConfigPropertyError(error) => error.message(),
            ConfigPropertiesError::InvalidConfigPropertyKeyError(error) => error.message(),
        }
    }
}

} // verus!
