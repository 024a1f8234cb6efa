use vstd::prelude::*;

verus! {

/// The deployment environment a request or event belongs to.
#[derive(PartialEq, Eq, Structural, Hash, Clone, Copy, Debug)]
pub enum Environment {
    Development,
    Staging,
    Production,
}

/// The canonical text of an environment.
pub open spec fn env_text(e: Environment) -> Seq<char> {
    match e {
        Environment::Development => "development"@,
        Environment::Staging => "staging"@,
        Environment::Production => "production"@,
    }
}

impl Environment {
    /// The environment's canonical text.
    pub fn as_str(&self) -> (r: &'static str)
        ensures
            r@ == env_text(*self),
    {
        match self {
            Environment::Development => "development",
            Environment::Staging => "staging",
            Environment::Production => "production",
        }
    }

    /// Parses an environment from its canonical text; any other text is
    /// rejected.
    pub fn try_from(value: &str) -> (r: Result<Environment, InvalidEnvironmentError>)
        ensures
            match r {
                Ok(e) => value@ == env_text(e),
                Err(_) => value@ != "development"@ && value@ != "staging"@ && value@
                    != "production"@,
            },
    {
        if value.eq("development") {
            Ok(Environment::Development)
        } else if value.eq("staging") {
            Ok(Environment::Staging)
        } else if value.eq("production") {
            Ok(Environment::Production)
        } else {
            Err(InvalidEnvironmentError)
        }
    }
}

/// The fault reported when a text names no environment.
#[derive(PartialEq, Eq, Structural, Clone, Copy, Debug)]
pub struct InvalidEnvironmentError;

impl InvalidEnvironmentError {
    /// The fault's message text.
    pub fn message(&self) -> (r: &'static str)
        ensures
            r@ == "Invalid Environment Error"@,
    {
        "Invalid Environment Error"
    }
}

impl crate::traits::ValueObject for Environment {

}

} // verus!
