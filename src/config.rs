//! Configuration resolved once at startup and handed to the handlers.
use vstd::prelude::*;

use crate::handlers::CommandError;

verus! {

/// The settings that network commands need.
pub struct Configuration {
    /// The service's authentication token, when one was given.
    pub token: Option<String>,
}

impl Configuration {
    /// The authentication token; an error when none was given.
    pub fn api_token(&self) -> (r: Result<String, CommandError>)
        ensures
            match self.token {
                Some(t) => r == Ok::<String, CommandError>(t),
                None => r == Err::<String, CommandError>(CommandError::MissingToken),
            },
    {
        match &self.token {
            Some(t) => Ok(t.clone()),
            None => Err(CommandError::MissingToken),
        }
    }
}

} // verus!
