use vstd::prelude::*;

verus! {

/// The user's stored settings.
#[derive(Clone, Debug)]
pub struct UserConfig {
    pub token: Option<String>,
}

impl Default for UserConfig {
    fn default() -> (r: Self)
        ensures
            r.token is None,
    {
        UserConfig { token: None }
    }
}

pub open spec fn loaded_or_default(loaded: Option<UserConfig>) -> UserConfig {
    match loaded {
        Some(c) => c,
        None => UserConfig { token: None },
    }
}

impl UserConfig {
    /// Applies `modifier` to the stored settings, or to the defaults when
    /// none are stored, and returns what is to be stored.
    pub fn modify<F: FnOnce(UserConfig) -> UserConfig>(loaded: Option<UserConfig>, modifier: F) -> (r: UserConfig)
        requires
            modifier.requires((loaded_or_default(loaded),)),
        ensures
            modifier.ensures((loaded_or_default(loaded),), r),
    {
        let base = match loaded {
            Some(c) => c,
            None => UserConfig::default(),
        };
        modifier(base)
    }

    /// The settings to store after a login with `token`.
    pub fn update_token(loaded: Option<UserConfig>, token: String) -> (r: UserConfig)
        ensures
            r.token == Some(token),
    {
        let ghost t = token;
        let set_token = move |_c: UserConfig| -> (n: UserConfig)
            ensures
                n.token == Some(t),
        {
            let n = UserConfig { token: Some(token) };
            n
        };
        Self::modify(loaded, set_token)
    }
}

/// Told when no token is given and none is stored.
#[derive(Clone, Copy, Debug)]
pub struct NoTokenError;

impl NoTokenError {
    pub fn message(&self) -> (r: &'static str)
        ensures
            r@ == "No Linear API token configured. Run 'linear login'!"@,
    {
        "No Linear API token configured. Run 'linear login'!"
    }
}

/// The token to use: the one given, else the stored one.
pub fn resolve_token(given: Option<String>, stored: Option<UserConfig>) -> (r: Result<String, NoTokenError>)
    ensures
        given is Some ==> r == Ok::<String, NoTokenError>(given->Some_0),
        given is None ==> match stored {
            Some(UserConfig { token: Some(t) }) => r == Ok::<String, NoTokenError>(t),
            _ => r is Err,
        },
{
    match given {
        Some(t) => Ok(t),
        None => match stored {
            Some(c) => match c.token {
                Some(t) => Ok(t),
                None => Err(NoTokenError),
            },
            None => Err(NoTokenError),
        },
    }
}

} // verus!
