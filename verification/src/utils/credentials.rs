use vstd::prelude::*;

verus! {

/// The OAuth token to use: the environment's when it is set and not empty,
/// else the credentials file's (even an empty one), else the keychain's.
pub open spec fn chosen_token(
    env_token: Option<String>,
    file_token: Option<String>,
    keychain_token: Option<String>,
) -> Option<Seq<char>> {
    match env_token {
        Some(t) if t@.len() > 0 => Some(t@),
        _ => match file_token {
            Some(t) => Some(t@),
            None => match keychain_token {
                Some(t) => Some(t@),
                None => None,
            },
        },
    }
}

/// Picks the OAuth token: environment variable, then credentials file, then keychain.
pub fn resolve_oauth_token(
    env_token: Option<String>,
    file_token: Option<String>,
    keychain_token: Option<String>,
) -> (r: Option<String>)
    ensures
        match r {
            Some(t) => chosen_token(env_token, file_token, keychain_token) == Some(t@),
            None => chosen_token(env_token, file_token, keychain_token) is None,
        },
{
    if let Some(t) = env_token {
        if !t.as_str().is_empty() {
            return Some(t);
        }
    }
    if let Some(t) = file_token {
        return Some(t);
    }
    keychain_token
}

/// A non-empty token in the environment wins over every other source; without
/// it the credentials file wins over the keychain.
pub proof fn law_token_precedence(env_token: Option<String>, file_token: Option<String>, keychain_token: Option<String>)
    ensures
        env_token is Some && env_token->0@.len() > 0 ==> chosen_token(env_token, file_token, keychain_token) == Some(
            env_token->0@,
        ),
        (env_token is None || env_token->0@.len() == 0) && file_token is Some ==> chosen_token(
            env_token,
            file_token,
            keychain_token,
        ) == Some(file_token->0@),
{
}

} // verus!
