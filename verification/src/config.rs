//! Configuration: where the Imgur Client-ID comes from.
//!
//! Resolution order:
//!   1. the `IMGUR_CLIENT_ID` environment variable,
//!   2. the `imgur_client_id` stored in the configuration file.

use vstd::prelude::*;

use crate::text::{lemma_trimmed_idempotent, opt_str_view, opt_view, trim, trimmed};

verus! {

/// The user's settings, as stored in the configuration file.
pub struct Config {
    /// The Imgur application Client-ID, if one was saved.
    pub imgur_client_id: Option<String>,
}

impl Default for Config {
    fn default() -> (r: Config)
        ensures
            r.imgur_client_id is None,
    {
        Config { imgur_client_id: None }
    }
}

/// The Client-ID in effect: the environment's value, trimmed, when it is not
/// blank; else the stored one, trimmed, when it is not blank; else none.
pub open spec fn effective_client_id(env: Option<Seq<char>>, stored: Option<Seq<char>>) -> Option<
    Seq<char>,
> {
    if env is Some && trimmed(env->0).len() > 0 {
        Some(trimmed(env->0))
    } else if stored is Some && trimmed(stored->0).len() > 0 {
        Some(trimmed(stored->0))
    } else {
        None
    }
}

impl Config {
    /// Effective Client-ID, the environment's value (`env_value`, the value of
    /// `IMGUR_CLIENT_ID` when it is set) taking precedence over the stored one.
    pub fn client_id(&self, env_value: Option<&str>) -> (r: Option<String>)
        ensures
            opt_view(r) == effective_client_id(opt_str_view(env_value), opt_view(self.imgur_client_id)),
    {
        if let Some(v) = env_value {
            let t = trim(v);
            if !t.as_str().is_empty() {
                return Some(t);
            }
        }
        match &self.imgur_client_id {
            Some(s) => {
                let t = trim(s.as_str());
                if !t.as_str().is_empty() {
                    Some(t)
                } else {
                    None
                }
            },
            None => None,
        }
    }

    /// Stores the Client-ID typed into the settings field, trimmed.
    pub fn set_client_id(&mut self, input: &str)
        ensures
            opt_view(final(self).imgur_client_id) == Some(trimmed(input@)),
    {
        self.imgur_client_id = Some(trim(input));
    }
}

/// The environment's Client-ID, when it is not blank, wins over the stored one.
pub proof fn law_env_takes_precedence(env: Seq<char>, stored: Option<Seq<char>>)
    requires
        trimmed(env).len() > 0,
    ensures
        effective_client_id(Some(env), stored) == Some(trimmed(env)),
{
}

/// A blank or missing environment value leaves the stored Client-ID in force.
pub proof fn law_blank_env_falls_back(env: Option<Seq<char>>, stored: Option<Seq<char>>)
    requires
        env is None || trimmed(env->0).len() == 0,
    ensures
        effective_client_id(env, stored) == effective_client_id(None, stored),
{
}

/// A Client-ID in effect is never blank and has no surrounding whitespace.
pub proof fn law_client_id_trimmed(env: Option<Seq<char>>, stored: Option<Seq<char>>)
    ensures
        effective_client_id(env, stored) matches Some(id) ==> id.len() > 0 && trimmed(id) == id,
{
    if env is Some {
        lemma_trimmed_idempotent(env->0);
    }
    if stored is Some {
        lemma_trimmed_idempotent(stored->0);
    }
}

/// What the settings field saves is what comes back as the Client-ID, when
/// the environment does not set one: the input, trimmed, unless it is blank.
pub proof fn law_saved_client_id_in_effect(input: Seq<char>)
    ensures
        effective_client_id(None, Some(trimmed(input))) == (if trimmed(input).len() > 0 {
            Some(trimmed(input))
        } else {
            None::<Seq<char>>
        }),
{
    lemma_trimmed_idempotent(input);
}

} // verus!
