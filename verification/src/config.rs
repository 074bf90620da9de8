//! The configuration of the application: the credentials of the storefront
//! and of the catalog's OAuth provider.

use vstd::prelude::*;
use vstd::string::StringExecFns;

use crate::dotenv::{env_of, EnvMap};

verus! {

pub const STEAM_API_KEY: &'static str = "STEAM_API_KEY";

pub const STEAM_PROFILE_ID: &'static str = "STEAM_PROFILE_ID";

pub const TWITCH_CLIENT_ID: &'static str = "TWITCH_CLIENT_ID";

pub const TWITCH_CLIENT_SECRET: &'static str = "TWITCH_CLIENT_SECRET";

pub const NO_CONFIG: &'static str = "unable to read config";

pub const NO_STEAM_CONFIG: &'static str =
    "Unable to load steam config. Missing STEAM_KEY or STEAM_PROFILE_ID in dotenv file";

pub const NO_TWITCH_CONFIG: &'static str =
    "Unable to load twitch config. Missing TWITCH_CLIENT_ID or TWITCH_CLIENT_SECRET in dotenv file";

#[derive(Debug, PartialEq, Eq)]
pub struct RocadeConfig {
    pub steam_api_key: String,
    pub steam_profile_id: String,
    pub twitch_client_id: String,
    pub twitch_client_secret: String,
}

/// Whether `env` binds both credentials of the storefront.
pub open spec fn has_steam(env: Map<Seq<char>, Seq<char>>) -> bool {
    env.dom().contains(STEAM_API_KEY@) && env.dom().contains(STEAM_PROFILE_ID@)
}

/// Whether `env` binds both credentials of the OAuth provider.
pub open spec fn has_twitch(env: Map<Seq<char>, Seq<char>>) -> bool {
    env.dom().contains(TWITCH_CLIENT_ID@) && env.dom().contains(TWITCH_CLIENT_SECRET@)
}

/// Whether `config` holds the four credentials that `env` binds.
pub open spec fn is_config_of(config: RocadeConfig, env: Map<Seq<char>, Seq<char>>) -> bool {
    &&& config.steam_api_key@ == env[STEAM_API_KEY@]
    &&& config.steam_profile_id@ == env[STEAM_PROFILE_ID@]
    &&& config.twitch_client_id@ == env[TWITCH_CLIENT_ID@]
    &&& config.twitch_client_secret@ == env[TWITCH_CLIENT_SECRET@]
}

impl RocadeConfig {
    /// The configuration with every credential empty.
    pub fn new() -> (c: RocadeConfig)
        ensures
            c.steam_api_key@ == Seq::<char>::empty(),
            c.steam_profile_id@ == Seq::<char>::empty(),
            c.twitch_client_id@ == Seq::<char>::empty(),
            c.twitch_client_secret@ == Seq::<char>::empty(),
    {
        RocadeConfig {
            steam_api_key: String::new(),
            steam_profile_id: String::new(),
            twitch_client_id: String::new(),
            twitch_client_secret: String::new(),
        }
    }

    /// The configuration that the variables `env` hold: the storefront's
    /// credentials are looked for first, then the provider's, and the first
    /// pair of which one is missing is the error.
    pub fn from_env(env: &EnvMap) -> (r: Result<RocadeConfig, String>)
        ensures
            has_steam(env@) && has_twitch(env@) ==> r is Ok && is_config_of(r->Ok_0, env@),
            !has_steam(env@) ==> r is Err && r->Err_0@ == NO_STEAM_CONFIG@,
            has_steam(env@) && !has_twitch(env@) ==> r is Err && r->Err_0@ == NO_TWITCH_CONFIG@,
    {
        let (steam_api_key, steam_profile_id) = match (
            env.get(STEAM_API_KEY),
            env.get(STEAM_PROFILE_ID),
        ) {
            (Some(key), Some(profile_id)) => (key, profile_id),
            _ => {
                return Err(String::from_str(NO_STEAM_CONFIG));
            },
        };
        let (twitch_client_id, twitch_client_secret) = match (
            env.get(TWITCH_CLIENT_ID),
            env.get(TWITCH_CLIENT_SECRET),
        ) {
            (Some(id), Some(secret)) => (id, secret),
            _ => {
                return Err(String::from_str(NO_TWITCH_CONFIG));
            },
        };
        Ok(RocadeConfig { steam_api_key, steam_profile_id, twitch_client_id, twitch_client_secret })
    }

    /// The configuration that the environment file holds: `file` is its
    /// content, or the reason why there is none.
    pub fn load(file: Result<String, String>) -> (r: Result<RocadeConfig, String>)
        ensures
            match file {
                Ok(content) => {
                    let env = env_of(content@, Map::empty());
                    &&& has_steam(env) && has_twitch(env) ==> r is Ok && is_config_of(r->Ok_0, env)
                    &&& !has_steam(env) ==> r is Err && r->Err_0@ == NO_STEAM_CONFIG@
                    &&& has_steam(env) && !has_twitch(env) ==> r is Err && r->Err_0@
                        == NO_TWITCH_CONFIG@
                },
                Err(_) => r is Err && r->Err_0@ == NO_CONFIG@,
            },
    {
        match crate::dotenv::dotenv(file) {
            Ok(env) => Self::from_env(&env),
            Err(_) => Err(String::from_str(NO_CONFIG)),
        }
    }
}

} // verus!
