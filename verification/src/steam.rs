//! The storefront account that the library belongs to, and the first form of
//! the request for its games.

use vstd::prelude::*;
use vstd::string::StringExecFns;

verus! {

pub const OWNED_GAMES_URL: &'static str =
    "http://api.steampowered.com/IPlayerService/GetOwnedGames/v0001/?key=";

pub const OWNED_GAMES_URL_PROFILE: &'static str = "&steamid=";

pub const OWNED_GAMES_URL_END: &'static str = "&format=json";

/// The credentials of the storefront account.
#[derive(Debug)]
pub struct SteamState {
    key: String,
    profile_id: String,
}

impl SteamState {
    pub closed spec fn key(&self) -> String {
        self.key
    }

    pub closed spec fn profile_id(&self) -> String {
        self.profile_id
    }

    pub fn new(key: String, profile_id: String) -> (s: SteamState)
        ensures
            s.key() == key,
            s.profile_id() == profile_id,
    {
        return SteamState { key, profile_id };
    }

    pub fn get_key(&self) -> (k: &String)
        ensures
            *k == self.key(),
    {
        &self.key
    }

    pub fn get_profile_id(&self) -> (p: &String)
        ensures
            *p == self.profile_id(),
    {
        &self.profile_id
    }
}

/// The client of the storefront's web API.
#[derive(Debug)]
pub struct SteamApiClient {
    key: String,
    profile_id: String,
}

/// A game as the storefront lists it.
#[derive(Debug, PartialEq, Eq)]
pub struct Game {
    pub appid: u64,
    pub name: String,
    pub playtime_2weeks: u64,
    pub playtime_forever: u64,
    pub img_icon_url: Option<String>,
    pub img_logo_url: Option<String>,
}

/// The games a profile owns.
#[derive(Debug, PartialEq, Eq)]
pub struct GameList {
    pub count: u64,
    pub games: Vec<Game>,
}

impl SteamApiClient {
    pub closed spec fn key(&self) -> Seq<char> {
        self.key@
    }

    pub closed spec fn profile_id(&self) -> Seq<char> {
        self.profile_id@
    }

    pub fn new(key: String, profile_id: String) -> (c: SteamApiClient)
        ensures
            c.key() == key@,
            c.profile_id() == profile_id@,
    {
        SteamApiClient { key, profile_id }
    }

    /// The URL that lists the games the profile owns.
    pub fn get_games(&self) -> (url: String)
        ensures
            url@ == OWNED_GAMES_URL@ + self.key() + OWNED_GAMES_URL_PROFILE@ + self.profile_id()
                + OWNED_GAMES_URL_END@,
    {
        let mut url = String::from_str(OWNED_GAMES_URL);
        url.append(self.key.as_str());
        url.append(OWNED_GAMES_URL_PROFILE);
        url.append(self.profile_id.as_str());
        url.append(OWNED_GAMES_URL_END);
        url
    }

    /// The games that the storefront's answer lists.
    pub fn games_of(answer: GameList) -> (games: Vec<Game>)
        ensures
            games == answer.games,
    {
        answer.games
    }
}

} // verus!
