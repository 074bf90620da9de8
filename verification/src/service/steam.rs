//! The storefront's web API: the request for the games a profile owns, what
//! it answers, and the errors of the storefront integration.

use vstd::prelude::*;
use vstd::string::StringExecFns;

verus! {

/// The endpoint that lists the games a profile owns.
pub const OWNED_GAMES_URL: &'static str =
    "https://api.steampowered.com/IPlayerService/GetOwnedGames/v0001";

pub const PARAM_KEY: &'static str = "key";

pub const PARAM_STEAMID: &'static str = "steamid";

pub const PARAM_APPINFO: &'static str = "include_appinfo";

pub const PARAM_FORMAT: &'static str = "format";

pub const VALUE_ON: &'static str = "1";

pub const VALUE_JSON: &'static str = "json";

pub const REQUEST_FAILED: &'static str = "http request failed: ";

pub const INVALID_RESPONSE: &'static str = "invalid response: ";

pub const INVALID_DATA: &'static str = "unable to parse steam data: ";

pub const CLIENT_FAILED: &'static str = "unable to communicate with steam client: ";

pub const INVALID_CONFIG: &'static str = "invalid steam client config";

/// Why an operation of the storefront integration failed.
#[derive(Debug, PartialEq, Eq)]
pub enum SteamError {
    /// A request to the web API failed; the text says how.
    Request(String),
    /// The web API answered something unexpected.
    InvalidResponse(String),
    /// The answer could not be decoded; the text says why.
    InvalidData(String),
    /// A URL could not be handed to the local client; the text says why.
    ClientError(String),
    /// The configuration of the local client is invalid.
    ClientConfigError(String),
}

impl SteamError {
    /// The error in words.
    pub open spec fn message(self) -> Seq<char> {
        match self {
            SteamError::Request(s) => REQUEST_FAILED@ + s@,
            SteamError::InvalidResponse(s) => INVALID_RESPONSE@ + s@,
            SteamError::InvalidData(s) => INVALID_DATA@ + s@,
            SteamError::ClientError(s) => CLIENT_FAILED@ + s@,
            SteamError::ClientConfigError(_) => INVALID_CONFIG@,
        }
    }

    /// The error in words.
    pub fn to_string(&self) -> (s: String)
        ensures
            s@ == self.message(),
    {
        match self {
            SteamError::Request(e) => String::from_str(REQUEST_FAILED).concat(e.as_str()),
            SteamError::InvalidResponse(e) => String::from_str(INVALID_RESPONSE).concat(
                e.as_str(),
            ),
            SteamError::InvalidData(e) => String::from_str(INVALID_DATA).concat(e.as_str()),
            SteamError::ClientError(e) => String::from_str(CLIENT_FAILED).concat(e.as_str()),
            SteamError::ClientConfigError(_) => String::from_str(INVALID_CONFIG),
        }
    }
}

/// A game as the storefront lists it.
#[derive(Debug, PartialEq, Eq)]
pub struct SteamGame {
    /// The storefront's id of the game.
    pub appid: u64,
    pub name: String,
    /// Minutes played in the last two weeks.
    pub playtime_2weeks: Option<u64>,
    /// Minutes played in all.
    pub playtime_forever: Option<u64>,
    pub img_icon_url: Option<String>,
    pub img_logo_url: Option<String>,
}

/// The games a profile owns.
#[derive(Debug, PartialEq, Eq)]
pub struct GameList {
    pub game_count: u64,
    pub games: Vec<SteamGame>,
}

/// What the storefront answers to the request for the owned games.
#[derive(Debug, PartialEq, Eq)]
pub struct GameListResponse {
    pub response: GameList,
}

/// A `GET` request: the URL and the query parameters, in order.
#[derive(Debug, PartialEq, Eq)]
pub struct SteamRequest {
    pub url: String,
    pub query: Vec<(String, String)>,
}

/// The ids of `games`, in their order.
pub open spec fn app_ids(games: Seq<SteamGame>) -> Seq<u64> {
    games.map_values(|g: SteamGame| g.appid)
}

/// The ids of `games`, in their order.
pub fn owned_ids(games: &Vec<SteamGame>) -> (ids: Vec<u64>)
    ensures
        ids@ == app_ids(games@),
{
    let mut ids: Vec<u64> = Vec::new();
    let mut i: usize = 0;
    while i < games.len()
        invariant
            i <= games.len(),
            ids@ == app_ids(games@).take(i as int),
        decreases games.len() - i,
    {
        ids.push(games[i].appid);
        assert(ids@ =~= app_ids(games@).take(i + 1));
        i += 1;
    }
    assert(app_ids(games@).take(i as int) =~= app_ids(games@));
    ids
}

/// The client of the storefront's web API.
#[derive(Debug)]
pub struct SteamApiClient {
    key: String,
    profile_id: String,
}

impl SteamApiClient {
    /// The key of the web API.
    pub closed spec fn key(&self) -> Seq<char> {
        self.key@
    }

    /// The 64-bit id of the profile whose games are listed.
    pub closed spec fn profile_id(&self) -> Seq<char> {
        self.profile_id@
    }

    /// A client for the profile `profile_id`, with the key `key`.
    pub fn new(key: String, profile_id: String) -> (c: SteamApiClient)
        ensures
            c.key() == key@,
            c.profile_id() == profile_id@,
    {
        SteamApiClient { key, profile_id }
    }

    /// The request that lists the games the profile owns, with their names.
    pub fn get_games(&self) -> (r: SteamRequest)
        ensures
            r.url@ == OWNED_GAMES_URL@,
            crate::text::pairs(r.query@) == seq![
                (PARAM_KEY@, self.key()),
                (PARAM_STEAMID@, self.profile_id()),
                (PARAM_APPINFO@, VALUE_ON@),
                (PARAM_FORMAT@, VALUE_JSON@),
            ],
    {
        let mut query: Vec<(String, String)> = Vec::new();
        query.push((String::from_str(PARAM_KEY), self.key.clone()));
        query.push((String::from_str(PARAM_STEAMID), self.profile_id.clone()));
        query.push((String::from_str(PARAM_APPINFO), String::from_str(VALUE_ON)));
        query.push((String::from_str(PARAM_FORMAT), String::from_str(VALUE_JSON)));
        assert(crate::text::pairs(query@) =~= seq![
            (PARAM_KEY@, self.key()),
            (PARAM_STEAMID@, self.profile_id()),
            (PARAM_APPINFO@, VALUE_ON@),
            (PARAM_FORMAT@, VALUE_JSON@),
        ]);
        SteamRequest { url: String::from_str(OWNED_GAMES_URL), query }
    }

    /// The games that the storefront's answer lists.
    pub fn games_of(answer: GameListResponse) -> (games: Vec<SteamGame>)
        ensures
            games == answer.response.games,
    {
        answer.response.games
    }
}

} // verus!
