//! The metadata catalog: its records, its queries, and how storefront ids are
//! resolved to catalog records, one at a time or in batches.
//!
//! Nothing here sends a request. A lookup is a small machine: the caller asks
//! it for the next query, sends it, and hands in what the catalog answered.

use vstd::prelude::*;
use vstd::string::StringExecFns;

use crate::text::{decimal, push_decimal, push_signed_decimal, signed_decimal};
use crate::twitch::{AuthorizedRequest, TwitchApiClient};

verus! {

pub const EXTERNAL_GAMES_URL: &'static str = "https://api.igdb.com/v4/external_games";

pub const GAMES_URL: &'static str = "https://api.igdb.com/v4/games";

pub const GENRES_URL: &'static str = "https://api.igdb.com/v4/genres";

pub const COVERS_URL: &'static str = "https://api.igdb.com/v4/covers";

/// The header in which every request names the client.
pub const CLIENT_ID_HEADER: &'static str = "CLIENT-ID";

pub const STEAM_GAME_QUERY: &'static str =
    "fields *;  where external_game_source = 1 & url = \"https://store.steampowered.com/app/";

pub const STEAM_GAME_QUERY_END: &'static str = "\"; limit 1;";

pub const SEARCH_QUERY: &'static str = "fields *; search \"";

pub const SEARCH_QUERY_END: &'static str = "\"; where game.platforms = 6; limit 1;";

pub const BY_ID_QUERY: &'static str = "fields *; where id = ";

pub const BY_ID_QUERY_END: &'static str = "; limit 1;";

pub const BY_IDS_QUERY: &'static str = "fields *; where id = (";

pub const BY_IDS_QUERY_END: &'static str = ");";

pub const LINKS_QUERY: &'static str = "fields game,uid; where external_game_source = 1 & uid = (";

pub const RECORDS_QUERY: &'static str =
    "fields name,summary,storyline,first_release_date,genres.name,cover.image_id,artworks.image_id,involved_companies.company.name,involved_companies.company.developed,involved_companies.company.published; where id = (";

pub const BATCH_QUERY_END: &'static str = "); limit 500;";

pub const NOT_FOUND: &'static str = "Unable to find game";

pub const UNEXPECTED: &'static str = "unexpected answer from the catalog";

/// How many ids one request to the catalog names, at most.
pub const CHUNK_SIZE: usize = 500;

/// A game as the catalog's `games` endpoint returns it, with its genres and
/// its cover by id.
#[derive(Debug, PartialEq, Eq)]
pub struct IgdbGameInfo {
    pub name: String,
    pub cover: u64,
    pub genres: Vec<u64>,
    pub storyline: Option<String>,
    pub summary: Option<String>,
}

/// A genre of a catalog game.
#[derive(Debug, PartialEq, Eq)]
pub struct IgdbGenre {
    pub name: String,
}

/// An image of a catalog game: a cover or an artwork.
#[derive(Debug, PartialEq, Eq)]
pub struct IgdbCover {
    /// The identifier under which the image server holds the image.
    pub image_id: String,
}

/// A company of the catalog.
#[derive(Debug, PartialEq, Eq)]
pub struct IgdbCompany {
    /// The catalog's id of the company.
    pub id: i64,
    pub name: String,
}

/// A fully resolved catalog record of one game.
#[derive(Debug, PartialEq, Eq)]
pub struct IgdbGame {
    /// The catalog's id of the game.
    pub id: u64,
    pub name: String,
    pub summary: Option<String>,
    pub storyline: Option<String>,
    /// Unix time of the first release.
    pub release_date: Option<i64>,
    /// The storefront's id of the game, where the catalog knows it.
    pub store_id: Option<String>,
    pub genres: Vec<IgdbGenre>,
    pub developers: Vec<IgdbCompany>,
    pub publishers: Vec<IgdbCompany>,
    pub cover: Option<IgdbCover>,
    pub artworks: Vec<IgdbCover>,
}

/// The catalog game that belongs to a storefront game, as the single lookup
/// returns it.
#[derive(Debug, PartialEq, Eq)]
pub struct IgdbAlternativeGame {
    /// The catalog's id of the game.
    pub game: i64,
}

/// The catalog game that belongs to a storefront game, as the batch lookup
/// returns it.
#[derive(Debug, PartialEq, Eq)]
pub struct IgdbExternalGame {
    /// The catalog's id of the game.
    pub game: u64,
    /// The storefront's id of the game.
    pub uid: String,
}

/// A company as the batch query returns it, with the games it developed and
/// the games it published.
#[derive(Debug, PartialEq, Eq)]
pub struct IgdbCompanyInfo {
    pub id: i64,
    pub name: String,
    pub developed: Option<Vec<u64>>,
    pub published: Option<Vec<u64>>,
}

/// A company that is involved in a game.
#[derive(Debug, PartialEq, Eq)]
pub struct IgdbInvolvedCompany {
    pub company: IgdbCompanyInfo,
}

/// A game as the batch query returns it.
#[derive(Debug, PartialEq, Eq)]
pub struct IgdbRawGame {
    pub id: u64,
    pub name: String,
    pub summary: Option<String>,
    pub storyline: Option<String>,
    pub first_release_date: Option<i64>,
    pub genres: Option<Vec<IgdbGenre>>,
    pub cover: Option<IgdbCover>,
    pub artworks: Option<Vec<IgdbCover>>,
    pub involved_companies: Option<Vec<IgdbInvolvedCompany>>,
}

/// Why the catalog gave no record.
#[derive(Debug, PartialEq, Eq)]
pub enum IgdbError {
    /// The catalog knows no game for the storefront id.
    NotFound,
    /// The catalog answered something that is no answer to the query.
    Unexpected,
    /// A request failed; the text says how.
    Transport(String),
    /// No token could be had; the text says why.
    Auth(String),
}

impl IgdbError {
    /// The error in words.
    pub open spec fn message(self) -> Seq<char> {
        match self {
            IgdbError::NotFound => NOT_FOUND@,
            IgdbError::Unexpected => UNEXPECTED@,
            IgdbError::Transport(s) => s@,
            IgdbError::Auth(s) => s@,
        }
    }

    /// The error in words.
    pub fn to_string(&self) -> (s: String)
        ensures
            s@ == self.message(),
    {
        match self {
            IgdbError::NotFound => String::from_str(NOT_FOUND),
            IgdbError::Unexpected => String::from_str(UNEXPECTED),
            IgdbError::Transport(s) => s.clone(),
            IgdbError::Auth(s) => s.clone(),
        }
    }
}

/// One query to the catalog: the endpoint and the body that is posted to it.
#[derive(Debug, PartialEq, Eq)]
pub struct IgdbQuery {
    pub url: String,
    pub body: String,
}

impl View for IgdbQuery {
    type V = (Seq<char>, Seq<char>);

    open spec fn view(&self) -> (Seq<char>, Seq<char>) {
        (self.url@, self.body@)
    }
}

/// The numbers `ids` in base ten, separated by commas.
pub open spec fn joined(ids: Seq<u64>) -> Seq<char>
    decreases ids.len(),
{
    if ids.len() == 0 {
        Seq::empty()
    } else if ids.len() == 1 {
        decimal(ids[0] as nat)
    } else {
        joined(ids.drop_last()) + seq![','] + decimal(ids.last() as nat)
    }
}

/// The numbers `ids` in base ten, each between double quotes, separated by
/// commas.
pub open spec fn joined_quoted(ids: Seq<u64>) -> Seq<char>
    decreases ids.len(),
{
    if ids.len() == 0 {
        Seq::empty()
    } else if ids.len() == 1 {
        seq!['"'] + decimal(ids[0] as nat) + seq!['"']
    } else {
        joined_quoted(ids.drop_last()) + seq![',', '"'] + decimal(ids.last() as nat) + seq!['"']
    }
}

/// Appends `ids[from..to]` to `s`, separated by commas, each between double
/// quotes where `quoted` is set.
pub fn push_joined(s: &mut String, ids: &Vec<u64>, from: usize, to: usize, quoted: bool)
    requires
        from <= to <= ids.len(),
    ensures
        final(s)@ == old(s)@ + (if quoted {
            joined_quoted(ids@.subrange(from as int, to as int))
        } else {
            joined(ids@.subrange(from as int, to as int))
        }),
{
    let mut i: usize = from;
    assert(ids@.subrange(from as int, from as int) =~= Seq::empty());
    assert(s@ =~= old(s)@ + Seq::<char>::empty());
    while i < to
        invariant
            from <= i <= to <= ids.len(),
            s@ == old(s)@ + (if quoted {
                joined_quoted(ids@.subrange(from as int, i as int))
            } else {
                joined(ids@.subrange(from as int, i as int))
            }),
        decreases to - i,
    {
        let ghost before = s@;
        let ghost head = ids@.subrange(from as int, i as int);
        let ghost next = ids@.subrange(from as int, i + 1);
        proof {
            assert(next.drop_last() =~= head);
            assert(next.last() == ids@[i as int]);
        }
        if i > from {
            s.push(',');
        }
        if quoted {
            s.push('"');
        }
        push_decimal(s, ids[i]);
        if quoted {
            s.push('"');
        }
        proof {
            let d = decimal(ids@[i as int] as nat);
            if quoted {
                if i > from {
                    assert(s@ =~= before + (seq![',', '"'] + d + seq!['"']));
                    assert(joined_quoted(next) =~= joined_quoted(head) + seq![',', '"'] + d
                        + seq!['"']);
                    assert(s@ =~= old(s)@ + joined_quoted(next));
                } else {
                    assert(next.len() == 1);
                    assert(s@ =~= before + (seq!['"'] + d + seq!['"']));
                    assert(head.len() == 0);
                    assert(s@ =~= old(s)@ + joined_quoted(next));
                }
            } else {
                if i > from {
                    assert(s@ =~= before + (seq![','] + d));
                    assert(joined(next) =~= joined(head) + seq![','] + d);
                    assert(s@ =~= old(s)@ + joined(next));
                } else {
                    assert(next.len() == 1);
                    assert(head.len() == 0);
                    assert(s@ =~= old(s)@ + joined(next));
                }
            }
        }
        i += 1;
    }
}

/// The query that asks for the catalog game of the storefront game
/// `game_id`.
pub open spec fn steam_game_query(game_id: i64) -> (Seq<char>, Seq<char>) {
    (
        EXTERNAL_GAMES_URL@,
        STEAM_GAME_QUERY@ + signed_decimal(game_id as int) + STEAM_GAME_QUERY_END@,
    )
}

/// The query that searches the catalog for a game called `name`.
pub open spec fn search_query(name: Seq<char>) -> (Seq<char>, Seq<char>) {
    (GAMES_URL@, SEARCH_QUERY@ + name + SEARCH_QUERY_END@)
}

/// The query that asks for the catalog game `id`.
pub open spec fn game_info_query(id: i64) -> (Seq<char>, Seq<char>) {
    (GAMES_URL@, BY_ID_QUERY@ + signed_decimal(id as int) + BY_ID_QUERY_END@)
}

/// The query that asks for the genres `ids`.
pub open spec fn genres_query(ids: Seq<u64>) -> (Seq<char>, Seq<char>) {
    (GENRES_URL@, BY_IDS_QUERY@ + joined(ids) + BY_IDS_QUERY_END@)
}

/// The query that asks for the cover `id`.
pub open spec fn cover_query(id: u64) -> (Seq<char>, Seq<char>) {
    (COVERS_URL@, BY_IDS_QUERY@ + decimal(id as nat) + BY_IDS_QUERY_END@)
}

/// The query that asks for the catalog games of the storefront games `ids`.
pub open spec fn links_query(ids: Seq<u64>) -> (Seq<char>, Seq<char>) {
    (EXTERNAL_GAMES_URL@, LINKS_QUERY@ + joined_quoted(ids) + BATCH_QUERY_END@)
}

/// The query that asks for the full records of the catalog games `ids`.
pub open spec fn records_query(ids: Seq<u64>) -> (Seq<char>, Seq<char>) {
    (GAMES_URL@, RECORDS_QUERY@ + joined(ids) + BATCH_QUERY_END@)
}

/// The last entry of a catalog answer, or the error that the game was not
/// found where the answer is empty.
pub fn last_or_not_found<T>(answer: Vec<T>) -> (r: Result<T, IgdbError>)
    ensures
        answer@.len() > 0 ==> r == Ok::<T, IgdbError>(answer@.last()),
        answer@.len() == 0 ==> r == Err::<T, IgdbError>(IgdbError::NotFound),
{
    let mut answer = answer;
    match answer.pop() {
        Some(game) => Ok(game),
        None => Err(IgdbError::NotFound),
    }
}


/// Whether `games`, the list of the games in which a company had a role,
/// names the game `game_id`. A company without that list had the role in no
/// game.
pub open spec fn has_role(games: Option<Vec<u64>>, game_id: u64) -> bool {
    match games {
        Some(l) => l@.contains(game_id),
        None => false,
    }
}

/// The company of the catalog that `info` describes.
pub open spec fn company_of(info: IgdbCompanyInfo) -> IgdbCompany {
    IgdbCompany { id: info.id, name: info.name }
}

/// Of the companies involved in the game `game_id`, those that developed it,
/// in their order.
pub open spec fn developers_of(involved: Seq<IgdbInvolvedCompany>, game_id: u64) -> Seq<IgdbCompany>
    decreases involved.len(),
{
    if involved.len() == 0 {
        Seq::empty()
    } else if has_role(involved.last().company.developed, game_id) {
        developers_of(involved.drop_last(), game_id).push(company_of(involved.last().company))
    } else {
        developers_of(involved.drop_last(), game_id)
    }
}

/// Of the companies involved in the game `game_id`, those that published it,
/// in their order.
pub open spec fn publishers_of(involved: Seq<IgdbInvolvedCompany>, game_id: u64) -> Seq<IgdbCompany>
    decreases involved.len(),
{
    if involved.len() == 0 {
        Seq::empty()
    } else if has_role(involved.last().company.published, game_id) {
        publishers_of(involved.drop_last(), game_id).push(company_of(involved.last().company))
    } else {
        publishers_of(involved.drop_last(), game_id)
    }
}

/// The entries of an optional list; none where the list is missing.
pub open spec fn entries<T>(list: Option<Vec<T>>) -> Seq<T> {
    match list {
        Some(l) => l@,
        None => Seq::empty(),
    }
}

/// The storefront id under which `links` know the catalog game `game`: that
/// of the last link to it.
pub open spec fn store_id_of(links: Seq<IgdbExternalGame>, game: u64) -> Option<String>
    decreases links.len(),
{
    if links.len() == 0 {
        None
    } else if links.last().game == game {
        Some(links.last().uid)
    } else {
        store_id_of(links.drop_last(), game)
    }
}

/// Whether `game` is the record that the catalog's answer `raw` and the
/// links `links` resolve to: the fields of the answer, the involved companies
/// split by their role in this game, and the storefront id from the links.
pub open spec fn is_resolved(game: IgdbGame, raw: IgdbRawGame, links: Seq<IgdbExternalGame>) -> bool {
    &&& game.id == raw.id
    &&& game.name == raw.name
    &&& game.summary == raw.summary
    &&& game.storyline == raw.storyline
    &&& game.release_date == raw.first_release_date
    &&& game.store_id == store_id_of(links, raw.id)
    &&& game.genres@ == entries(raw.genres)
    &&& game.developers@ == developers_of(entries(raw.involved_companies), raw.id)
    &&& game.publishers@ == publishers_of(entries(raw.involved_companies), raw.id)
    &&& game.cover == raw.cover
    &&& game.artworks@ == entries(raw.artworks)
}

/// Whether `list` holds `x`.
pub fn holds(list: &Vec<u64>, x: u64) -> (b: bool)
    ensures
        b == list@.contains(x),
{
    let mut i: usize = 0;
    while i < list.len()
        invariant
            i <= list.len(),
            forall|k: int| 0 <= k < i ==> list@[k] != x,
        decreases list.len() - i,
    {
        if list[i] == x {
            return true;
        }
        i += 1;
    }
    false
}

/// Whether `list` names `x`.
pub fn names(list: &Option<Vec<u64>>, x: u64) -> (b: bool)
    ensures
        b == has_role(*list, x),
{
    match list {
        Some(l) => holds(l, x),
        None => false,
    }
}

/// The companies involved in the game `game_id`, split by their role: those
/// that developed it, and those that published it. A company may be in both.
pub fn split_companies(game_id: u64, involved: &Option<Vec<IgdbInvolvedCompany>>) -> (r: (
    Vec<IgdbCompany>,
    Vec<IgdbCompany>,
))
    ensures
        r.0@ == developers_of(entries(*involved), game_id),
        r.1@ == publishers_of(entries(*involved), game_id),
{
    let mut developers: Vec<IgdbCompany> = Vec::new();
    let mut publishers: Vec<IgdbCompany> = Vec::new();
    match involved {
        Some(list) => {
            let mut i: usize = 0;
            assert(list@.take(0) =~= Seq::empty());
            while i < list.len()
                invariant
                    i <= list.len(),
                    developers@ == developers_of(list@.take(i as int), game_id),
                    publishers@ == publishers_of(list@.take(i as int), game_id),
                decreases list.len() - i,
            {
                proof {
                    assert(list@.take(i + 1).drop_last() =~= list@.take(i as int));
                    assert(list@.take(i + 1).last() == list@[i as int]);
                }
                let company = &list[i].company;
                if names(&company.developed, game_id) {
                    developers.push(IgdbCompany { id: company.id, name: company.name.clone() });
                }
                if names(&company.published, game_id) {
                    publishers.push(IgdbCompany { id: company.id, name: company.name.clone() });
                }
                i += 1;
            }
            assert(list@.take(i as int) =~= list@);
        },
        None => {},
    }
    (developers, publishers)
}

/// The storefront id under which `links` know the catalog game `game`.
pub fn find_store_id(links: &Vec<IgdbExternalGame>, game: u64) -> (r: Option<String>)
    ensures
        r == store_id_of(links@, game),
{
    let mut i: usize = links.len();
    assert(links@.take(i as int) =~= links@);
    while i > 0
        invariant
            i <= links.len(),
            store_id_of(links@, game) == store_id_of(links@.take(i as int), game),
        decreases i,
    {
        proof {
            assert(links@.take(i as int).last() == links@[i - 1]);
            assert(links@.take(i as int).drop_last() =~= links@.take(i - 1));
        }
        if links[i - 1].game == game {
            return Some(links[i - 1].uid.clone());
        }
        i -= 1;
    }
    None
}

/// The record that the catalog's answer `raw` and the links `links` resolve
/// to.
pub fn resolve(raw: IgdbRawGame, links: &Vec<IgdbExternalGame>) -> (game: IgdbGame)
    ensures
        is_resolved(game, raw, links@),
{
    let (developers, publishers) = split_companies(raw.id, &raw.involved_companies);
    let store_id = find_store_id(links, raw.id);
    let genres = match raw.genres {
        Some(l) => l,
        None => Vec::new(),
    };
    let artworks = match raw.artworks {
        Some(l) => l,
        None => Vec::new(),
    };
    IgdbGame {
        id: raw.id,
        name: raw.name,
        summary: raw.summary,
        storyline: raw.storyline,
        release_date: raw.first_release_date,
        store_id,
        genres,
        developers,
        publishers,
        cover: raw.cover,
        artworks,
    }
}

/// Where the chunk that starts at `start` ends, in a list of `len` ids: 500
/// ids further, or at the end of the list.
pub open spec fn chunk_end(len: int, start: int) -> int {
    if start + CHUNK_SIZE < len {
        start + CHUNK_SIZE
    } else {
        len
    }
}

/// The `k`-th chunk of `ids`.
pub open spec fn chunk(ids: Seq<u64>, k: int) -> Seq<u64> {
    ids.subrange(k * CHUNK_SIZE, chunk_end(ids.len() as int, k * CHUNK_SIZE))
}

/// The number of chunks of a list of `len` ids.
pub open spec fn chunk_count(len: int) -> int {
    (len + CHUNK_SIZE - 1) / (CHUNK_SIZE as int)
}

/// `ids` cut into chunks of 500: every chunk but the last holds 500 ids, the
/// last holds what is left, and none is empty.
pub fn chunks(ids: &Vec<u64>) -> (r: Vec<Vec<u64>>)
    ensures
        r@.len() == chunk_count(ids@.len() as int),
        forall|k: int| 0 <= k < r@.len() ==> (#[trigger] r@[k])@ == chunk(ids@, k),
        forall|k: int| 0 <= k < r@.len() ==> 0 < (#[trigger] r@[k])@.len() <= CHUNK_SIZE,
{
    let mut r: Vec<Vec<u64>> = Vec::new();
    let mut start: usize = 0;
    while start < ids.len()
        invariant
            start <= ids.len(),
            start == r@.len() * CHUNK_SIZE || start == ids.len(),
            r@.len() == chunk_count(start as int),
            forall|k: int| 0 <= k < r@.len() ==> (#[trigger] r@[k])@ == chunk(ids@, k),
            forall|k: int| 0 <= k < r@.len() ==> 0 < (#[trigger] r@[k])@.len() <= CHUNK_SIZE,
        decreases ids.len() - start,
    {
        let end = if ids.len() - start > CHUNK_SIZE {
            start + CHUNK_SIZE
        } else {
            ids.len()
        };
        let mut part: Vec<u64> = Vec::new();
        let mut i: usize = start;
        while i < end
            invariant
                start <= i <= end <= ids.len(),
                part@ == ids@.subrange(start as int, i as int),
            decreases end - i,
        {
            part.push(ids[i]);
            assert(part@ =~= ids@.subrange(start as int, i + 1));
            i += 1;
        }
        r.push(part);
        start = end;
    }
    r
}

/// Every id of a list stands in exactly one chunk: the `i`-th in the chunk
/// `i / 500`, at the place `i % 500`.
pub proof fn lemma_chunks_cover(ids: Seq<u64>, i: int)
    requires
        0 <= i < ids.len(),
    ensures
        0 <= i / (CHUNK_SIZE as int) < chunk_count(ids.len() as int),
        0 <= i % (CHUNK_SIZE as int) < chunk(ids, i / (CHUNK_SIZE as int)).len(),
        chunk(ids, i / (CHUNK_SIZE as int))[i % (CHUNK_SIZE as int)] == ids[i],
{
}


/// Where the lookup of one storefront game stands.
#[derive(Clone, Copy, Debug, PartialEq, Eq, Structural)]
pub enum LookupPhase {
    /// The catalog game of the storefront game is to be asked for.
    SteamGame,
    /// The catalog game is to be asked for.
    Info,
    /// The genres of the game are to be asked for.
    Genres,
    /// The cover of the game is to be asked for.
    Cover,
    /// The record is complete.
    Done,
    /// The catalog knows no such game.
    NotFound,
    /// The catalog answered something that is no answer to the query.
    Unexpected,
}

/// What the catalog answered to the last query of a lookup.
#[derive(Debug, PartialEq, Eq)]
pub enum LookupAnswer {
    SteamGames(Vec<IgdbAlternativeGame>),
    Infos(Vec<IgdbGameInfo>),
    Genres(Vec<IgdbGenre>),
    Covers(Vec<IgdbCover>),
}

/// The last entry of a list, if it has one.
pub open spec fn last_entry<T>(list: Seq<T>) -> Option<T> {
    if list.len() > 0 {
        Some(list.last())
    } else {
        None
    }
}

/// The phase that follows `phase` when the catalog answers `answer`.
///
/// The four queries follow one another. An empty answer to one of the first
/// two means that the game is not found; an answer of another kind than the
/// query's is unexpected.
pub open spec fn lookup_step(phase: LookupPhase, answer: LookupAnswer) -> LookupPhase {
    match (phase, answer) {
        (LookupPhase::SteamGame, LookupAnswer::SteamGames(l)) => if l@.len() == 0 {
            LookupPhase::NotFound
        } else {
            LookupPhase::Info
        },
        (LookupPhase::Info, LookupAnswer::Infos(l)) => if l@.len() == 0 {
            LookupPhase::NotFound
        } else {
            LookupPhase::Genres
        },
        (LookupPhase::Genres, LookupAnswer::Genres(_)) => LookupPhase::Cover,
        (LookupPhase::Cover, LookupAnswer::Covers(_)) => LookupPhase::Done,
        (LookupPhase::Done, _) => LookupPhase::Done,
        (LookupPhase::NotFound, _) => LookupPhase::NotFound,
        _ => LookupPhase::Unexpected,
    }
}

/// Whether `game` is a record of which nothing is known yet.
pub open spec fn is_blank(game: IgdbGame) -> bool {
    &&& game.id == 0
    &&& game.name@ == Seq::<char>::empty()
    &&& game.summary is None
    &&& game.storyline is None
    &&& game.release_date is None
    &&& game.store_id is None
    &&& game.genres@ == Seq::<IgdbGenre>::empty()
    &&& game.developers@ == Seq::<IgdbCompany>::empty()
    &&& game.publishers@ == Seq::<IgdbCompany>::empty()
    &&& game.cover is None
    &&& game.artworks@ == Seq::<IgdbCover>::empty()
}

/// The id that a record gets for the catalog id `game` that a link names:
/// the id itself, or 0 where the link names an id below zero, which no
/// catalog game has.
pub open spec fn record_id(game: i64) -> u64 {
    if game >= 0 {
        game as u64
    } else {
        0
    }
}

/// The lookup of the catalog record of one storefront game.
#[derive(Debug)]
pub struct GameLookup {
    steam_game_id: i64,
    catalog_id: i64,
    phase: LookupPhase,
    cover_id: u64,
    genre_ids: Vec<u64>,
    record: IgdbGame,
}

impl GameLookup {
    /// The storefront id of the game that is looked up.
    pub closed spec fn steam_game_id(&self) -> i64 {
        self.steam_game_id
    }

    /// The catalog's id of the game, as the link names it, once it came.
    pub closed spec fn catalog_id(&self) -> i64 {
        self.catalog_id
    }

    pub closed spec fn phase(&self) -> LookupPhase {
        self.phase
    }

    /// The catalog's id of the game's cover, once the game is known.
    pub closed spec fn cover_id(&self) -> u64 {
        self.cover_id
    }

    /// The catalog's ids of the game's genres, once the game is known.
    pub closed spec fn genre_ids(&self) -> Seq<u64> {
        self.genre_ids@
    }

    /// The record, as far as it is gathered.
    pub closed spec fn record(&self) -> IgdbGame {
        self.record
    }

    /// The lookup of the storefront game `steam_game_id`, before its first
    /// query.
    pub fn new(steam_game_id: i64) -> (l: GameLookup)
        ensures
            l.steam_game_id() == steam_game_id,
            l.phase() == LookupPhase::SteamGame,
            is_blank(l.record()),
    {
        GameLookup {
            steam_game_id,
            catalog_id: 0,
            phase: LookupPhase::SteamGame,
            cover_id: 0,
            genre_ids: Vec::new(),
            record: IgdbGame {
                id: 0,
                name: String::new(),
                summary: None,
                storyline: None,
                release_date: None,
                store_id: None,
                genres: Vec::new(),
                developers: Vec::new(),
                publishers: Vec::new(),
                cover: None,
                artworks: Vec::new(),
            },
        }
    }

    pub fn current_phase(&self) -> (p: LookupPhase)
        ensures
            p == self.phase(),
    {
        self.phase
    }

    /// The query to send next; none once the lookup has ended.
    pub fn query(&self) -> (q: Option<IgdbQuery>)
        ensures
            match self.phase() {
                LookupPhase::SteamGame => q is Some && q->0@ == steam_game_query(
                    self.steam_game_id(),
                ),
                LookupPhase::Info => q is Some && q->0@ == game_info_query(self.catalog_id()),
                LookupPhase::Genres => q is Some && q->0@ == genres_query(self.genre_ids()),
                LookupPhase::Cover => q is Some && q->0@ == cover_query(self.cover_id()),
                _ => q is None,
            },
    {
        match self.phase {
            LookupPhase::SteamGame => Some(IgdbApiClient::get_steam_game(self.steam_game_id)),
            LookupPhase::Info => Some(IgdbApiClient::get_game_info(self.catalog_id)),
            LookupPhase::Genres => Some(IgdbApiClient::get_game_genres(&self.genre_ids)),
            LookupPhase::Cover => Some(IgdbApiClient::get_game_cover(self.cover_id)),
            _ => None,
        }
    }

    /// Takes in what the catalog answered to the last query.
    pub fn advance(&mut self, answer: LookupAnswer)
        ensures
            final(self).steam_game_id() == old(self).steam_game_id(),
            final(self).phase() == lookup_step(old(self).phase(), answer),
            !(final(self).phase() is Info) ==> final(self).catalog_id() == old(
                self,
            ).catalog_id(),
            !(final(self).phase() is Genres) ==> final(self).cover_id() == old(self).cover_id()
                && final(self).genre_ids() == old(self).genre_ids(),
            match (old(self).phase(), answer) {
                (LookupPhase::SteamGame, LookupAnswer::SteamGames(l)) => if l@.len() > 0 {
                    &&& final(self).catalog_id() == l@.last().game
                    &&& final(self).record() == (IgdbGame {
                        id: record_id(l@.last().game),
                        ..old(self).record()
                    })
                } else {
                    final(self).record() == old(self).record()
                },
                (LookupPhase::Info, LookupAnswer::Infos(l)) => if l@.len() > 0 {
                    &&& final(self).record() == (IgdbGame {
                        name: l@.last().name,
                        summary: l@.last().summary,
                        storyline: l@.last().storyline,
                        ..old(self).record()
                    })
                    &&& final(self).cover_id() == l@.last().cover
                    &&& final(self).genre_ids() == l@.last().genres@
                } else {
                    final(self).record() == old(self).record()
                },
                (LookupPhase::Genres, LookupAnswer::Genres(l)) => {
                    &&& final(self).record() == (IgdbGame { genres: l, ..old(self).record() })
                    &&& final(self).cover_id() == old(self).cover_id()
                },
                (LookupPhase::Cover, LookupAnswer::Covers(l)) => final(self).record()
                    == (IgdbGame { cover: last_entry(l@), ..old(self).record() }),
                _ => final(self).record() == old(self).record(),
            },
    {
        match self.phase {
            LookupPhase::SteamGame => match answer {
                LookupAnswer::SteamGames(l) => match last_or_not_found(l) {
                    Ok(link) => {
                        self.catalog_id = link.game;
                        self.record.id = if link.game >= 0 {
                            link.game as u64
                        } else {
                            0
                        };
                        self.phase = LookupPhase::Info;
                    },
                    Err(_) => {
                        self.phase = LookupPhase::NotFound;
                    },
                },
                _ => {
                    self.phase = LookupPhase::Unexpected;
                },
            },
            LookupPhase::Info => match answer {
                LookupAnswer::Infos(l) => match last_or_not_found(l) {
                    Ok(info) => {
                        self.record.name = info.name;
                        self.record.summary = info.summary;
                        self.record.storyline = info.storyline;
                        self.cover_id = info.cover;
                        self.genre_ids = info.genres;
                        self.phase = LookupPhase::Genres;
                    },
                    Err(_) => {
                        self.phase = LookupPhase::NotFound;
                    },
                },
                _ => {
                    self.phase = LookupPhase::Unexpected;
                },
            },
            LookupPhase::Genres => match answer {
                LookupAnswer::Genres(l) => {
                    self.record.genres = l;
                    self.phase = LookupPhase::Cover;
                },
                _ => {
                    self.phase = LookupPhase::Unexpected;
                },
            },
            LookupPhase::Cover => match answer {
                LookupAnswer::Covers(mut l) => {
                    self.record.cover = l.pop();
                    self.phase = LookupPhase::Done;
                },
                _ => {
                    self.phase = LookupPhase::Unexpected;
                },
            },
            LookupPhase::Done => {},
            LookupPhase::NotFound => {},
            LookupPhase::Unexpected => {},
        }
    }

    /// The record, once the lookup is done; the error, where the game was not
    /// found; and the error of an unexpected answer otherwise.
    pub fn finish(self) -> (r: Result<IgdbGame, IgdbError>)
        ensures
            r == (match self.phase() {
                LookupPhase::Done => Ok::<IgdbGame, IgdbError>(self.record()),
                LookupPhase::NotFound => Err::<IgdbGame, IgdbError>(IgdbError::NotFound),
                _ => Err::<IgdbGame, IgdbError>(IgdbError::Unexpected),
            }),
    {
        match self.phase {
            LookupPhase::Done => Ok(self.record),
            LookupPhase::NotFound => Err(IgdbError::NotFound),
            _ => Err(IgdbError::Unexpected),
        }
    }
}

/// Where the resolution of a batch of storefront ids stands.
#[derive(Clone, Copy, Debug, PartialEq, Eq, Structural)]
pub enum BatchPhase {
    /// The catalog games of the current chunk of ids are to be asked for.
    Links,
    /// The records of the catalog games of the current chunk of links are to
    /// be asked for.
    Records,
    /// Every chunk is resolved.
    Done,
    /// The catalog answered something that is no answer to the query.
    Unexpected,
}

/// What the catalog answered to the last query of a batch.
#[derive(Debug, PartialEq, Eq)]
pub enum BatchAnswer {
    Links(Vec<IgdbExternalGame>),
    Records(Vec<IgdbRawGame>),
}

/// The catalog ids that `links` name, in their order.
pub open spec fn catalog_ids(links: Seq<IgdbExternalGame>) -> Seq<u64> {
    links.map_values(|l: IgdbExternalGame| l.game)
}

/// Whether `games` are the records that the answers `raw` and the links
/// `links` resolve to, one for one.
pub open spec fn all_resolved(
    games: Seq<IgdbGame>,
    raw: Seq<IgdbRawGame>,
    links: Seq<IgdbExternalGame>,
) -> bool {
    &&& games.len() == raw.len()
    &&& forall|i: int| 0 <= i < raw.len() ==> is_resolved(#[trigger] games[i], raw[i], links)
}

/// Where the links of the chunk `k` begin, in a list of links that holds the
/// links of each chunk up to the place that `ends` gives for it.
pub open spec fn links_begin(ends: Seq<usize>, k: int) -> int {
    if k <= 0 {
        0
    } else {
        ends[k - 1] as int
    }
}

/// The links of the chunk `k`.
pub open spec fn chunk_links(links: Seq<IgdbExternalGame>, ends: Seq<usize>, k: int) -> Seq<
    IgdbExternalGame,
> {
    links.subrange(links_begin(ends, k), ends[k] as int)
}

/// The first chunk at or after `from` that has a link; the number of chunks
/// where none has.
pub open spec fn next_linked(ends: Seq<usize>, from: int) -> int
    decreases ends.len() - from,
{
    if from < 0 || from >= ends.len() {
        ends.len() as int
    } else if links_begin(ends, from) < ends[from] {
        from
    } else {
        next_linked(ends, from + 1)
    }
}

/// The phase of the second pass when its current chunk is `at`, of `chunks`
/// chunks.
pub open spec fn records_phase(chunks: int, at: int) -> BatchPhase {
    if at < chunks {
        BatchPhase::Records
    } else {
        BatchPhase::Done
    }
}

/// The resolution of a batch of storefront ids, in two passes over its chunks
/// of 500 ids. The first pass asks, chunk by chunk, for the catalog games
/// that belong to the ids, and gathers the links. The second pass asks, with
/// the same chunk boundaries, for the records of those catalog games, and
/// resolves them against all the links.
#[derive(Debug)]
pub struct BatchResolver {
    ids: Vec<u64>,
    start: usize,
    phase: BatchPhase,
    links: Vec<IgdbExternalGame>,
    ends: Vec<usize>,
    at: usize,
    records: Vec<IgdbGame>,
}

impl BatchResolver {
    /// The storefront ids of the batch.
    pub closed spec fn ids(&self) -> Seq<u64> {
        self.ids@
    }

    /// Where the current chunk of ids starts, in the first pass.
    pub closed spec fn start(&self) -> int {
        self.start as int
    }

    pub closed spec fn phase(&self) -> BatchPhase {
        self.phase
    }

    /// The links that came so far, chunk after chunk.
    pub closed spec fn links(&self) -> Seq<IgdbExternalGame> {
        self.links@
    }

    /// For each chunk whose links came, where its links end in
    /// [`links`](BatchResolver::links).
    pub closed spec fn ends(&self) -> Seq<usize> {
        self.ends@
    }

    /// The current chunk of links, in the second pass.
    pub closed spec fn at(&self) -> int {
        self.at as int
    }

    /// The records resolved so far.
    pub closed spec fn records(&self) -> Seq<IgdbGame> {
        self.records@
    }

    /// The chunks lie in their lists, and the current chunk is not empty.
    pub open spec fn wf(&self) -> bool {
        &&& 0 <= self.start() <= self.ids().len()
        &&& forall|k: int|
            0 <= k < self.ends().len() ==> links_begin(self.ends(), k) <= (
            #[trigger] self.ends()[k]) <= self.links().len()
        &&& self.phase() is Links ==> self.start() < self.ids().len()
        &&& self.phase() is Records ==> 0 <= self.at() < self.ends().len() && links_begin(
            self.ends(),
            self.at(),
        ) < self.ends()[self.at()]
    }

    /// The storefront ids of the current chunk.
    pub open spec fn current_chunk(&self) -> Seq<u64> {
        self.ids().subrange(self.start(), chunk_end(self.ids().len() as int, self.start()))
    }

    /// The phase in which a batch stands when the chunk of its first pass
    /// starts at `start`, of `len` ids.
    pub open spec fn phase_at(len: int, start: int) -> BatchPhase {
        if start < len {
            BatchPhase::Links
        } else {
            BatchPhase::Done
        }
    }

    /// The resolution of `ids`, before its first query.
    pub fn new(ids: Vec<u64>) -> (b: BatchResolver)
        ensures
            b.wf(),
            b.ids() == ids@,
            b.start() == 0,
            b.phase() == Self::phase_at(ids@.len() as int, 0),
            b.links() == Seq::<IgdbExternalGame>::empty(),
            b.ends() == Seq::<usize>::empty(),
            b.records() == Seq::<IgdbGame>::empty(),
    {
        let phase = if ids.len() > 0 {
            BatchPhase::Links
        } else {
            BatchPhase::Done
        };
        BatchResolver {
            ids,
            start: 0,
            phase,
            links: Vec::new(),
            ends: Vec::new(),
            at: 0,
            records: Vec::new(),
        }
    }

    pub fn current_phase(&self) -> (p: BatchPhase)
        ensures
            p == self.phase(),
    {
        self.phase
    }

    fn end(&self) -> (e: usize)
        requires
            self.wf(),
        ensures
            e == chunk_end(self.ids().len() as int, self.start()),
            self.start() <= e <= self.ids().len(),
            self.start() < self.ids().len() ==> self.start() < e,
    {
        if self.ids.len() - self.start > CHUNK_SIZE {
            self.start + CHUNK_SIZE
        } else {
            self.ids.len()
        }
    }

    fn begin(&self, k: usize) -> (b: usize)
        requires
            self.wf(),
            k < self.ends().len(),
        ensures
            b == links_begin(self.ends(), k as int),
            b <= self.ends()[k as int] <= self.links().len(),
    {
        if k == 0 {
            0
        } else {
            self.ends[k - 1]
        }
    }

    fn seek(&self, from: usize) -> (k: usize)
        requires
            self.wf(),
        ensures
            k == next_linked(self.ends(), from as int),
            k <= self.ends().len(),
            k < self.ends().len() ==> links_begin(self.ends(), k as int) < self.ends()[k as int],
    {
        let mut k: usize = from;
        while k < self.ends.len()
            invariant
                self.wf(),
                from <= k,
                next_linked(self.ends(), from as int) == next_linked(self.ends(), k as int),
            decreases self.ends.len() - k,
        {
            if self.begin(k) < self.ends[k] {
                return k;
            }
            k += 1;
        }
        self.ends.len()
    }

    /// The query to send next; none once the batch has ended.
    pub fn query(&self) -> (q: Option<IgdbQuery>)
        requires
            self.wf(),
        ensures
            match self.phase() {
                BatchPhase::Links => q is Some && q->0@ == links_query(self.current_chunk()),
                BatchPhase::Records => q is Some && q->0@ == records_query(
                    catalog_ids(chunk_links(self.links(), self.ends(), self.at())),
                ),
                _ => q is None,
            },
    {
        match self.phase {
            BatchPhase::Links => {
                let mut body = String::from_str(LINKS_QUERY);
                push_joined(&mut body, &self.ids, self.start, self.end(), true);
                body.append(BATCH_QUERY_END);
                Some(IgdbQuery { url: String::from_str(EXTERNAL_GAMES_URL), body })
            },
            BatchPhase::Records => {
                let begin = self.begin(self.at);
                let end = self.ends[self.at];
                let ghost wanted = catalog_ids(chunk_links(self.links(), self.ends(), self.at()));
                let mut games: Vec<u64> = Vec::new();
                let mut i: usize = begin;
                while i < end
                    invariant
                        begin <= i <= end <= self.links.len(),
                        wanted == catalog_ids(self.links@.subrange(begin as int, end as int)),
                        games@ == wanted.take(i - begin),
                    decreases end - i,
                {
                    games.push(self.links[i].game);
                    assert(games@ =~= wanted.take(i + 1 - begin));
                    i += 1;
                }
                assert(wanted.take(end - begin) =~= wanted);
                assert(games@.subrange(0, games@.len() as int) =~= games@);
                let mut body = String::from_str(RECORDS_QUERY);
                push_joined(&mut body, &games, 0, games.len(), false);
                body.append(BATCH_QUERY_END);
                Some(IgdbQuery { url: String::from_str(GAMES_URL), body })
            },
            _ => None,
        }
    }

    /// Whether `next` is the batch that `self` becomes when the catalog
    /// answers `answer`.
    ///
    /// In the first pass the links that come are added to the links, and the
    /// next chunk of ids follows; after the last, the second pass starts at
    /// the first chunk that has a link. In the second pass the records that
    /// come are resolved against all the links and join the result, and the
    /// next chunk that has a link follows. An answer of another kind than
    /// the query's ends the batch as unexpected.
    pub open spec fn advances_to(&self, answer: BatchAnswer, next: &BatchResolver) -> bool {
        let len = self.ids().len() as int;
        &&& next.ids() == self.ids()
        &&& match (self.phase(), answer) {
            (BatchPhase::Links, BatchAnswer::Links(l)) => {
                let start = chunk_end(len, self.start());
                &&& next.links() == self.links() + l@
                &&& next.ends() == self.ends().push(next.links().len() as usize)
                &&& next.start() == start
                &&& next.records() == self.records()
                &&& if start < len {
                    next.phase() == BatchPhase::Links
                } else {
                    &&& next.at() == next_linked(next.ends(), 0)
                    &&& next.phase() == records_phase(next.ends().len() as int, next.at())
                }
            },
            (BatchPhase::Records, BatchAnswer::Records(raw)) => {
                &&& next.links() == self.links()
                &&& next.ends() == self.ends()
                &&& next.start() == self.start()
                &&& next.at() == next_linked(self.ends(), self.at() + 1)
                &&& next.phase() == records_phase(self.ends().len() as int, next.at())
                &&& next.records().len() == self.records().len() + raw@.len()
                &&& next.records().take(self.records().len() as int) == self.records()
                &&& all_resolved(
                    next.records().skip(self.records().len() as int),
                    raw@,
                    self.links(),
                )
            },
            (BatchPhase::Done, _) => {
                &&& next.phase() == BatchPhase::Done
                &&& next.records() == self.records()
                &&& next.links() == self.links()
                &&& next.ends() == self.ends()
            },
            _ => {
                &&& next.phase() == BatchPhase::Unexpected
                &&& next.records() == self.records()
                &&& next.links() == self.links()
                &&& next.ends() == self.ends()
            },
        }
    }

    /// Takes in what the catalog answered to the last query.
    pub fn advance(&mut self, answer: BatchAnswer)
        requires
            old(self).wf(),
        ensures
            final(self).wf(),
            old(self).advances_to(answer, final(self)),
    {
        match self.phase {
            BatchPhase::Links => match answer {
                BatchAnswer::Links(l) => {
                    let mut l = l;
                    let end = self.end();
                    self.links.append(&mut l);
                    self.ends.push(self.links.len());
                    self.start = end;
                    proof {
                        assert forall|k: int| 0 <= k < self.ends().len() implies links_begin(
                            self.ends(),
                            k,
                        ) <= (#[trigger] self.ends()[k]) <= self.links().len() by {
                            if k < old(self).ends().len() {
                                assert(self.ends()[k] == old(self).ends()[k]);
                                assert(links_begin(self.ends(), k) == links_begin(
                                    old(self).ends(),
                                    k,
                                ));
                            } else if k > 0 {
                                assert(self.ends()[k - 1] == old(self).ends()[k - 1]);
                            }
                        }
                    }
                    if self.start >= self.ids.len() {
                        self.phase = BatchPhase::Done;
                        self.at = self.seek(0);
                        if self.at < self.ends.len() {
                            self.phase = BatchPhase::Records;
                        }
                    }
                },
                _ => {
                    self.phase = BatchPhase::Unexpected;
                },
            },
            BatchPhase::Records => match answer {
                BatchAnswer::Records(raw) => {
                    let ghost before = self.records@;
                    let ghost all = raw@;
                    for r in it: raw
                        invariant
                            it.seq() == all,
                            self.wf(),
                            self.ids() == old(self).ids(),
                            self.start() == old(self).start(),
                            self.at() == old(self).at(),
                            self.phase() == old(self).phase(),
                            self.links() == old(self).links(),
                            self.ends() == old(self).ends(),
                            self.records@.len() == before.len() + it.index(),
                            self.records@.take(before.len() as int) == before,
                            forall|i: int|
                                0 <= i < it.index() ==> is_resolved(
                                    #[trigger] self.records@[before.len() + i],
                                    all[i],
                                    old(self).links(),
                                ),
                    {
                        let ghost was = self.records@;
                        let game = resolve(r, &self.links);
                        self.records.push(game);
                        proof {
                            assert(self.records@.take(before.len() as int) =~= was.take(
                                before.len() as int,
                            ));
                            assert forall|i: int| 0 <= i < it.index() + 1 implies is_resolved(
                                #[trigger] self.records@[before.len() + i],
                                all[i],
                                old(self).links(),
                            ) by {
                                if i < it.index() {
                                    assert(self.records@[before.len() + i] == was[before.len()
                                        + i]);
                                }
                            }
                        }
                    }
                    proof {
                        let tail = self.records@.skip(before.len() as int);
                        assert forall|i: int| 0 <= i < all.len() implies is_resolved(
                            #[trigger] tail[i],
                            all[i],
                            old(self).links(),
                        ) by {
                            assert(tail[i] == self.records@[before.len() + i]);
                        }
                    }
                    assert(self.ends@.len() == self.ends.len());
                    let next = self.seek(self.at + 1);
                    self.phase = BatchPhase::Done;
                    self.at = next;
                    if self.at < self.ends.len() {
                        self.phase = BatchPhase::Records;
                    }
                },
                _ => {
                    self.phase = BatchPhase::Unexpected;
                },
            },
            BatchPhase::Done => {},
            BatchPhase::Unexpected => {},
        }
    }

    /// The records of the batch, once every chunk is resolved; the error of
    /// an unexpected answer otherwise. No part of a batch is a result.
    pub fn finish(self) -> (r: Result<Vec<IgdbGame>, IgdbError>)
        ensures
            self.phase() is Done ==> r is Ok && r->Ok_0@ == self.records(),
            !(self.phase() is Done) ==> r == Err::<Vec<IgdbGame>, IgdbError>(IgdbError::Unexpected),
    {
        match self.phase {
            BatchPhase::Done => Ok(self.records),
            _ => Err(IgdbError::Unexpected),
        }
    }
}

/// The client of the catalog.
#[derive(Debug)]
pub struct IgdbApiClient {
    twitch_client: TwitchApiClient,
}

impl IgdbApiClient {
    /// The client of the OAuth provider through which requests are
    /// authorized.
    pub closed spec fn twitch_client(&self) -> TwitchApiClient {
        self.twitch_client
    }

    /// A client that gets its tokens through `twitch_client`.
    pub fn new(twitch_client: TwitchApiClient) -> (c: IgdbApiClient)
        ensures
            c.twitch_client() == twitch_client,
    {
        IgdbApiClient { twitch_client }
    }

    /// The header that names the client in every request: its name and its
    /// value.
    pub fn client_id_header(&self) -> (h: (String, String))
        ensures
            h.0@ == CLIENT_ID_HEADER@,
            h.1@ == self.twitch_client().client_id(),
    {
        (String::from_str(CLIENT_ID_HEADER), self.twitch_client.get_client_id())
    }

    /// The lookup of the catalog record of the storefront game
    /// `steam_game_id`.
    pub fn get_game(&self, steam_game_id: i64) -> (l: GameLookup)
        ensures
            l.steam_game_id() == steam_game_id,
            l.phase() == LookupPhase::SteamGame,
            is_blank(l.record()),
    {
        GameLookup::new(steam_game_id)
    }

    /// The resolution of the storefront games `ids` in batches.
    pub fn get_games(&self, ids: Vec<u64>) -> (b: BatchResolver)
        ensures
            b.wf(),
            b.ids() == ids@,
            b.start() == 0,
            b.phase() == BatchResolver::phase_at(ids@.len() as int, 0),
            b.links() == Seq::<IgdbExternalGame>::empty(),
            b.ends() == Seq::<usize>::empty(),
            b.records() == Seq::<IgdbGame>::empty(),
    {
        BatchResolver::new(ids)
    }

    /// The query that asks for the catalog game of the storefront game
    /// `game_id`.
    pub fn get_steam_game(game_id: i64) -> (q: IgdbQuery)
        ensures
            q@ == steam_game_query(game_id),
    {
        let mut body = String::from_str(STEAM_GAME_QUERY);
        push_signed_decimal(&mut body, game_id);
        body.append(STEAM_GAME_QUERY_END);
        IgdbQuery { url: String::from_str(EXTERNAL_GAMES_URL), body }
    }

    /// The query that searches the catalog for a game called `game_name`.
    pub fn search_game(game_name: &str) -> (q: IgdbQuery)
        ensures
            q@ == search_query(game_name@),
    {
        let mut body = String::from_str(SEARCH_QUERY);
        body.append(game_name);
        body.append(SEARCH_QUERY_END);
        IgdbQuery { url: String::from_str(GAMES_URL), body }
    }

    /// The query that asks for the catalog game `igdb_game_id`.
    pub fn get_game_info(igdb_game_id: i64) -> (q: IgdbQuery)
        ensures
            q@ == game_info_query(igdb_game_id),
    {
        let mut body = String::from_str(BY_ID_QUERY);
        push_signed_decimal(&mut body, igdb_game_id);
        body.append(BY_ID_QUERY_END);
        IgdbQuery { url: String::from_str(GAMES_URL), body }
    }

    /// The query that asks for the genres `genres`.
    pub fn get_game_genres(genres: &Vec<u64>) -> (q: IgdbQuery)
        ensures
            q@ == genres_query(genres@),
    {
        let mut body = String::from_str(BY_IDS_QUERY);
        assert(genres@.subrange(0, genres@.len() as int) =~= genres@);
        push_joined(&mut body, genres, 0, genres.len(), false);
        body.append(BY_IDS_QUERY_END);
        IgdbQuery { url: String::from_str(GENRES_URL), body }
    }

    /// The query that asks for the cover `cover`.
    pub fn get_game_cover(cover: u64) -> (q: IgdbQuery)
        ensures
            q@ == cover_query(cover),
    {
        let mut body = String::from_str(BY_IDS_QUERY);
        push_decimal(&mut body, cover);
        body.append(BY_IDS_QUERY_END);
        IgdbQuery { url: String::from_str(COVERS_URL), body }
    }

    /// The token that is cached, if one is.
    pub fn get_twitch_access_token(&self) -> (t: Option<String>)
        ensures
            crate::text::opt_text(t) == self.twitch_client().access_token(),
    {
        self.twitch_client.get_access_token()
    }

    /// A request that starts with the cached token, or with none, and is
    /// retried once with a fresh token after a 401.
    pub fn request_with_retry(&self) -> (r: AuthorizedRequest)
        ensures
            r.stage() == (if self.twitch_client().access_token() is Some {
                crate::twitch::AuthStage::Valid
            } else {
                crate::twitch::AuthStage::NoToken
            }),
            r.token() == (match self.twitch_client().access_token() {
                Some(token) => token,
                None => Seq::empty(),
            }),
            r.failure() == Seq::<char>::empty(),
    {
        self.twitch_client.request_with_retry()
    }

    /// Caches the token of the provider's answer `response`.
    pub fn refresh_access_token(&mut self, response: crate::twitch::TwitchAuthResponse)
        ensures
            final(self).twitch_client().client_id() == old(self).twitch_client().client_id(),
            final(self).twitch_client().access_token() == Some(response.access_token@),
    {
        self.twitch_client.refresh_access_token(response);
    }
}

} // verus!
