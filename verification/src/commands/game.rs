//! Listing the library, with its fuzzy name filter, and refreshing it from
//! the storefront and the catalog.

use vstd::prelude::*;

use crate::assets::AssetError;
use crate::client::steam::{manifest_installed, SteamClient};
use crate::db::game::Game;
use crate::igdb::{IgdbCover, IgdbError, IgdbGame};
use crate::service::steam::{app_ids, owned_ids, SteamError, SteamGame};
use vstd::string::StringExecFns;
use crate::text::{
    ascii_lowercase, chars_of, contains, contains_chars, distinct, lemma_distinct, list_contains,
    push_unique, string_of, texts, to_ascii_lowercase,
};

verus! {

/// What the user interface asks of the list of games.
#[derive(Debug, PartialEq, Eq)]
pub struct GameQuery {
    /// Where set, only the games whose name matches it are listed.
    pub name: Option<String>,
}

/// `s` between two spaces in front and one behind.
pub open spec fn padded(s: Seq<char>) -> Seq<char> {
    seq![' ', ' '] + s + seq![' ']
}

/// The windows of three characters of the padded `s`, from left to right.
pub open spec fn windows(s: Seq<char>) -> Seq<Seq<char>> {
    Seq::new(s.len() + 1, |i: int| padded(s).subrange(i, i + 3))
}

/// The set of the trigrams of `s`.
pub open spec fn trigram_set(s: Seq<char>) -> Set<Seq<char>> {
    windows(s).to_set()
}

/// The trigrams of `s`: the windows of three characters of `s` padded with
/// two spaces in front and one behind. Each trigram comes once, at the place
/// of its first window.
pub fn trigrams(s: &str) -> (r: Vec<String>)
    ensures
        texts(r@) == distinct(windows(s@)),
        texts(r@).no_duplicates(),
        texts(r@).to_set() == trigram_set(s@),
{
    let chars = chars_of(s);
    let mut p: Vec<char> = Vec::new();
    p.push(' ');
    p.push(' ');
    let mut k: usize = 0;
    while k < chars.len()
        invariant
            k <= chars.len(),
            p@ == seq![' ', ' '] + chars@.take(k as int),
        decreases chars.len() - k,
    {
        p.push(chars[k]);
        assert(p@ =~= seq![' ', ' '] + chars@.take(k + 1));
        k += 1;
    }
    p.push(' ');
    assert(p@ =~= padded(s@)) by {
        assert(chars@.take(k as int) =~= chars@);
    }
    let mut r: Vec<String> = Vec::new();
    let mut i: usize = 0;
    assert(windows(s@).take(0) =~= Seq::empty());
    assert(texts(r@) =~= Seq::empty());
    while i + 2 < p.len()
        invariant
            i + 2 <= p.len(),
            p@ == padded(s@),
            texts(r@) == distinct(windows(s@).take(i as int)),
        decreases p.len() - i,
    {
        let t = string_of(&p, i, i + 3);
        proof {
            let w = windows(s@);
            assert(w.take(i + 1).drop_last() =~= w.take(i as int));
            assert(w.take(i + 1).last() == t@);
        }
        push_unique(&mut r, t);
        i += 1;
    }
    proof {
        assert(windows(s@).take(i as int) =~= windows(s@));
        lemma_distinct(windows(s@));
    }
    r
}

/// The entries of `a` that `b` holds, in the order of `a`.
pub open spec fn shared(a: Seq<Seq<char>>, b: Set<Seq<char>>) -> Seq<Seq<char>>
    decreases a.len(),
{
    if a.len() == 0 {
        Seq::empty()
    } else if b.contains(a.last()) {
        shared(a.drop_last(), b).push(a.last())
    } else {
        shared(a.drop_last(), b)
    }
}

/// `shared` holds exactly what both the list and the set hold.
pub proof fn lemma_shared_contains(a: Seq<Seq<char>>, b: Set<Seq<char>>, t: Seq<char>)
    ensures
        shared(a, b).contains(t) <==> a.contains(t) && b.contains(t),
    decreases a.len(),
{
    if a.len() > 0 {
        let head = a.drop_last();
        let before = shared(head, b);
        let all = shared(a, b);
        lemma_shared_contains(head, b, t);
        if a.contains(t) && b.contains(t) {
            let i = choose|i: int| 0 <= i < a.len() && a[i] == t;
            if i < a.len() - 1 {
                assert(head[i] == t);
                let j = choose|j: int| 0 <= j < before.len() && before[j] == t;
                assert(all[j] == t);
            } else {
                assert(all[before.len() as int] == t);
            }
        }
        if all.contains(t) {
            let j = choose|j: int| 0 <= j < all.len() && all[j] == t;
            if j < before.len() {
                assert(before[j] == t);
                let i = choose|i: int| 0 <= i < head.len() && head[i] == t;
                assert(a[i] == t);
            } else {
                assert(a[a.len() - 1] == t);
            }
        }
    }
}

/// Of a list without repetitions, the entries that a set holds are as many
/// as the set has in common with the list.
pub proof fn lemma_shared(a: Seq<Seq<char>>, b: Set<Seq<char>>)
    requires
        a.no_duplicates(),
    ensures
        shared(a, b).no_duplicates(),
        shared(a, b).to_set() == a.to_set().intersect(b),
        shared(a, b).len() == a.to_set().intersect(b).len(),
    decreases a.len(),
{
    if a.len() > 0 {
        let head = a.drop_last();
        let before = shared(head, b);
        assert(head.no_duplicates());
        lemma_shared(head, b);
        if b.contains(a.last()) {
            assert(!before.contains(a.last())) by {
                lemma_shared_contains(head, b, a.last());
                if head.contains(a.last()) {
                    let i = choose|i: int| 0 <= i < head.len() && head[i] == a.last();
                    assert(a[i] == a[a.len() - 1]);
                }
            }
        }
    }
    assert forall|t: Seq<char>| shared(a, b).contains(t) <==> a.contains(t) && b.contains(t) by {
        lemma_shared_contains(a, b, t);
    }
    assert(shared(a, b).to_set() =~= a.to_set().intersect(b));
    shared(a, b).unique_seq_to_set();
}

/// How much of one text's trigrams another text holds.
#[derive(Clone, Copy, Debug, PartialEq, Eq, Structural)]
pub struct Similarity {
    /// The number of trigrams of the first text that the second has too.
    pub shared: usize,
    /// The number of trigrams of the first text.
    pub total: usize,
}

impl Similarity {
    /// Whether the score `shared / total` is above 0.4.
    pub open spec fn above_threshold(self) -> bool {
        5 * self.shared > 2 * self.total
    }

    /// Whether the score `shared / total` is above 0.4.
    pub fn exceeds_threshold(&self) -> (b: bool)
        ensures
            b == self.above_threshold(),
    {
        5 * (self.shared as u128) > 2 * (self.total as u128)
    }
}

/// The trigram similarity of `a` to `b`: of the trigrams of `a`, the part that
/// `b` has too. The score is `shared / total`; it is 1 where every trigram of
/// `a` is one of `b`, and 0 where none is.
pub fn similarity(a: &str, b: &str) -> (r: Similarity)
    ensures
        r.total == trigram_set(a@).len(),
        r.shared == trigram_set(a@).intersect(trigram_set(b@)).len(),
        0 < r.total,
        r.shared <= r.total,
{
    let ta = trigrams(a);
    let tb = trigrams(b);
    let mut count: usize = 0;
    let mut i: usize = 0;
    assert(texts(ta@).take(0) =~= Seq::empty());
    while i < ta.len()
        invariant
            i <= ta.len(),
            count <= i,
            texts(tb@).to_set() == trigram_set(b@),
            count == shared(texts(ta@).take(i as int), trigram_set(b@)).len(),
        decreases ta.len() - i,
    {
        proof {
            let all = texts(ta@);
            assert(all.take(i + 1).drop_last() =~= all.take(i as int));
            assert(all.take(i + 1).last() == ta@[i as int]@);
        }
        if list_contains(&tb, &ta[i]) {
            count += 1;
        }
        i += 1;
    }
    proof {
        assert(texts(ta@).take(i as int) =~= texts(ta@));
        lemma_shared(texts(ta@), trigram_set(b@));
        texts(ta@).unique_seq_to_set();
        assert(windows(a@)[0] == padded(a@).subrange(0, 3));
        assert(windows(a@).contains(windows(a@)[0]));
        assert(trigram_set(a@).contains(windows(a@)[0]));
        assert(texts(ta@).len() > 0) by {
            if texts(ta@).len() == 0 {
                assert(!texts(ta@).contains(windows(a@)[0]));
            }
        }
    }
    Similarity { shared: count, total: ta.len() }
}

/// Whether a game called `name` matches the query `query`: without regard to
/// the case of ASCII letters, the query is part of the name, or the trigram
/// similarity of the query to the name is above 0.4.
pub open spec fn name_matches(query: Seq<char>, name: Seq<char>) -> bool {
    let q = to_ascii_lowercase(query);
    let n = to_ascii_lowercase(name);
    contains(n, q) || 5 * trigram_set(q).intersect(trigram_set(n)).len() > 2 * trigram_set(q).len()
}

/// Executable form of [`name_matches`].
pub fn matches_name(query: &str, name: &str) -> (b: bool)
    ensures
        b == name_matches(query@, name@),
{
    let q = ascii_lowercase(&chars_of(query));
    let n = ascii_lowercase(&chars_of(name));
    if contains_chars(&n, &q) {
        return true;
    }
    let qs = string_of(&q, 0, q.len());
    let ns = string_of(&n, 0, n.len());
    assert(qs@ =~= q@ && ns@ =~= n@);
    similarity(qs.as_str(), ns.as_str()).exceeds_threshold()
}

/// The games of `games` whose name matches `query`, in their order.
pub open spec fn matching(games: Seq<Game>, query: Seq<char>) -> Seq<Game>
    decreases games.len(),
{
    if games.len() == 0 {
        Seq::empty()
    } else if name_matches(query, games.last().name@) {
        matching(games.drop_last(), query).push(games.last())
    } else {
        matching(games.drop_last(), query)
    }
}

/// The games to list for `query`: all of `games` where the query names
/// nothing, and otherwise those whose name matches it.
pub fn get_games(games: Vec<Game>, query: Option<GameQuery>) -> (r: Vec<Game>)
    ensures
        r@ == match query {
            Some(GameQuery { name: Some(name) }) => matching(games@, name@),
            _ => games@,
        },
{
    let name = match query {
        Some(GameQuery { name: Some(name) }) => name,
        _ => {
            return games;
        },
    };
    let mut r: Vec<Game> = Vec::new();
    let ghost all = games@;
    assert(all.take(0) =~= Seq::empty());
    for game in it: games
        invariant
            it.seq() == all,
            r@ == matching(all.take(it.index() as int), name@),
    {
        proof {
            let i = it.index() as int;
            assert(all.take(i + 1).drop_last() =~= all.take(i));
            assert(all.take(i + 1).last() == game);
        }
        if matches_name(name.as_str(), game.name.as_str()) {
            r.push(game);
        }
    }
    assert(all.take(all.len() as int) =~= all);
    r
}


/// Where every trigram of `a` is one of `b`, the similarity of `a` to `b` is
/// 1: all of the trigrams of `a` are shared.
pub proof fn lemma_similarity_of_contained(a: Seq<char>, b: Seq<char>)
    requires
        trigram_set(a).subset_of(trigram_set(b)),
    ensures
        trigram_set(a).intersect(trigram_set(b)).len() == trigram_set(a).len(),
{
    assert(trigram_set(a).intersect(trigram_set(b)) =~= trigram_set(a));
}

/// Where no trigram of `a` is one of `b`, the similarity of `a` to `b` is 0.
pub proof fn lemma_similarity_of_disjoint(a: Seq<char>, b: Seq<char>)
    requires
        trigram_set(a).disjoint(trigram_set(b)),
    ensures
        trigram_set(a).intersect(trigram_set(b)).len() == 0,
{
    assert(trigram_set(a).intersect(trigram_set(b)) =~= Set::empty());
}

pub const DATABASE_ERROR: &'static str = "database error: ";

pub const STEAM_ERROR: &'static str = "steam api error: ";

pub const STEAM_CLIENT_ERROR: &'static str = "steam local client error: ";

pub const IGDB_ERROR: &'static str = "igdb error: ";

pub const ASSET_ERROR: &'static str = "asset error: ";

/// Why an operation of the user interface failed.
#[derive(Debug, PartialEq, Eq)]
pub enum RocadeError {
    /// The store failed; the text says how.
    Database(String),
    /// The storefront's web API failed.
    Steam(SteamError),
    /// The local storefront client failed; the text says how.
    SteamLocalClient(String),
    /// The catalog failed.
    Igdb(IgdbError),
    /// The image mirror failed.
    Asset(AssetError),
}

impl RocadeError {
    /// The error in words: the part that failed, and its own message.
    pub open spec fn message(self) -> Seq<char> {
        match self {
            RocadeError::Database(s) => DATABASE_ERROR@ + s@,
            RocadeError::Steam(e) => STEAM_ERROR@ + e.message(),
            RocadeError::SteamLocalClient(s) => STEAM_CLIENT_ERROR@ + s@,
            RocadeError::Igdb(e) => IGDB_ERROR@ + e.message(),
            RocadeError::Asset(e) => ASSET_ERROR@ + e.message(),
        }
    }

    /// The error in words, as the user interface receives it.
    pub fn to_string(&self) -> (s: String)
        ensures
            s@ == self.message(),
    {
        match self {
            RocadeError::Database(e) => String::from_str(DATABASE_ERROR).concat(e.as_str()),
            RocadeError::Steam(e) => String::from_str(STEAM_ERROR).concat(e.to_string().as_str()),
            RocadeError::SteamLocalClient(e) => String::from_str(STEAM_CLIENT_ERROR).concat(
                e.as_str(),
            ),
            RocadeError::Igdb(e) => String::from_str(IGDB_ERROR).concat(e.to_string().as_str()),
            RocadeError::Asset(e) => String::from_str(ASSET_ERROR).concat(e.to_string().as_str()),
        }
    }
}

/// `game` with its install status: installed where it has a storefront id
/// and the manifest that the local client keeps for it says so. `manifest` is
/// the content of that manifest, or `None` where it is missing.
pub fn get_game(game: Game, steam_client: &SteamClient, manifest: Option<&str>) -> (g: Game)
    ensures
        g == (Game {
            is_installed: Some(
                game.store_id is Some && manifest is Some && manifest_installed(manifest->0@),
            ),
            ..game
        }),
{
    let mut game = game;
    let installed = if game.store_id.is_some() {
        steam_client.is_steam_game_installed(manifest)
    } else {
        false
    };
    game.is_installed = Some(installed);
    game
}

/// The place that `paths` give for the image `id`: that of the last pair
/// that names it.
pub open spec fn path_of(paths: Seq<(String, String)>, id: Seq<char>) -> Option<String>
    decreases paths.len(),
{
    if paths.len() == 0 {
        None
    } else if paths.last().0@ == id {
        Some(paths.last().1)
    } else {
        path_of(paths.drop_last(), id)
    }
}

/// The place that `paths` give for the image `id`.
pub fn find_path(paths: &Vec<(String, String)>, id: &String) -> (r: Option<String>)
    ensures
        r == path_of(paths@, id@),
{
    let mut i: usize = paths.len();
    assert(paths@.take(i as int) =~= paths@);
    while i > 0
        invariant
            i <= paths.len(),
            path_of(paths@, id@) == path_of(paths@.take(i as int), id@),
        decreases i,
    {
        proof {
            assert(paths@.take(i as int).last() == paths@[i - 1]);
            assert(paths@.take(i as int).drop_last() =~= paths@.take(i - 1));
        }
        if paths[i - 1].0 == *id {
            return Some(paths[i - 1].1.clone());
        }
        i -= 1;
    }
    None
}

/// `paths` give a place for an image exactly where a pair names it, and the
/// place is that of such a pair.
pub proof fn lemma_path_of(paths: Seq<(String, String)>, id: Seq<char>)
    ensures
        path_of(paths, id) is Some <==> exists|k: int|
            0 <= k < paths.len() && (#[trigger] paths[k]).0@ == id,
        path_of(paths, id) is Some ==> exists|k: int|
            0 <= k < paths.len() && (#[trigger] paths[k]).0@ == id && paths[k].1 == path_of(
                paths,
                id,
            )->0,
    decreases paths.len(),
{
    if paths.len() > 0 {
        let head = paths.drop_last();
        let last = paths.len() - 1;
        lemma_path_of(head, id);
        if paths.last().0@ == id {
            assert(paths[last].0@ == id && paths[last].1 == path_of(paths, id)->0);
        } else {
            if path_of(head, id) is Some {
                let k = choose|k: int|
                    0 <= k < head.len() && (#[trigger] head[k]).0@ == id && head[k].1 == path_of(
                        head,
                        id,
                    )->0;
                assert(paths[k] == head[k]);
            }
            if exists|k: int| 0 <= k < paths.len() && (#[trigger] paths[k]).0@ == id {
                let k = choose|k: int| 0 <= k < paths.len() && (#[trigger] paths[k]).0@ == id;
                assert(k != last);
                assert(head[k] == paths[k]);
            }
        }
    }
}

/// Where `paths` are the result of a batch of downloads, they give a place
/// for an image exactly where the batch has stored it, and the place is
/// where the mirror keeps it: `{assets}/{kind}/{id}.jpg`.
pub proof fn lemma_place_of_mirrored_image(
    paths: Seq<(String, String)>,
    assets_dir: Seq<char>,
    kind: crate::assets::AssetKind,
    ids: Seq<Seq<char>>,
    slots: Seq<crate::assets::Slot>,
    id: Seq<char>,
)
    requires
        slots.len() == ids.len(),
        crate::text::pairs(paths) == crate::assets::stored_pairs(assets_dir, kind, ids, slots),
    ensures
        path_of(paths, id) is Some <==> exists|i: int|
            0 <= i < ids.len() && slots[i] is Stored && #[trigger] ids[i] == id,
        path_of(paths, id) is Some ==> path_of(paths, id)->0@ == crate::assets::local_path(
            assets_dir,
            kind,
            id,
        ),
{
    let stored = crate::assets::stored_pairs(assets_dir, kind, ids, slots);
    let place = crate::assets::local_path(assets_dir, kind, id);
    lemma_path_of(paths, id);
    if path_of(paths, id) is Some {
        let k = choose|k: int|
            0 <= k < paths.len() && (#[trigger] paths[k]).0@ == id && paths[k].1 == path_of(
                paths,
                id,
            )->0;
        let pair = (paths[k].0@, paths[k].1@);
        assert(crate::text::pairs(paths)[k] == pair);
        assert(stored.contains(pair));
        crate::assets::lemma_stored_pairs(assets_dir, kind, ids, slots, pair);
        let i = choose|i: int|
            0 <= i < ids.len() && slots[i] is Stored && pair == (
                #[trigger] ids[i],
                crate::assets::local_path(assets_dir, kind, ids[i]),
            );
        assert(ids[i] == id);
    }
    if exists|i: int| 0 <= i < ids.len() && slots[i] is Stored && #[trigger] ids[i] == id {
        let i = choose|i: int| 0 <= i < ids.len() && slots[i] is Stored && #[trigger] ids[i] == id;
        let pair = (id, place);
        crate::assets::lemma_stored_pairs(assets_dir, kind, ids, slots, pair);
        assert(stored.contains(pair));
        let k = choose|k: int| 0 <= k < stored.len() && stored[k] == pair;
        assert(crate::text::pairs(paths)[k] == (paths[k].0@, paths[k].1@));
        assert(paths[k].0@ == id);
    }
}

/// The cover of `game` with its place in the mirror, where it has both.
pub open spec fn cover_match(game: IgdbGame, paths: Seq<(String, String)>) -> Option<
    (String, String),
> {
    match game.cover {
        Some(cover) => match path_of(paths, cover.image_id@) {
            Some(path) => Some((cover.image_id, path)),
            None => None,
        },
        None => None,
    }
}

/// Of `artworks`, those that `paths` give a place for, each with its place,
/// in the order of `artworks`.
pub open spec fn matched(artworks: Seq<IgdbCover>, paths: Seq<(String, String)>) -> Seq<
    (String, String),
>
    decreases artworks.len(),
{
    if artworks.len() == 0 {
        Seq::empty()
    } else {
        match path_of(paths, artworks.last().image_id@) {
            Some(path) => matched(artworks.drop_last(), paths).push(
                (artworks.last().image_id, path),
            ),
            None => matched(artworks.drop_last(), paths),
        }
    }
}

/// The cover of `game` with its place in the mirror, where it has both.
pub fn cover_update(game: &IgdbGame, paths: &Vec<(String, String)>) -> (r: Option<(String, String)>)
    ensures
        r == cover_match(*game, paths@),
{
    match &game.cover {
        Some(cover) => match find_path(paths, &cover.image_id) {
            Some(path) => Some((cover.image_id.clone(), path)),
            None => None,
        },
        None => None,
    }
}

/// The artworks of `game` that are in the mirror, each with its place.
pub fn artwork_updates(game: &IgdbGame, paths: &Vec<(String, String)>) -> (r: Vec<(String, String)>)
    ensures
        r@ == matched(game.artworks@, paths@),
{
    let mut r: Vec<(String, String)> = Vec::new();
    let mut i: usize = 0;
    assert(game.artworks@.take(0) =~= Seq::empty());
    while i < game.artworks.len()
        invariant
            i <= game.artworks.len(),
            r@ == matched(game.artworks@.take(i as int), paths@),
        decreases game.artworks.len() - i,
    {
        proof {
            let all = game.artworks@;
            assert(all.take(i + 1).drop_last() =~= all.take(i as int));
            assert(all.take(i + 1).last() == all[i as int]);
        }
        match find_path(paths, &game.artworks[i].image_id) {
            Some(path) => {
                r.push((game.artworks[i].image_id.clone(), path));
            },
            None => {},
        }
        i += 1;
    }
    assert(game.artworks@.take(i as int) =~= game.artworks@);
    r
}

/// The image ids of `images`, in their order.
pub open spec fn image_ids(images: Seq<IgdbCover>) -> Seq<Seq<char>> {
    images.map_values(|c: IgdbCover| c.image_id@)
}

/// The cover ids of `games`, in their order; a game without a cover gives
/// none.
pub open spec fn cover_ids(games: Seq<IgdbGame>) -> Seq<Seq<char>>
    decreases games.len(),
{
    if games.len() == 0 {
        Seq::empty()
    } else {
        match games.last().cover {
            Some(cover) => cover_ids(games.drop_last()).push(cover.image_id@),
            None => cover_ids(games.drop_last()),
        }
    }
}

/// The artwork ids of `games`, in their order.
pub open spec fn artwork_ids(games: Seq<IgdbGame>) -> Seq<Seq<char>>
    decreases games.len(),
{
    if games.len() == 0 {
        Seq::empty()
    } else {
        artwork_ids(games.drop_last()) + image_ids(games.last().artworks@)
    }
}

/// The distinct cover ids of `games`.
pub fn collect_cover_ids(games: &Vec<IgdbGame>) -> (r: Vec<String>)
    ensures
        texts(r@) == distinct(cover_ids(games@)),
        texts(r@).no_duplicates(),
{
    let mut r: Vec<String> = Vec::new();
    let mut i: usize = 0;
    assert(games@.take(0) =~= Seq::empty());
    assert(texts(r@) =~= Seq::empty());
    while i < games.len()
        invariant
            i <= games.len(),
            texts(r@) == distinct(cover_ids(games@.take(i as int))),
        decreases games.len() - i,
    {
        proof {
            assert(games@.take(i + 1).drop_last() =~= games@.take(i as int));
            assert(games@.take(i + 1).last() == games@[i as int]);
        }
        match &games[i].cover {
            Some(cover) => {
                proof {
                    let ids = cover_ids(games@.take(i + 1));
                    assert(ids.drop_last() =~= cover_ids(games@.take(i as int)));
                }
                push_unique(&mut r, cover.image_id.clone());
            },
            None => {},
        }
        i += 1;
    }
    proof {
        assert(games@.take(i as int) =~= games@);
        lemma_distinct(cover_ids(games@));
    }
    r
}

/// The distinct artwork ids of `games`.
pub fn collect_artwork_ids(games: &Vec<IgdbGame>) -> (r: Vec<String>)
    ensures
        texts(r@) == distinct(artwork_ids(games@)),
        texts(r@).no_duplicates(),
{
    let mut r: Vec<String> = Vec::new();
    let mut i: usize = 0;
    assert(games@.take(0) =~= Seq::empty());
    assert(texts(r@) =~= Seq::empty());
    while i < games.len()
        invariant
            i <= games.len(),
            texts(r@) == distinct(artwork_ids(games@.take(i as int))),
        decreases games.len() - i,
    {
        let artworks = &games[i].artworks;
        let ghost before = artwork_ids(games@.take(i as int));
        let ghost ids = image_ids(artworks@);
        let mut j: usize = 0;
        assert(before + ids.take(0) =~= before);
        while j < artworks.len()
            invariant
                j <= artworks.len(),
                ids == image_ids(artworks@),
                texts(r@) == distinct(before + ids.take(j as int)),
            decreases artworks.len() - j,
        {
            proof {
                let next = before + ids.take(j + 1);
                assert(next.drop_last() =~= before + ids.take(j as int));
                assert(next.last() == artworks@[j as int].image_id@);
            }
            push_unique(&mut r, artworks[j].image_id.clone());
            j += 1;
        }
        proof {
            assert(ids.take(j as int) =~= ids);
            assert(games@.take(i + 1).drop_last() =~= games@.take(i as int));
            assert(games@.take(i + 1).last() == games@[i as int]);
        }
        i += 1;
    }
    proof {
        assert(games@.take(i as int) =~= games@);
        lemma_distinct(artwork_ids(games@));
    }
    r
}


/// The part of a refresh that can make it fail.
#[derive(Clone, Copy, Debug, PartialEq, Eq, Structural)]
pub enum RefreshStage {
    /// Listing the owned games.
    Storefront,
    /// Resolving them in the catalog.
    Catalog,
    /// Emptying the store, or inserting a record.
    Store,
    /// Emptying the image mirror.
    Assets,
}

/// Where a refresh of the library stands.
#[derive(Clone, Copy, Debug, PartialEq, Eq, Structural)]
pub enum RefreshPhase {
    /// The owned games are to be listed.
    FetchOwned,
    /// The owned games are to be resolved in the catalog.
    Resolve,
    /// The store is to be emptied.
    CleanStore,
    /// The image mirror is to be emptied.
    ClearAssets,
    /// The record with this index is to be inserted.
    Insert(usize),
    /// The covers are to be mirrored.
    DownloadCovers,
    /// The artworks are to be mirrored.
    DownloadArtworks,
    /// The place of the cover of the record with this index is to be stored.
    UpdateCover(usize),
    /// The places of the artworks of the record with this index are to be
    /// stored.
    UpdateArtworks(usize),
    /// The refresh is complete.
    Done,
    /// The refresh was given up in this part.
    Failed(RefreshStage),
}

/// What happened to the last action of a refresh.
#[derive(Debug, PartialEq, Eq)]
pub enum RefreshEvent {
    /// The storefront listed these games.
    Owned(Vec<SteamGame>),
    /// The catalog resolved these records.
    Resolved(Vec<IgdbGame>),
    /// The record was inserted under this key.
    Inserted(i64),
    /// These images are in the mirror, each with its place.
    Downloaded(Vec<(String, String)>),
    /// The action succeeded.
    Done,
    /// The action failed.
    Failed,
}

/// What the caller of a refresh is to do next.
#[derive(Debug, PartialEq, Eq)]
pub enum RefreshAction {
    /// List the owned games; answer with [`RefreshEvent::Owned`].
    FetchOwned,
    /// Resolve these storefront ids; answer with [`RefreshEvent::Resolved`].
    Resolve(Vec<u64>),
    /// Empty the store.
    CleanStore,
    /// Empty the image mirror.
    ClearAssets,
    /// Insert the record with this index; answer with
    /// [`RefreshEvent::Inserted`].
    Insert(usize),
    /// Mirror these covers; answer with [`RefreshEvent::Downloaded`].
    DownloadCovers(Vec<String>),
    /// Mirror these artworks; answer with [`RefreshEvent::Downloaded`].
    DownloadArtworks(Vec<String>),
    /// Store the place of a cover.
    UpdateCover { game_id: i64, cover_id: String, local_path: String },
    /// Store the places of artworks, each given with its id.
    UpdateArtworks { game_id: i64, paths: Vec<(String, String)> },
    /// Nothing more: the refresh is complete, or was given up in this part.
    Finished(Result<(), RefreshStage>),
}

/// The first update at or after the record `from`: the place of its cover
/// where the mirror has it, else the places of its artworks where the mirror
/// has any, else the first update of the records that follow; the end of the
/// refresh where nothing is left to update.
pub open spec fn first_update(
    records: Seq<IgdbGame>,
    cover_paths: Seq<(String, String)>,
    artwork_paths: Seq<(String, String)>,
    from: int,
) -> RefreshPhase
    decreases records.len() - from,
{
    if from < 0 || from >= records.len() {
        RefreshPhase::Done
    } else if cover_match(records[from], cover_paths) is Some {
        RefreshPhase::UpdateCover(from as usize)
    } else if matched(records[from].artworks@, artwork_paths).len() > 0 {
        RefreshPhase::UpdateArtworks(from as usize)
    } else {
        first_update(records, cover_paths, artwork_paths, from + 1)
    }
}

/// The phase in which the records from `from` on are inserted: the insert of
/// the record `from`, or the mirroring of the covers where none is left.
pub open spec fn insert_from(records: Seq<IgdbGame>, from: int) -> RefreshPhase {
    if 0 <= from < records.len() {
        RefreshPhase::Insert(from as usize)
    } else {
        RefreshPhase::DownloadCovers
    }
}

/// The pairs that a download reported; none where it reported nothing.
pub open spec fn downloaded(event: RefreshEvent) -> Seq<(String, String)> {
    match event {
        RefreshEvent::Downloaded(paths) => paths@,
        _ => Seq::empty(),
    }
}

/// One refresh of the library, from the storefront's list to the places of
/// the mirrored images.
///
/// The caller asks for the [`action`](Refresh::action), performs it, and
/// reports what happened with [`advance`](Refresh::advance), until the action
/// is [`RefreshAction::Finished`].
#[derive(Debug)]
pub struct Refresh {
    phase: RefreshPhase,
    owned: Vec<u64>,
    records: Vec<IgdbGame>,
    keys: Vec<i64>,
    cover_paths: Vec<(String, String)>,
    artwork_paths: Vec<(String, String)>,
}

impl Refresh {
    pub closed spec fn phase(&self) -> RefreshPhase {
        self.phase
    }

    /// The storefront ids of the owned games.
    pub closed spec fn owned(&self) -> Seq<u64> {
        self.owned@
    }

    /// The records that the catalog resolved.
    pub closed spec fn records(&self) -> Seq<IgdbGame> {
        self.records@
    }

    /// The keys under which the records are stored, in the order of the
    /// records.
    pub closed spec fn keys(&self) -> Seq<i64> {
        self.keys@
    }

    /// The covers in the mirror, each with its place.
    pub closed spec fn cover_paths(&self) -> Seq<(String, String)> {
        self.cover_paths@
    }

    /// The artworks in the mirror, each with its place.
    pub closed spec fn artwork_paths(&self) -> Seq<(String, String)> {
        self.artwork_paths@
    }

    /// Every record that is stored has its key, and an update is of a record
    /// that has something to update.
    pub open spec fn wf(&self) -> bool {
        match self.phase() {
            RefreshPhase::CleanStore | RefreshPhase::ClearAssets => self.keys().len() == 0,
            RefreshPhase::Insert(i) => i < self.records().len() && self.keys().len() == i,
            RefreshPhase::DownloadCovers | RefreshPhase::DownloadArtworks | RefreshPhase::Done =>
                self.keys().len() == self.records().len(),
            RefreshPhase::UpdateCover(i) => {
                &&& self.keys().len() == self.records().len()
                &&& i < self.records().len()
                &&& cover_match(self.records()[i as int], self.cover_paths()) is Some
            },
            RefreshPhase::UpdateArtworks(i) => {
                &&& self.keys().len() == self.records().len()
                &&& i < self.records().len()
                &&& matched(self.records()[i as int].artworks@, self.artwork_paths()).len() > 0
            },
            _ => true,
        }
    }

    /// A refresh before its first step: nothing is listed, resolved, stored
    /// or mirrored yet.
    pub fn new() -> (r: Refresh)
        ensures
            r.wf(),
            r.phase() == RefreshPhase::FetchOwned,
            r.owned() == Seq::<u64>::empty(),
            r.records() == Seq::<IgdbGame>::empty(),
            r.keys() == Seq::<i64>::empty(),
            r.cover_paths() == Seq::<(String, String)>::empty(),
            r.artwork_paths() == Seq::<(String, String)>::empty(),
    {
        Refresh {
            phase: RefreshPhase::FetchOwned,
            owned: Vec::new(),
            records: Vec::new(),
            keys: Vec::new(),
            cover_paths: Vec::new(),
            artwork_paths: Vec::new(),
        }
    }

    pub fn current_phase(&self) -> (p: RefreshPhase)
        ensures
            p == self.phase(),
    {
        self.phase
    }

    /// The record with the index `i`.
    pub fn record(&self, i: usize) -> (r: Option<&IgdbGame>)
        ensures
            i < self.records().len() ==> r == Some(&self.records()[i as int]),
            i >= self.records().len() ==> r is None,
    {
        if i < self.records.len() {
            Some(&self.records[i])
        } else {
            None
        }
    }

    /// What the caller is to do next.
    pub fn action(&self) -> (a: RefreshAction)
        requires
            self.wf(),
        ensures
            match self.phase() {
                RefreshPhase::FetchOwned => a is FetchOwned,
                RefreshPhase::Resolve => a is Resolve && a->Resolve_0@ == self.owned(),
                RefreshPhase::CleanStore => a is CleanStore,
                RefreshPhase::ClearAssets => a is ClearAssets,
                RefreshPhase::Insert(i) => a == RefreshAction::Insert(i),
                RefreshPhase::DownloadCovers => a is DownloadCovers && texts(a->DownloadCovers_0@)
                    == distinct(cover_ids(self.records())),
                RefreshPhase::DownloadArtworks => a is DownloadArtworks && texts(
                    a->DownloadArtworks_0@,
                ) == distinct(artwork_ids(self.records())),
                RefreshPhase::UpdateCover(i) => {
                    let found = cover_match(self.records()[i as int], self.cover_paths())->0;
                    a == (RefreshAction::UpdateCover {
                        game_id: self.keys()[i as int],
                        cover_id: found.0,
                        local_path: found.1,
                    })
                },
                RefreshPhase::UpdateArtworks(i) => {
                    &&& a is UpdateArtworks
                    &&& a->UpdateArtworks_game_id == self.keys()[i as int]
                    &&& a->UpdateArtworks_paths@ == matched(
                        self.records()[i as int].artworks@,
                        self.artwork_paths(),
                    )
                },
                RefreshPhase::Done => a == RefreshAction::Finished(Ok(())),
                RefreshPhase::Failed(stage) => a == RefreshAction::Finished(Err(stage)),
            },
    {
        match self.phase {
            RefreshPhase::FetchOwned => RefreshAction::FetchOwned,
            RefreshPhase::Resolve => RefreshAction::Resolve(self.owned.clone()),
            RefreshPhase::CleanStore => RefreshAction::CleanStore,
            RefreshPhase::ClearAssets => RefreshAction::ClearAssets,
            RefreshPhase::Insert(i) => RefreshAction::Insert(i),
            RefreshPhase::DownloadCovers => RefreshAction::DownloadCovers(
                collect_cover_ids(&self.records),
            ),
            RefreshPhase::DownloadArtworks => RefreshAction::DownloadArtworks(
                collect_artwork_ids(&self.records),
            ),
            RefreshPhase::UpdateCover(i) => match cover_update(&self.records[i], &self.cover_paths) {
                Some((cover_id, local_path)) => RefreshAction::UpdateCover {
                    game_id: self.keys[i],
                    cover_id,
                    local_path,
                },
                None => RefreshAction::Finished(Ok(())),
            },
            RefreshPhase::UpdateArtworks(i) => RefreshAction::UpdateArtworks {
                game_id: self.keys[i],
                paths: artwork_updates(&self.records[i], &self.artwork_paths),
            },
            RefreshPhase::Done => RefreshAction::Finished(Ok(())),
            RefreshPhase::Failed(stage) => RefreshAction::Finished(Err(stage)),
        }
    }

    fn seek_update(&self, from: usize) -> (p: RefreshPhase)
        requires
            self.keys().len() == self.records().len(),
        ensures
            p == first_update(
                self.records(),
                self.cover_paths(),
                self.artwork_paths(),
                from as int,
            ),
            match p {
                RefreshPhase::UpdateCover(i) => i < self.records().len() && cover_match(
                    self.records()[i as int],
                    self.cover_paths(),
                ) is Some,
                RefreshPhase::UpdateArtworks(i) => i < self.records().len() && matched(
                    self.records()[i as int].artworks@,
                    self.artwork_paths(),
                ).len() > 0,
                _ => p is Done,
            },
    {
        let mut i: usize = from;
        while i < self.records.len()
            invariant
                from <= i,
                first_update(
                    self.records(),
                    self.cover_paths(),
                    self.artwork_paths(),
                    from as int,
                ) == first_update(
                    self.records(),
                    self.cover_paths(),
                    self.artwork_paths(),
                    i as int,
                ),
            decreases self.records.len() - i,
        {
            if cover_update(&self.records[i], &self.cover_paths).is_some() {
                return RefreshPhase::UpdateCover(i);
            }
            if artwork_updates(&self.records[i], &self.artwork_paths).len() > 0 {
                return RefreshPhase::UpdateArtworks(i);
            }
            i += 1;
        }
        RefreshPhase::Done
    }

    /// Whether `next` is the refresh that `self` becomes when `event` comes.
    ///
    /// Listing, resolving, emptying and inserting follow one another, and a
    /// failure of one of them ends the refresh. The two downloads and the
    /// updates that follow never end it: a download that reports nothing
    /// leaves the mirror without images, and an update that fails is passed
    /// over.
    pub open spec fn advances_to(&self, event: RefreshEvent, next: &Refresh) -> bool {
        let same_lists = next.owned() == self.owned() && next.records() == self.records()
            && next.keys() == self.keys();
        let same_paths = next.cover_paths() == self.cover_paths() && next.artwork_paths()
            == self.artwork_paths();
        match self.phase() {
            RefreshPhase::FetchOwned => match event {
                RefreshEvent::Owned(games) => {
                    &&& next.phase() == RefreshPhase::Resolve
                    &&& next.owned() == app_ids(games@)
                    &&& next.records() == self.records()
                    &&& next.keys() == self.keys()
                    &&& same_paths
                },
                _ => next.phase() == RefreshPhase::Failed(RefreshStage::Storefront) && same_lists
                    && same_paths,
            },
            RefreshPhase::Resolve => match event {
                RefreshEvent::Resolved(records) => {
                    &&& next.phase() == RefreshPhase::CleanStore
                    &&& next.records() == records@
                    &&& next.owned() == self.owned()
                    &&& next.keys() == Seq::<i64>::empty()
                    &&& same_paths
                },
                _ => next.phase() == RefreshPhase::Failed(RefreshStage::Catalog) && same_lists
                    && same_paths,
            },
            RefreshPhase::CleanStore => {
                &&& same_lists
                &&& same_paths
                &&& next.phase() == (if event is Failed {
                    RefreshPhase::Failed(RefreshStage::Store)
                } else {
                    RefreshPhase::ClearAssets
                })
            },
            RefreshPhase::ClearAssets => {
                &&& same_lists
                &&& same_paths
                &&& next.phase() == (if event is Failed {
                    RefreshPhase::Failed(RefreshStage::Assets)
                } else {
                    insert_from(self.records(), 0)
                })
            },
            RefreshPhase::Insert(i) => match event {
                RefreshEvent::Inserted(key) => {
                    &&& next.phase() == insert_from(self.records(), i + 1)
                    &&& next.keys() == self.keys().push(key)
                    &&& next.owned() == self.owned()
                    &&& next.records() == self.records()
                    &&& same_paths
                },
                _ => next.phase() == RefreshPhase::Failed(RefreshStage::Store) && same_lists
                    && same_paths,
            },
            RefreshPhase::DownloadCovers => {
                &&& same_lists
                &&& next.phase() == RefreshPhase::DownloadArtworks
                &&& next.cover_paths() == downloaded(event)
                &&& next.artwork_paths() == self.artwork_paths()
            },
            RefreshPhase::DownloadArtworks => {
                &&& same_lists
                &&& next.cover_paths() == self.cover_paths()
                &&& next.artwork_paths() == downloaded(event)
                &&& next.phase() == first_update(
                    self.records(),
                    self.cover_paths(),
                    downloaded(event),
                    0,
                )
            },
            RefreshPhase::UpdateCover(i) => {
                &&& same_lists
                &&& same_paths
                &&& next.phase() == (if matched(
                    self.records()[i as int].artworks@,
                    self.artwork_paths(),
                ).len() > 0 {
                    RefreshPhase::UpdateArtworks(i)
                } else {
                    first_update(self.records(), self.cover_paths(), self.artwork_paths(), i + 1)
                })
            },
            RefreshPhase::UpdateArtworks(i) => {
                &&& same_lists
                &&& same_paths
                &&& next.phase() == first_update(
                    self.records(),
                    self.cover_paths(),
                    self.artwork_paths(),
                    i + 1,
                )
            },
            _ => next.phase() == self.phase() && same_lists && same_paths,
        }
    }

    /// Takes in what happened to the last action.
    pub fn advance(&mut self, event: RefreshEvent)
        requires
            old(self).wf(),
        ensures
            final(self).wf(),
            old(self).advances_to(event, final(self)),
    {
        assert(self.records@.len() == self.records.len());
        match self.phase {
            RefreshPhase::FetchOwned => match event {
                RefreshEvent::Owned(games) => {
                    self.owned = owned_ids(&games);
                    self.phase = RefreshPhase::Resolve;
                },
                _ => {
                    self.phase = RefreshPhase::Failed(RefreshStage::Storefront);
                },
            },
            RefreshPhase::Resolve => match event {
                RefreshEvent::Resolved(records) => {
                    self.records = records;
                    self.keys = Vec::new();
                    self.phase = RefreshPhase::CleanStore;
                },
                _ => {
                    self.phase = RefreshPhase::Failed(RefreshStage::Catalog);
                },
            },
            RefreshPhase::CleanStore => match event {
                RefreshEvent::Failed => {
                    self.phase = RefreshPhase::Failed(RefreshStage::Store);
                },
                _ => {
                    self.phase = RefreshPhase::ClearAssets;
                },
            },
            RefreshPhase::ClearAssets => match event {
                RefreshEvent::Failed => {
                    self.phase = RefreshPhase::Failed(RefreshStage::Assets);
                },
                _ => {
                    if self.records.len() > 0 {
                        self.phase = RefreshPhase::Insert(0);
                    } else {
                        self.phase = RefreshPhase::DownloadCovers;
                    }
                },
            },
            RefreshPhase::Insert(i) => match event {
                RefreshEvent::Inserted(key) => {
                    self.keys.push(key);
                    if i + 1 < self.records.len() {
                        self.phase = RefreshPhase::Insert(i + 1);
                    } else {
                        self.phase = RefreshPhase::DownloadCovers;
                    }
                },
                _ => {
                    self.phase = RefreshPhase::Failed(RefreshStage::Store);
                },
            },
            RefreshPhase::DownloadCovers => {
                match event {
                    RefreshEvent::Downloaded(paths) => {
                        self.cover_paths = paths;
                    },
                    _ => {
                        self.cover_paths = Vec::new();
                    },
                }
                self.phase = RefreshPhase::DownloadArtworks;
            },
            RefreshPhase::DownloadArtworks => {
                match event {
                    RefreshEvent::Downloaded(paths) => {
                        self.artwork_paths = paths;
                    },
                    _ => {
                        self.artwork_paths = Vec::new();
                    },
                }
                self.phase = RefreshPhase::Done;
                self.phase = self.seek_update(0);
            },
            RefreshPhase::UpdateCover(i) => {
                if artwork_updates(&self.records[i], &self.artwork_paths).len() > 0 {
                    self.phase = RefreshPhase::UpdateArtworks(i);
                } else {
                    self.phase = self.seek_update(i + 1);
                }
            },
            RefreshPhase::UpdateArtworks(i) => {
                self.phase = self.seek_update(i + 1);
            },
            RefreshPhase::Done => {},
            RefreshPhase::Failed(_) => {},
        }
    }
}

/// The two downloads and the updates never end a refresh as failed, whatever
/// happens to them.
pub proof fn lemma_downloads_never_abort(before: Refresh, event: RefreshEvent, after: Refresh)
    requires
        before.advances_to(event, &after),
        before.phase() is DownloadCovers || before.phase() is DownloadArtworks || before.phase()
            is UpdateCover || before.phase() is UpdateArtworks,
    ensures
        !(after.phase() is Failed),
{
    lemma_first_update_is_no_failure(
        before.records(),
        before.cover_paths(),
        before.artwork_paths(),
        0,
    );
    lemma_first_update_is_no_failure(
        before.records(),
        before.cover_paths(),
        downloaded(event),
        0,
    );
    match before.phase() {
        RefreshPhase::UpdateCover(i) => {
            lemma_first_update_is_no_failure(
                before.records(),
                before.cover_paths(),
                before.artwork_paths(),
                i + 1,
            );
        },
        RefreshPhase::UpdateArtworks(i) => {
            lemma_first_update_is_no_failure(
                before.records(),
                before.cover_paths(),
                before.artwork_paths(),
                i + 1,
            );
        },
        _ => {},
    }
}

/// The first update is an update, or the end of the refresh.
pub proof fn lemma_first_update_is_no_failure(
    records: Seq<IgdbGame>,
    cover_paths: Seq<(String, String)>,
    artwork_paths: Seq<(String, String)>,
    from: int,
)
    ensures
        first_update(records, cover_paths, artwork_paths, from) is UpdateCover || first_update(
            records,
            cover_paths,
            artwork_paths,
            from,
        ) is UpdateArtworks || first_update(records, cover_paths, artwork_paths, from) is Done,
    decreases records.len() - from,
{
    if 0 <= from < records.len() {
        lemma_first_update_is_no_failure(records, cover_paths, artwork_paths, from + 1);
    }
}

/// A failure of listing, resolving, emptying or inserting ends the refresh:
/// nothing is inserted into a store that was not emptied, and nothing is
/// mirrored or updated after a record could not be inserted.
pub proof fn lemma_early_failure_aborts(before: Refresh, after: Refresh)
    requires
        before.advances_to(RefreshEvent::Failed, &after),
        before.phase() is FetchOwned || before.phase() is Resolve || before.phase() is CleanStore
            || before.phase() is ClearAssets || before.phase() is Insert,
    ensures
        after.phase() is Failed,
{
}

} // verus!
