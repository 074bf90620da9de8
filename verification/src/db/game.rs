//! Games in the store: the transactional insert of one resolved record, and
//! the read path that turns an aggregated row into a [`Game`].

use vstd::prelude::*;

use crate::db::{int_or_null, text_or_null, Bind, BindView, Statement, StatementView};
use crate::igdb::IgdbGame;
use crate::text::{opt_text, opt_texts, texts};
use vstd::string::StringExecFns;

verus! {

pub const SQL_INSERT_GAME: &'static str =
    "insert into games (name, summary, release_date) values ( ?, ?, ?) returning id";

pub const SQL_INSERT_STORE: &'static str = "INSERT INTO games_store (game_id, store_id) VALUES (?, ?)";

pub const SQL_INSERT_COVER: &'static str = "INSERT INTO covers (game_id, cover_id) VALUES (?, ?)";

pub const SQL_INSERT_ARTWORK: &'static str =
    "INSERT INTO artworks (game_id, artwork_id) VALUES (?, ?)";

pub const SQL_UPSERT_GENRE: &'static str =
    "INSERT INTO genres (name) VALUES (?) ON CONFLICT(name) DO update set name = name returning id";

pub const SQL_LINK_GENRE: &'static str = "INSERT INTO belongs_to (game_id, genre_id) VALUES (?, ?)";

pub const SQL_UPSERT_COMPANY: &'static str =
    "INSERT INTO companies (igdb_id, name) VALUES (?, ?) ON CONFLICT(igdb_id) DO UPDATE SET igdb_id = igdb_id RETURNING id";

pub const SQL_LINK_DEVELOPER: &'static str =
    "INSERT INTO developed_by (game_id, studio_id) VALUES (?, ?)";

/// Where the insert of one record stands.
///
/// The steps run in the order of the variants. A step that the record has
/// nothing for (no store id, no cover, an empty list) is passed over.
#[derive(Clone, Copy, Debug, PartialEq, Eq, Structural)]
pub enum InsertPhase {
    /// The transaction is to be opened.
    Begin,
    /// The game's own row is to be written; its key comes back.
    Game,
    /// The link to the storefront id is to be written.
    Store,
    /// The link to the cover is to be written.
    Cover,
    /// The link to the artwork with this index is to be written.
    Artwork(usize),
    /// The genre with this index is to be written, or found; its key comes back.
    GenreUpsert(usize),
    /// The link to the genre with this index is to be written.
    GenreLink(usize),
    /// The developer with this index is to be written, or found; its key comes back.
    CompanyUpsert(usize),
    /// The link to the developer with this index is to be written.
    CompanyLink(usize),
    /// Every row is written; the transaction is to be committed.
    Commit,
    /// A step failed; the transaction is to be rolled back.
    Rollback,
    /// The record is committed.
    Done,
    /// The record is not in the store.
    Failed,
}

/// What the store answered to the last action.
#[derive(Clone, Copy, Debug, PartialEq, Eq, Structural)]
pub enum Outcome {
    /// The action succeeded and returned no key.
    Done,
    /// The action succeeded and returned this key.
    Key(i64),
    /// The action failed.
    Failed,
}

/// What is to be done next for the insert of one record.
#[derive(Debug, PartialEq, Eq)]
pub enum InsertAction {
    /// Open a transaction.
    Begin,
    /// Execute the statement inside the transaction.
    Execute(Statement),
    /// Commit the transaction.
    Commit,
    /// Roll the transaction back.
    Rollback,
    /// Nothing more: the record is stored under this key, or it is not stored.
    Finished(Option<i64>),
}

/// What an [`InsertAction`] stands for.
pub enum InsertActionView {
    Begin,
    Execute(StatementView),
    Commit,
    Rollback,
    Finished(Option<i64>),
}

impl View for InsertAction {
    type V = InsertActionView;

    open spec fn view(&self) -> InsertActionView {
        match self {
            InsertAction::Begin => InsertActionView::Begin,
            InsertAction::Execute(s) => InsertActionView::Execute(s@),
            InsertAction::Commit => InsertActionView::Commit,
            InsertAction::Rollback => InsertActionView::Rollback,
            InsertAction::Finished(k) => InsertActionView::Finished(*k),
        }
    }
}

/// The first step at or after the store link that `game` has something for.
pub open spec fn seek_store(game: IgdbGame) -> InsertPhase {
    if game.store_id is Some {
        InsertPhase::Store
    } else {
        seek_cover(game)
    }
}

/// The first step at or after the cover link that `game` has something for.
pub open spec fn seek_cover(game: IgdbGame) -> InsertPhase {
    if game.cover is Some {
        InsertPhase::Cover
    } else {
        seek_artwork(game, 0)
    }
}

/// The first step at or after the link of artwork `i` that `game` has something for.
pub open spec fn seek_artwork(game: IgdbGame, i: int) -> InsertPhase {
    if 0 <= i < game.artworks@.len() {
        InsertPhase::Artwork(i as usize)
    } else {
        seek_genre(game, 0)
    }
}

/// The first step at or after genre `i` that `game` has something for.
pub open spec fn seek_genre(game: IgdbGame, i: int) -> InsertPhase {
    if 0 <= i < game.genres@.len() {
        InsertPhase::GenreUpsert(i as usize)
    } else {
        seek_company(game, 0)
    }
}

/// The first step at or after developer `i` that `game` has something for.
pub open spec fn seek_company(game: IgdbGame, i: int) -> InsertPhase {
    if 0 <= i < game.developers@.len() {
        InsertPhase::CompanyUpsert(i as usize)
    } else {
        InsertPhase::Commit
    }
}

/// The step that follows `phase` when `phase` succeeded.
pub open spec fn phase_after(game: IgdbGame, phase: InsertPhase) -> InsertPhase {
    match phase {
        InsertPhase::Begin => InsertPhase::Game,
        InsertPhase::Game => seek_store(game),
        InsertPhase::Store => seek_cover(game),
        InsertPhase::Cover => seek_artwork(game, 0),
        InsertPhase::Artwork(i) => seek_artwork(game, i + 1),
        InsertPhase::GenreUpsert(i) => InsertPhase::GenreLink(i),
        InsertPhase::GenreLink(i) => seek_genre(game, i + 1),
        InsertPhase::CompanyUpsert(i) => InsertPhase::CompanyLink(i),
        InsertPhase::CompanyLink(i) => seek_company(game, i + 1),
        InsertPhase::Commit => InsertPhase::Done,
        InsertPhase::Rollback => InsertPhase::Failed,
        InsertPhase::Done => InsertPhase::Done,
        InsertPhase::Failed => InsertPhase::Failed,
    }
}

/// Whether the action of `phase` returns a key.
pub open spec fn returns_key(phase: InsertPhase) -> bool {
    phase is Game || phase is GenreUpsert || phase is CompanyUpsert
}

/// Whether `phase` has something of `game` to write.
pub open spec fn phase_fits(game: IgdbGame, phase: InsertPhase) -> bool {
    match phase {
        InsertPhase::Store => game.store_id is Some,
        InsertPhase::Cover => game.cover is Some,
        InsertPhase::Artwork(i) => i < game.artworks@.len(),
        InsertPhase::GenreUpsert(i) => i < game.genres@.len(),
        InsertPhase::GenreLink(i) => i < game.genres@.len(),
        InsertPhase::CompanyUpsert(i) => i < game.developers@.len(),
        InsertPhase::CompanyLink(i) => i < game.developers@.len(),
        _ => true,
    }
}

/// The statement with this text and these two binds.
pub open spec fn statement2(sql: Seq<char>, a: BindView, b: BindView) -> StatementView {
    StatementView { sql, binds: seq![a, b], returns_key: false }
}

/// The action of `phase`, for a game stored under `game_id`, when the last
/// key that came back is `key`.
pub open spec fn action_of(
    game: IgdbGame,
    phase: InsertPhase,
    game_id: i64,
    key: i64,
) -> InsertActionView
    recommends
        phase_fits(game, phase),
{
    match phase {
        InsertPhase::Begin => InsertActionView::Begin,
        InsertPhase::Game => InsertActionView::Execute(
            StatementView {
                sql: SQL_INSERT_GAME@,
                binds: seq![
                    BindView::Text(game.name@),
                    text_or_null(game.summary),
                    int_or_null(game.release_date),
                ],
                returns_key: true,
            },
        ),
        InsertPhase::Store => InsertActionView::Execute(
            statement2(SQL_INSERT_STORE@, BindView::Int(game_id), text_or_null(game.store_id)),
        ),
        InsertPhase::Cover => InsertActionView::Execute(
            statement2(
                SQL_INSERT_COVER@,
                BindView::Int(game_id),
                BindView::Text(game.cover->0.image_id@),
            ),
        ),
        InsertPhase::Artwork(i) => InsertActionView::Execute(
            statement2(
                SQL_INSERT_ARTWORK@,
                BindView::Int(game_id),
                BindView::Text(game.artworks@[i as int].image_id@),
            ),
        ),
        InsertPhase::GenreUpsert(i) => InsertActionView::Execute(
            StatementView {
                sql: SQL_UPSERT_GENRE@,
                binds: seq![BindView::Text(game.genres@[i as int].name@)],
                returns_key: true,
            },
        ),
        InsertPhase::GenreLink(i) => InsertActionView::Execute(
            statement2(SQL_LINK_GENRE@, BindView::Int(game_id), BindView::Int(key)),
        ),
        InsertPhase::CompanyUpsert(i) => InsertActionView::Execute(
            StatementView {
                sql: SQL_UPSERT_COMPANY@,
                binds: seq![
                    BindView::Int(game.developers@[i as int].id),
                    BindView::Text(game.developers@[i as int].name@),
                ],
                returns_key: true,
            },
        ),
        InsertPhase::CompanyLink(i) => InsertActionView::Execute(
            statement2(SQL_LINK_DEVELOPER@, BindView::Int(game_id), BindView::Int(key)),
        ),
        InsertPhase::Commit => InsertActionView::Commit,
        InsertPhase::Rollback => InsertActionView::Rollback,
        InsertPhase::Done => InsertActionView::Finished(Some(game_id)),
        InsertPhase::Failed => InsertActionView::Finished(None),
    }
}

/// Whether `outcome` is a success for `phase`: not a failure, and with a key
/// where the action of `phase` returns one.
pub open spec fn succeeded(phase: InsertPhase, outcome: Outcome) -> bool {
    if returns_key(phase) {
        outcome is Key
    } else {
        !(outcome is Failed)
    }
}

/// The step that follows `phase` when the store answered `outcome`.
///
/// A failure leads to a rollback, except where no transaction is open: when
/// opening it failed, and when the commit failed.
pub open spec fn phase_next(game: IgdbGame, phase: InsertPhase, outcome: Outcome) -> InsertPhase {
    match phase {
        InsertPhase::Done => InsertPhase::Done,
        InsertPhase::Failed => InsertPhase::Failed,
        InsertPhase::Rollback => InsertPhase::Failed,
        _ => if succeeded(phase, outcome) {
            phase_after(game, phase)
        } else if phase is Begin || phase is Commit {
            InsertPhase::Failed
        } else {
            InsertPhase::Rollback
        },
    }
}


/// The step in which the insert of `game` stands after the store answered
/// `outcomes`, one after the other, from `phase` on.
pub open spec fn phase_run(game: IgdbGame, phase: InsertPhase, outcomes: Seq<Outcome>) -> InsertPhase
    decreases outcomes.len(),
{
    if outcomes.len() == 0 {
        phase
    } else {
        phase_run(game, phase_next(game, phase, outcomes.first()), outcomes.drop_first())
    }
}

/// The number of steps of the insert of `game`, from opening the transaction
/// to committing it.
pub open spec fn script_len(game: IgdbGame) -> int {
    3 + (if game.store_id is Some { 1int } else { 0 }) + (if game.cover is Some { 1int } else { 0 })
        + game.artworks@.len() + 2 * game.genres@.len() + 2 * game.developers@.len()
}

/// The `k`-th step of the insert of `game` when nothing fails: the
/// transaction is opened; the game's row is written; then its store link and
/// its cover link, where it has them; then one link for each artwork; then,
/// for each genre, the genre and its link; then, for each developer, the
/// company and its link; then the commit.
pub open spec fn script_at(game: IgdbGame, k: int) -> InsertPhase {
    let store = if game.store_id is Some { 1int } else { 0 };
    let cover = if game.cover is Some { 1int } else { 0 };
    let artworks = 2 + store + cover;
    let genres = artworks + game.artworks@.len();
    let companies = genres + 2 * game.genres@.len();
    let commit = companies + 2 * game.developers@.len();
    if k <= 0 {
        InsertPhase::Begin
    } else if k == 1 {
        InsertPhase::Game
    } else if k < 2 + store {
        InsertPhase::Store
    } else if k < artworks {
        InsertPhase::Cover
    } else if k < genres {
        InsertPhase::Artwork((k - artworks) as usize)
    } else if k < companies {
        if (k - genres) % 2 == 0 {
            InsertPhase::GenreUpsert(((k - genres) / 2) as usize)
        } else {
            InsertPhase::GenreLink(((k - genres) / 2) as usize)
        }
    } else if k < commit {
        if (k - companies) % 2 == 0 {
            InsertPhase::CompanyUpsert(((k - companies) / 2) as usize)
        } else {
            InsertPhase::CompanyLink(((k - companies) / 2) as usize)
        }
    } else {
        InsertPhase::Commit
    }
}

/// The steps of an insert come in the order of the script: the first is the
/// opening of the transaction, each step that succeeds is followed by the
/// next of the script, the last is the commit, and a commit that succeeds
/// ends the insert with the record stored.
pub proof fn lemma_steps_follow_script(game: IgdbGame, k: int)
    requires
        0 <= k < script_len(game),
    ensures
        script_at(game, 0) == InsertPhase::Begin,
        phase_fits(game, script_at(game, k)),
        k + 1 < script_len(game) ==> phase_after(game, script_at(game, k)) == script_at(game, k + 1),
        k + 1 == script_len(game) ==> script_at(game, k) == InsertPhase::Commit && phase_after(
            game,
            script_at(game, k),
        ) == InsertPhase::Done,
{
    assert(game.artworks@.len() == game.artworks.len());
    assert(game.genres@.len() == game.genres.len());
    assert(game.developers@.len() == game.developers.len());
}

/// A step that fails is never followed by the commit: it leads to the
/// rollback, or, where no transaction is open, straight to the failed end.
pub proof fn lemma_failed_step_rolls_back(game: IgdbGame, phase: InsertPhase, outcome: Outcome)
    requires
        !succeeded(phase, outcome),
        !(phase is Done),
    ensures
        phase_next(game, phase, outcome) is Rollback || phase_next(game, phase, outcome) is Failed,
        phase_next(game, phase, outcome) is Rollback ==> !(phase is Begin) && !(phase is Commit),
{
}

/// Once a step has failed, whatever the store answers afterwards, the insert
/// never commits and never ends with the record stored: after the rollback
/// it stays failed.
pub proof fn lemma_failure_is_final(game: IgdbGame, phase: InsertPhase, outcomes: Seq<Outcome>)
    requires
        phase is Rollback || phase is Failed,
    ensures
        phase_run(game, phase, outcomes) is Rollback || phase_run(game, phase, outcomes) is Failed,
        outcomes.len() > 0 ==> phase_run(game, phase, outcomes) is Failed,
    decreases outcomes.len(),
{
    if outcomes.len() > 0 {
        lemma_failure_is_final(
            game,
            phase_next(game, phase, outcomes.first()),
            outcomes.drop_first(),
        );
    }
}

/// The insert ends with the record stored only through a commit that
/// succeeded.
pub proof fn lemma_done_only_after_commit(game: IgdbGame, phase: InsertPhase, outcome: Outcome)
    requires
        phase_next(game, phase, outcome) is Done,
        !(phase is Done),
    ensures
        phase is Commit,
        !(outcome is Failed),
{
}

/// The transactional insert of one record, step by step.
///
/// The caller asks for the [`action`](InsertCursor::action), performs it, and
/// reports the outcome with [`advance`](InsertCursor::advance), until the
/// action is [`InsertAction::Finished`].
#[derive(Debug)]
pub struct InsertCursor<'a> {
    game: &'a IgdbGame,
    phase: InsertPhase,
    game_id: i64,
    key: i64,
}

impl<'a> InsertCursor<'a> {
    /// The record that is being inserted.
    pub closed spec fn game(&self) -> IgdbGame {
        *self.game
    }

    /// The step that is to be done next.
    pub closed spec fn phase(&self) -> InsertPhase {
        self.phase
    }

    /// The key of the game's row, once it is written.
    pub closed spec fn game_id(&self) -> i64 {
        self.game_id
    }

    /// The key that the last upsert returned.
    pub closed spec fn key(&self) -> i64 {
        self.key
    }

    /// The step fits the record: an index is inside its list, an optional
    /// value is there.
    pub open spec fn wf(&self) -> bool {
        phase_fits(self.game(), self.phase())
    }

    /// The insert of `game`, before its first step.
    pub fn new(game: &'a IgdbGame) -> (c: InsertCursor<'a>)
        ensures
            c.wf(),
            c.game() == *game,
            c.phase() == InsertPhase::Begin,
            c.game_id() == 0,
            c.key() == 0,
    {
        InsertCursor { game, phase: InsertPhase::Begin, game_id: 0, key: 0 }
    }

    /// The step that is to be done next.
    pub fn current_phase(&self) -> (p: InsertPhase)
        ensures
            p == self.phase(),
    {
        self.phase
    }

    fn link(&self, sql: &str, second: Bind) -> (a: InsertAction)
        ensures
            a@ == InsertActionView::Execute(
                statement2(sql@, BindView::Int(self.game_id()), second@),
            ),
    {
        let s = Statement::new(sql, false).bind(Bind::Int(self.game_id)).bind(second);
        assert(s@.binds =~= seq![BindView::Int(self.game_id), second@]);
        InsertAction::Execute(s)
    }

    /// What the caller is to do next.
    pub fn action(&self) -> (a: InsertAction)
        requires
            self.wf(),
        ensures
            a@ == action_of(self.game(), self.phase(), self.game_id(), self.key()),
    {
        match self.phase {
            InsertPhase::Begin => InsertAction::Begin,
            InsertPhase::Game => {
                let s = Statement::new(SQL_INSERT_GAME, true).bind(Bind::text(&self.game.name)).bind(
                    Bind::optional_text(&self.game.summary),
                ).bind(Bind::optional_int(self.game.release_date));
                assert(s@.binds =~= seq![
                    BindView::Text(self.game.name@),
                    text_or_null(self.game.summary),
                    int_or_null(self.game.release_date),
                ]);
                InsertAction::Execute(s)
            },
            InsertPhase::Store => self.link(
                SQL_INSERT_STORE,
                Bind::optional_text(&self.game.store_id),
            ),
            InsertPhase::Cover => match &self.game.cover {
                Some(cover) => self.link(SQL_INSERT_COVER, Bind::text(&cover.image_id)),
                None => InsertAction::Finished(None),
            },
            InsertPhase::Artwork(i) => self.link(
                SQL_INSERT_ARTWORK,
                Bind::text(&self.game.artworks[i].image_id),
            ),
            InsertPhase::GenreUpsert(i) => {
                let s = Statement::new(SQL_UPSERT_GENRE, true).bind(
                    Bind::text(&self.game.genres[i].name),
                );
                assert(s@.binds =~= seq![BindView::Text(self.game.genres@[i as int].name@)]);
                InsertAction::Execute(s)
            },
            InsertPhase::GenreLink(_) => self.link(SQL_LINK_GENRE, Bind::Int(self.key)),
            InsertPhase::CompanyUpsert(i) => {
                let s = Statement::new(SQL_UPSERT_COMPANY, true).bind(
                    Bind::Int(self.game.developers[i].id),
                ).bind(Bind::text(&self.game.developers[i].name));
                assert(s@.binds =~= seq![
                    BindView::Int(self.game.developers@[i as int].id),
                    BindView::Text(self.game.developers@[i as int].name@),
                ]);
                InsertAction::Execute(s)
            },
            InsertPhase::CompanyLink(_) => self.link(SQL_LINK_DEVELOPER, Bind::Int(self.key)),
            InsertPhase::Commit => InsertAction::Commit,
            InsertPhase::Rollback => InsertAction::Rollback,
            InsertPhase::Done => InsertAction::Finished(Some(self.game_id)),
            InsertPhase::Failed => InsertAction::Finished(None),
        }
    }

    fn seek_company(&self, i: usize) -> (p: InsertPhase)
        ensures
            p == seek_company(self.game(), i as int),
            phase_fits(self.game(), p),
    {
        if i < self.game.developers.len() {
            InsertPhase::CompanyUpsert(i)
        } else {
            InsertPhase::Commit
        }
    }

    fn seek_genre(&self, i: usize) -> (p: InsertPhase)
        ensures
            p == seek_genre(self.game(), i as int),
            phase_fits(self.game(), p),
    {
        if i < self.game.genres.len() {
            InsertPhase::GenreUpsert(i)
        } else {
            self.seek_company(0)
        }
    }

    fn seek_artwork(&self, i: usize) -> (p: InsertPhase)
        ensures
            p == seek_artwork(self.game(), i as int),
            phase_fits(self.game(), p),
    {
        if i < self.game.artworks.len() {
            InsertPhase::Artwork(i)
        } else {
            self.seek_genre(0)
        }
    }

    fn seek_cover(&self) -> (p: InsertPhase)
        ensures
            p == seek_cover(self.game()),
            phase_fits(self.game(), p),
    {
        if self.game.cover.is_some() {
            InsertPhase::Cover
        } else {
            self.seek_artwork(0)
        }
    }

    fn seek_store(&self) -> (p: InsertPhase)
        ensures
            p == seek_store(self.game()),
            phase_fits(self.game(), p),
    {
        if self.game.store_id.is_some() {
            InsertPhase::Store
        } else {
            self.seek_cover()
        }
    }

    fn after(&self) -> (p: InsertPhase)
        requires
            self.wf(),
        ensures
            p == phase_after(self.game(), self.phase()),
            phase_fits(self.game(), p),
    {
        assert(self.game.artworks@.len() == self.game.artworks.len());
        assert(self.game.genres@.len() == self.game.genres.len());
        assert(self.game.developers@.len() == self.game.developers.len());
        match self.phase {
            InsertPhase::Begin => InsertPhase::Game,
            InsertPhase::Game => self.seek_store(),
            InsertPhase::Store => self.seek_cover(),
            InsertPhase::Cover => self.seek_artwork(0),
            InsertPhase::Artwork(i) => self.seek_artwork(i + 1),
            InsertPhase::GenreUpsert(i) => InsertPhase::GenreLink(i),
            InsertPhase::GenreLink(i) => self.seek_genre(i + 1),
            InsertPhase::CompanyUpsert(i) => InsertPhase::CompanyLink(i),
            InsertPhase::CompanyLink(i) => self.seek_company(i + 1),
            InsertPhase::Commit => InsertPhase::Done,
            InsertPhase::Rollback => InsertPhase::Failed,
            InsertPhase::Done => InsertPhase::Done,
            InsertPhase::Failed => InsertPhase::Failed,
        }
    }

    /// Takes in what the store answered to the last action.
    ///
    /// The key that comes back from the game's own row becomes the game's
    /// key; the key from an upsert is kept for the link that follows it.
    pub fn advance(&mut self, outcome: Outcome)
        requires
            old(self).wf(),
        ensures
            final(self).wf(),
            final(self).game() == old(self).game(),
            final(self).phase() == phase_next(old(self).game(), old(self).phase(), outcome),
            final(self).game_id() == (if old(self).phase() is Game && outcome is Key {
                outcome->Key_0
            } else {
                old(self).game_id()
            }),
            final(self).key() == (if (old(self).phase() is GenreUpsert || old(self).phase()
                is CompanyUpsert) && outcome is Key {
                outcome->Key_0
            } else {
                old(self).key()
            }),
    {
        let next = self.after();
        match self.phase {
            InsertPhase::Done | InsertPhase::Failed => {},
            InsertPhase::Rollback => {
                self.phase = InsertPhase::Failed;
            },
            InsertPhase::Game => match outcome {
                Outcome::Key(k) => {
                    self.game_id = k;
                    self.phase = next;
                },
                _ => {
                    self.phase = InsertPhase::Rollback;
                },
            },
            InsertPhase::GenreUpsert(_) | InsertPhase::CompanyUpsert(_) => match outcome {
                Outcome::Key(k) => {
                    self.key = k;
                    self.phase = next;
                },
                _ => {
                    self.phase = InsertPhase::Rollback;
                },
            },
            InsertPhase::Begin | InsertPhase::Commit => match outcome {
                Outcome::Failed => {
                    self.phase = InsertPhase::Failed;
                },
                _ => {
                    self.phase = next;
                },
            },
            _ => match outcome {
                Outcome::Failed => {
                    self.phase = InsertPhase::Rollback;
                },
                _ => {
                    self.phase = next;
                },
            },
        }
    }
}


/// The query that reads games, each with its genres, developers, artworks
/// and covers gathered into JSON arrays.
pub const BASE_QUERY: &'static str =
    "
select
    games.id as id,
    games.name as name,
    games_store.store_id as store_id,
    summary, release_date,
    json_group_array(distinct genres.name) as genres,
    json_group_array(distinct companies.name) as studios,
    json_group_array(distinct artworks.artwork_id) as artworks,
    json_group_array(distinct covers.cover_id) as covers
from games
left join developed_by on games.id = developed_by.game_id
left join companies on developed_by.studio_id = companies.id
left join belongs_to on games.id = belongs_to.game_id
left join genres on belongs_to.genre_id = genres.id
left join artworks on artworks.game_id = games.id
left join covers on covers.game_id = games.id
left join games_store on games_store.game_id = games.id
";

/// The clause that narrows [`BASE_QUERY`] to one game.
pub const WHERE_ID: &'static str = " where games.id =  ?";

/// The end of every query built on [`BASE_QUERY`]: one row per game, ordered
/// by name.
pub const GROUP_ORDER: &'static str =
    "
group by games.id, games.name, games_store.store_id, games.summary, games.release_date
order by games.name
";

pub const SQL_STORE_ID: &'static str = "select store_id from games_store where game_id = $1";

/// A game as the store returns it and as the user interface receives it.
#[derive(Debug, PartialEq, Eq)]
pub struct Game {
    /// The key of the game's row.
    pub id: i64,
    pub name: String,
    pub summary: Option<String>,
    /// The storefront's id of the game.
    pub store_id: Option<String>,
    /// The image id of the cover.
    pub cover: Option<String>,
    /// Whether the game is installed. The store never knows: it is left unset
    /// for the caller to fill in.
    pub is_installed: Option<bool>,
    /// The image ids of the artworks.
    pub artworks: Option<Vec<String>>,
    /// Unix time of the first release.
    pub release_date: Option<i64>,
    pub genres: Option<Vec<String>>,
    pub developers: Option<Vec<String>>,
}

/// One row of the query built by [`GameRepository::build_query_string`].
#[derive(Debug, PartialEq, Eq)]
pub struct GameRow {
    pub id: i64,
    pub name: String,
    pub store_id: Option<String>,
    pub summary: Option<String>,
    pub release_date: Option<i64>,
    /// JSON array of the genre names.
    pub genres: Option<String>,
    /// JSON array of the developers' names.
    pub studios: Option<String>,
    /// JSON array of the artwork image ids.
    pub artworks: Option<String>,
    /// JSON array of the cover image ids.
    pub covers: Option<String>,
}

/// `serde_json::Error`, the error of a text that cannot be decoded. Nothing
/// is known of what it holds.
#[verifier::external_type_specification]
#[verifier::external_body]
pub struct ExJsonError(serde_json::Error);

/// What `serde_json::from_str` makes of `text` when it is asked for a list of
/// optional strings: the entries of the JSON array, `null` entries as `None`,
/// or nothing where `text` is not such an array.
pub uninterp spec fn json_string_array(text: Seq<char>) -> Option<Seq<Option<Seq<char>>>>;

/// The texts of a list of optional strings.
pub open spec fn opt_entries(v: Seq<Option<String>>) -> Seq<Option<Seq<char>>> {
    v.map_values(|s: Option<String>| opt_text(s))
}

/// Calls `serde_json::from_str` for a `Vec<Option<String>>`. The call
/// succeeds exactly where [`json_string_array`] has a value, and then returns
/// that value.
#[verifier::external_body]
fn decode_string_array(text: &str) -> (r: Result<Vec<Option<String>>, serde_json::Error>)
    ensures
        r is Ok <==> json_string_array(text@) is Some,
        r is Ok ==> opt_entries(r->Ok_0@) == json_string_array(text@)->0,
{
    serde_json::from_str::<Vec<Option<String>>>(text)
}

/// The entries of `items` that are there, in order.
pub open spec fn present(items: Seq<Option<Seq<char>>>) -> Seq<Seq<char>>
    decreases items.len(),
{
    if items.len() == 0 {
        Seq::empty()
    } else {
        match items.last() {
            Some(s) => present(items.drop_last()).push(s),
            None => present(items.drop_last()),
        }
    }
}

/// What [`GameRepository::parse_json_array`] returns for a column that holds
/// `json`.
pub open spec fn parsed_array(json: Option<Seq<char>>) -> Option<Seq<Seq<char>>> {
    match json {
        Some(text) => match json_string_array(text) {
            Some(items) => Some(present(items)),
            None => None,
        },
        None => None,
    }
}

/// The last entry of an optional list.
pub open spec fn last_of(v: Option<Seq<Seq<char>>>) -> Option<Seq<char>> {
    match v {
        Some(l) => if l.len() > 0 {
            Some(l.last())
        } else {
            None
        },
        None => None,
    }
}

/// Drops the `null` entries of a decoded JSON array.
pub fn present_entries(items: Vec<Option<String>>) -> (r: Vec<String>)
    ensures
        texts(r@) == present(opt_entries(items@)),
{
    let mut r: Vec<String> = Vec::new();
    let mut i: usize = 0;
    assert(opt_entries(items@).take(0) =~= Seq::empty());
    assert(texts(r@) =~= Seq::empty());
    while i < items.len()
        invariant
            i <= items.len(),
            texts(r@) == present(opt_entries(items@).take(i as int)),
        decreases items.len() - i,
    {
        proof {
            let all = opt_entries(items@);
            assert(all.take(i + 1).drop_last() =~= all.take(i as int));
            assert(all.take(i + 1).last() == opt_text(items@[i as int]));
        }
        let ghost before = r@;
        match &items[i] {
            Some(s) => {
                r.push(s.clone());
                assert(texts(r@) =~= texts(before).push(s@));
            },
            None => {},
        }
        i += 1;
    }
    assert(opt_entries(items@).take(i as int) =~= opt_entries(items@));
    r
}

/// Access to the games of the store.
#[derive(Debug)]
pub struct GameRepository {}

impl GameRepository {
    pub fn new() -> (r: GameRepository) {
        GameRepository {  }
    }

    /// The statement that reads every game, ordered by name.
    pub fn get_games(&self) -> (s: Statement)
        ensures
            s@ == (StatementView {
                sql: BASE_QUERY@ + GROUP_ORDER@,
                binds: Seq::empty(),
                returns_key: false,
            }),
    {
        let sql = Self::build_query_string(None);
        Statement::new(sql.as_str(), false)
    }

    /// The statement that reads the game with key `game_id`.
    pub fn get_game_by_id(&self, game_id: i64) -> (s: Statement)
        ensures
            s@ == (StatementView {
                sql: BASE_QUERY@ + WHERE_ID@ + GROUP_ORDER@,
                binds: seq![BindView::Int(game_id)],
                returns_key: false,
            }),
    {
        let sql = Self::build_query_string(Some(game_id));
        Statement::new(sql.as_str(), false).bind(Bind::Int(game_id))
    }

    /// The text of the query for every game, or for the one game whose key
    /// is to be bound where `game_id` is given.
    pub fn build_query_string(game_id: Option<i64>) -> (sql: String)
        ensures
            sql@ == BASE_QUERY@ + (if game_id is Some {
                WHERE_ID@
            } else {
                Seq::empty()
            }) + GROUP_ORDER@,
    {
        let mut sql = String::from_str(BASE_QUERY);
        if game_id.is_some() {
            sql.append(WHERE_ID);
        } else {
            assert(sql@ + Seq::<char>::empty() =~= sql@);
        }
        sql.append(GROUP_ORDER);
        sql
    }

    /// The game that `row` holds. Of several covers the last one is taken.
    pub fn map_game_row(row: GameRow) -> (g: Game)
        ensures
            g.id == row.id,
            g.name == row.name,
            g.summary == row.summary,
            g.store_id == row.store_id,
            g.release_date == row.release_date,
            g.is_installed is None,
            opt_texts(g.genres) == parsed_array(opt_text(row.genres)),
            opt_texts(g.developers) == parsed_array(opt_text(row.studios)),
            opt_texts(g.artworks) == parsed_array(opt_text(row.artworks)),
            opt_text(g.cover) == last_of(parsed_array(opt_text(row.covers))),
    {
        let cover = match Self::parse_json_array(row.covers) {
            Some(mut v) => {
                let ghost all = v@;
                let last = v.pop();
                assert(last is Some ==> last->0 == all.last());
                assert(texts(all).len() == all.len());
                assert(all.len() > 0 ==> texts(all).last() == all.last()@);
                last
            },
            None => None,
        };
        Game {
            id: row.id,
            release_date: row.release_date,
            name: row.name,
            developers: Self::parse_json_array(row.studios),
            genres: Self::parse_json_array(row.genres),
            is_installed: None,
            summary: row.summary,
            artworks: Self::parse_json_array(row.artworks),
            cover,
            store_id: row.store_id,
        }
    }

    /// The strings of a JSON array of strings, without its `null` entries;
    /// nothing where the column is empty or does not hold such an array.
    pub fn parse_json_array(json: Option<String>) -> (r: Option<Vec<String>>)
        ensures
            opt_texts(r) == parsed_array(opt_text(json)),
    {
        match json {
            Some(s) => match decode_string_array(s.as_str()) {
                Ok(items) => Some(present_entries(items)),
                Err(_) => None,
            },
            None => None,
        }
    }

    /// The statement that reads the storefront id of the game with key
    /// `game_id`.
    pub fn get_game_store_id(&self, game_id: i64) -> (s: Statement)
        ensures
            s@ == (StatementView {
                sql: SQL_STORE_ID@,
                binds: seq![BindView::Int(game_id)],
                returns_key: false,
            }),
    {
        Statement::new(SQL_STORE_ID, false).bind(Bind::Int(game_id))
    }

    /// The insert of `game` with everything that belongs to it, as one
    /// transaction, before its first step.
    pub fn insert_complete_game<'a>(&self, game: &'a IgdbGame) -> (c: InsertCursor<'a>)
        ensures
            c.wf(),
            c.game() == *game,
            c.phase() == InsertPhase::Begin,
            c.game_id() == 0,
            c.key() == 0,
    {
        InsertCursor::new(game)
    }
}

} // verus!
