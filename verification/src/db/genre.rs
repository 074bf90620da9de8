//! The genres of the store and their links to the games.

use vstd::prelude::*;

use crate::db::{
    bind_views, insert_rows, insert_rows_text, int_binds, paired_binds, plain, select_in, text_binds, Bind,
    BindView, Statement, StatementView,
};
use crate::text::texts;

verus! {

pub const SQL_DELETE_LINKS: &'static str = "delete from games_genres";

pub const SQL_DELETE: &'static str = "delete from genres";

pub const SQL_ALL: &'static str = "select * from genres";

pub const SQL_INSERT_MANY: &'static str = "insert into genres (name) ";

pub const SQL_KEEP_EXISTING: &'static str = "on conflict(name) do nothing";

pub const SQL_LINK_MANY: &'static str = "insert into games_genres(game_id, genre_id) ";

pub const SQL_BY_NAME: &'static str = "select * from genres where name in ";

pub const SQL_LINKS_OF_GAME: &'static str = "select * from games_genres where game_id = ?";

pub const SQL_BY_ID: &'static str = "select * from genres where id in ";

/// One row of the table of genres.
#[derive(Debug, PartialEq, Eq)]
pub struct GenreRow {
    pub id: i64,
    pub name: String,
}

/// One row of the table that links games to genres.
#[derive(Debug, PartialEq, Eq)]
pub struct GameGenreRow {
    pub id: i64,
    pub game_id: i64,
    pub genre_id: i64,
}

/// Access to the genres of the store.
#[derive(Debug)]
pub struct GenreRepository {}

/// The genres that the links `links` point to, in order.
pub open spec fn linked_genres(links: Seq<GameGenreRow>) -> Seq<i64> {
    links.map_values(|l: GameGenreRow| l.genre_id)
}

/// The keys of the genres `rows`, in order.
pub open spec fn genre_keys(rows: Seq<GenreRow>) -> Seq<i64> {
    rows.map_values(|r: GenreRow| r.id)
}

/// The names of the genres `rows`, in order.
pub open spec fn genre_names(rows: Seq<GenreRow>) -> Seq<Seq<char>> {
    rows.map_values(|r: GenreRow| r.name@)
}

impl GenreRepository {
    /// The statements that remove every genre: the links first, then the
    /// genres.
    pub fn delete_genres() -> (r: (Statement, Statement))
        ensures
            r.0@ == plain(SQL_DELETE_LINKS@),
            r.1@ == plain(SQL_DELETE@),
    {
        (Statement::new(SQL_DELETE_LINKS, false), Statement::new(SQL_DELETE, false))
    }

    /// The statement that writes the genres called `genres`, one row for
    /// each, and leaves a genre that is there as it is.
    pub fn insert_game_genres(genres: &Vec<String>) -> (s: Statement)
        ensures
            s@ == (StatementView {
                sql: insert_rows_text(SQL_INSERT_MANY@, genres@.len(), 1, SQL_KEEP_EXISTING@),
                binds: text_binds(texts(genres@)),
                returns_key: false,
            }),
    {
        Statement {
            sql: insert_rows(SQL_INSERT_MANY, genres.len(), 1, SQL_KEEP_EXISTING),
            binds: Bind::texts(genres),
            returns_key: false,
        }
    }

    /// The statement that links the genres `rows` to the game `game_id`, one
    /// row for each.
    pub fn link_game_genres(game_id: i64, rows: &Vec<GenreRow>) -> (s: Statement)
        ensures
            s@ == (StatementView {
                sql: insert_rows_text(SQL_LINK_MANY@, rows@.len(), 2, Seq::empty()),
                binds: paired_binds(BindView::Int(game_id), int_binds(genre_keys(rows@))),
                returns_key: false,
            }),
    {
        let mut binds: Vec<Bind> = Vec::new();
        let mut i: usize = 0;
        let ghost all = int_binds(genre_keys(rows@));
        assert(all.take(0) =~= Seq::empty());
        assert(bind_views(binds@) =~= Seq::empty());
        while i < rows.len()
            invariant
                i <= rows.len(),
                all == int_binds(genre_keys(rows@)),
                bind_views(binds@) == paired_binds(
                    BindView::Int(game_id),
                    all.take(i as int),
                ),
            decreases rows.len() - i,
        {
            let ghost before = binds@;
            binds.push(Bind::Int(game_id));
            binds.push(Bind::Int(rows[i].id));
            proof {
                assert(all.take(i + 1).drop_last() =~= all.take(i as int));
                assert(all.take(i + 1).last() == BindView::Int(rows@[i as int].id));
                assert(bind_views(binds@) =~= bind_views(before).push(
                    BindView::Int(game_id),
                ).push(BindView::Int(rows@[i as int].id)));
            }
            i += 1;
        }
        assert(all.take(i as int) =~= all);
        let sql = insert_rows(SQL_LINK_MANY, rows.len(), 2, "");
        proof {
            reveal_strlit("");
            assert(""@ =~= Seq::<char>::empty());
        }
        Statement { sql, binds, returns_key: false }
    }

    /// The statement that reads the genres called `genres`; every genre
    /// where `genres` names none.
    pub fn get_genres(genres: &Vec<String>) -> (s: Statement)
        ensures
            s@ == (if genres@.len() == 0 {
                plain(SQL_ALL@)
            } else {
                select_in(SQL_BY_NAME@, text_binds(texts(genres@)))
            }),
    {
        if genres.len() == 0 {
            Statement::new(SQL_ALL, false)
        } else {
            Statement::select_texts(SQL_BY_NAME, genres)
        }
    }

    /// The statement that reads the links of the game `game_id` to its
    /// genres.
    pub fn get_game_genre(game_id: i64) -> (s: Statement)
        ensures
            s@ == (StatementView {
                sql: SQL_LINKS_OF_GAME@,
                binds: seq![BindView::Int(game_id)],
                returns_key: false,
            }),
    {
        Statement::with_one(SQL_LINKS_OF_GAME, Bind::Int(game_id))
    }

    /// The statement that reads the genres that `links` point to; none where
    /// there is no link, and then the game has no genre.
    pub fn get_linked_genres(links: &Vec<GameGenreRow>) -> (s: Option<Statement>)
        ensures
            links@.len() == 0 ==> s is None,
            links@.len() > 0 ==> s is Some && s->0@ == select_in(
                SQL_BY_ID@,
                int_binds(linked_genres(links@)),
            ),
    {
        if links.len() == 0 {
            return None;
        }
        let mut ids: Vec<i64> = Vec::new();
        let mut i: usize = 0;
        while i < links.len()
            invariant
                i <= links.len(),
                ids@ == linked_genres(links@).take(i as int),
            decreases links.len() - i,
        {
            ids.push(links[i].genre_id);
            assert(ids@ =~= linked_genres(links@).take(i + 1));
            i += 1;
        }
        assert(linked_genres(links@).take(i as int) =~= linked_genres(links@));
        Some(Statement::select_ints(SQL_BY_ID, &ids))
    }

    /// The names of the genres `rows`, in order.
    pub fn names_of(rows: Vec<GenreRow>) -> (names: Vec<String>)
        ensures
            texts(names@) == genre_names(rows@),
    {
        let mut names: Vec<String> = Vec::new();
        let ghost all = rows@;
        for row in it: rows
            invariant
                it.seq() == all,
                texts(names@) == genre_names(all).take(it.index() as int),
        {
            let ghost before = names@;
            names.push(row.name);
            assert(texts(names@) =~= texts(before).push(row.name@));
            assert(genre_names(all).take(it.index() + 1) =~= genre_names(all).take(
                it.index() as int,
            ).push(row.name@));
        }
        assert(genre_names(all).take(all.len() as int) =~= genre_names(all));
        names
    }
}

} // verus!
