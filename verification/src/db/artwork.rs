//! The artworks of the games in the store.

use vstd::prelude::*;

use crate::db::{
    bind_views, insert_rows, insert_rows_text, paired_binds, plain, text_binds, Bind, BindView, Statement,
    StatementView,
};
use crate::text::texts;

verus! {

pub const SQL_DELETE: &'static str = "delete from artworks";

pub const SQL_ALL: &'static str = "select * from artworks";

pub const SQL_INSERT: &'static str = "insert into artworks (game_id, artwork_id) values ( ?1, ?2)";

pub const SQL_OF_GAME: &'static str = "select * from artworks where game_id = ?";

pub const SQL_INSERT_MANY: &'static str = "insert into artworks (game_id, artwork_id) ";

pub const SQL_SET_PATH: &'static str =
    "update artworks set local_path = ? where game_id = ? and artwork_id = ?";

/// One row of the table of artworks.
#[derive(Debug, PartialEq, Eq)]
pub struct ArtworkRow {
    pub id: i64,
    pub game_id: i64,
    pub artwork_id: String,
}

/// Access to the artworks of the store.
#[derive(Debug)]
pub struct ArtworkRepository {}

/// The statement that stores the place `path` of the artwork `id` of the game
/// `game_id`.
pub open spec fn set_path(game_id: i64, id: Seq<char>, path: Seq<char>) -> StatementView {
    StatementView {
        sql: SQL_SET_PATH@,
        binds: seq![BindView::Text(path), BindView::Int(game_id), BindView::Text(id)],
        returns_key: false,
    }
}

impl ArtworkRepository {
    /// The statement that removes every artwork.
    pub fn delete_artworks() -> (s: Statement)
        ensures
            s@ == plain(SQL_DELETE@),
    {
        Statement::new(SQL_DELETE, false)
    }

    /// The statement that reads every artwork.
    pub fn get_artworks() -> (s: Statement)
        ensures
            s@ == plain(SQL_ALL@),
    {
        Statement::new(SQL_ALL, false)
    }

    /// The statement that links the artwork `artwork_id` to the game
    /// `game_id`; the key of the link is the row id of the insert.
    pub fn insert_artwork(game_id: i64, artwork_id: String) -> (s: Statement)
        ensures
            s@ == (StatementView {
                sql: SQL_INSERT@,
                binds: seq![BindView::Int(game_id), BindView::Text(artwork_id@)],
                returns_key: false,
            }),
    {
        Statement::with_two(SQL_INSERT, Bind::Int(game_id), Bind::Text(artwork_id), false)
    }

    /// The statement that links the artworks `artworks_ids` to the game
    /// `game_id`, one row for each.
    pub fn bulk_insert_artworks(game_id: i64, artworks_ids: &Vec<String>) -> (s: Statement)
        ensures
            s@ == (StatementView {
                sql: insert_rows_text(SQL_INSERT_MANY@, artworks_ids@.len(), 2, Seq::empty()),
                binds: paired_binds(BindView::Int(game_id), text_binds(texts(artworks_ids@))),
                returns_key: false,
            }),
    {
        let mut binds: Vec<Bind> = Vec::new();
        let mut i: usize = 0;
        let ghost all = text_binds(texts(artworks_ids@));
        assert(all.take(0) =~= Seq::empty());
        assert(bind_views(binds@) =~= Seq::empty());
        while i < artworks_ids.len()
            invariant
                i <= artworks_ids.len(),
                all == text_binds(texts(artworks_ids@)),
                bind_views(binds@) == paired_binds(
                    BindView::Int(game_id),
                    all.take(i as int),
                ),
            decreases artworks_ids.len() - i,
        {
            let ghost before = binds@;
            binds.push(Bind::Int(game_id));
            binds.push(Bind::text(&artworks_ids[i]));
            proof {
                assert(all.take(i + 1).drop_last() =~= all.take(i as int));
                assert(all.take(i + 1).last() == BindView::Text(artworks_ids@[i as int]@));
                assert(bind_views(binds@) =~= bind_views(before).push(
                    BindView::Int(game_id),
                ).push(BindView::Text(artworks_ids@[i as int]@)));
            }
            i += 1;
        }
        assert(all.take(i as int) =~= all);
        let sql = insert_rows(SQL_INSERT_MANY, artworks_ids.len(), 2, "");
        proof {
            reveal_strlit("");
            assert(""@ =~= Seq::<char>::empty());
        }
        Statement { sql, binds, returns_key: false }
    }

    /// The statement that reads the artworks of the game `game_id`.
    pub fn get_game_artworks(game_id: i64) -> (s: Statement)
        ensures
            s@ == (StatementView {
                sql: SQL_OF_GAME@,
                binds: seq![BindView::Int(game_id)],
                returns_key: false,
            }),
    {
        Statement::with_one(SQL_OF_GAME, Bind::Int(game_id))
    }

    /// The statements that store the places of artworks of the game
    /// `game_id`: one for each pair of an artwork id and its place.
    pub fn update_artwork_paths(game_id: i64, paths: &Vec<(String, String)>) -> (r: Vec<Statement>)
        ensures
            r@.len() == paths@.len(),
            forall|i: int|
                0 <= i < paths@.len() ==> (#[trigger] r@[i])@ == set_path(
                    game_id,
                    paths@[i].0@,
                    paths@[i].1@,
                ),
    {
        let mut r: Vec<Statement> = Vec::new();
        let mut i: usize = 0;
        while i < paths.len()
            invariant
                i <= paths.len(),
                r@.len() == i,
                forall|k: int|
                    0 <= k < i ==> (#[trigger] r@[k])@ == set_path(
                        game_id,
                        paths@[k].0@,
                        paths@[k].1@,
                    ),
            decreases paths.len() - i,
        {
            let s = Statement::new(SQL_SET_PATH, false).bind(Bind::text(&paths[i].1)).bind(
                Bind::Int(game_id),
            ).bind(Bind::text(&paths[i].0));
            assert(s@.binds =~= seq![
                BindView::Text(paths@[i as int].1@),
                BindView::Int(game_id),
                BindView::Text(paths@[i as int].0@),
            ]);
            r.push(s);
            i += 1;
        }
        r
    }
}

} // verus!
