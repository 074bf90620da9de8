//! The covers of the games in the store.

use vstd::prelude::*;

use crate::db::{plain, Bind, BindView, Statement, StatementView};

verus! {

pub const SQL_DELETE: &'static str = "delete from covers";

pub const SQL_ALL: &'static str = "select * from covers";

pub const SQL_INSERT: &'static str = "insert into covers (game_id, cover_id) values ( ?1, ?2)";

pub const SQL_SET_PATH: &'static str =
    "update covers set local_path = ? where game_id = ? and cover_id = ?";

/// One row of the table of covers.
#[derive(Debug, PartialEq, Eq)]
pub struct CoverRow {
    pub id: i64,
    pub game_id: i64,
    pub cover_id: String,
}

/// Access to the covers of the store.
#[derive(Debug)]
pub struct CoverRepository {}

impl CoverRepository {
    /// The statement that removes every cover.
    pub fn delete_covers() -> (s: Statement)
        ensures
            s@ == plain(SQL_DELETE@),
    {
        Statement::new(SQL_DELETE, false)
    }

    /// The statement that reads every cover.
    pub fn get_covers() -> (s: Statement)
        ensures
            s@ == plain(SQL_ALL@),
    {
        Statement::new(SQL_ALL, false)
    }

    /// The statement that links the cover `cover_id` to the game `game_id`;
    /// the key of the link is the row id of the insert.
    pub fn insert_cover(game_id: i64, cover_id: String) -> (s: Statement)
        ensures
            s@ == (StatementView {
                sql: SQL_INSERT@,
                binds: seq![BindView::Int(game_id), BindView::Text(cover_id@)],
                returns_key: false,
            }),
    {
        Statement::with_two(SQL_INSERT, Bind::Int(game_id), Bind::Text(cover_id), false)
    }

    /// The statement that stores the place `local_path` of the cover
    /// `cover_id` of the game `game_id`.
    pub fn update_cover_path(game_id: i64, cover_id: &String, local_path: &String) -> (s: Statement)
        ensures
            s@ == (StatementView {
                sql: SQL_SET_PATH@,
                binds: seq![
                    BindView::Text(local_path@),
                    BindView::Int(game_id),
                    BindView::Text(cover_id@),
                ],
                returns_key: false,
            }),
    {
        let s = Statement::new(SQL_SET_PATH, false).bind(Bind::text(local_path)).bind(
            Bind::Int(game_id),
        ).bind(Bind::text(cover_id));
        assert(s@.binds =~= seq![
            BindView::Text(local_path@),
            BindView::Int(game_id),
            BindView::Text(cover_id@),
        ]);
        s
    }
}

} // verus!
