//! The storefront ids of the games in the store.

use vstd::prelude::*;

use crate::db::{plain, Bind, BindView, Statement, StatementView};

verus! {

pub const SQL_DELETE: &'static str = "delete from games_store";

pub const SQL_ALL: &'static str = "select * from games_store";

pub const SQL_INSERT: &'static str = "insert into games_store (game_id, store_id) values ( ?1, ?2)";

pub const SQL_OF_GAME: &'static str = "select * from games_store where game_id = ?";

/// One row of the table of storefront ids.
#[derive(Debug, PartialEq, Eq)]
pub struct GameStoreRow {
    pub id: i64,
    pub game_id: i64,
    pub store_id: String,
}

/// Access to the storefront ids of the store.
#[derive(Debug)]
pub struct GameStoreRepository {}

impl GameStoreRepository {
    /// The statement that removes every storefront id.
    pub fn delete_games_store() -> (s: Statement)
        ensures
            s@ == plain(SQL_DELETE@),
    {
        Statement::new(SQL_DELETE, false)
    }

    /// The statement that reads every storefront id.
    pub fn get_games_store() -> (s: Statement)
        ensures
            s@ == plain(SQL_ALL@),
    {
        Statement::new(SQL_ALL, false)
    }

    /// The statement that links the storefront id `store_id` to the game
    /// `game_id`; the key of the link is the row id of the insert.
    pub fn insert_game_store(game_id: i64, store_id: String) -> (s: Statement)
        ensures
            s@ == (StatementView {
                sql: SQL_INSERT@,
                binds: seq![BindView::Int(game_id), BindView::Text(store_id@)],
                returns_key: false,
            }),
    {
        Statement::with_two(SQL_INSERT, Bind::Int(game_id), Bind::Text(store_id), false)
    }

    /// The statement that reads the storefront id of the game `game_id`.
    pub fn get_game_store(game_id: i64) -> (s: Statement)
        ensures
            s@ == (StatementView {
                sql: SQL_OF_GAME@,
                binds: seq![BindView::Int(game_id)],
                returns_key: false,
            }),
    {
        Statement::with_one(SQL_OF_GAME, Bind::Int(game_id))
    }
}

} // verus!
