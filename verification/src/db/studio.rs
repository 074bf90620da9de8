//! The studios of the store and their links to the games.

use vstd::prelude::*;

use crate::db::{
    bind_views, insert_rows, insert_rows_text, int_binds, paired_binds, plain, select_in, Bind, BindView,
    Statement, StatementView,
};
use crate::igdb::IgdbCompany;

verus! {

pub const SQL_DELETE_LINKS: &'static str = "delete from games_studios";

pub const SQL_DELETE: &'static str = "delete from studios";

pub const SQL_ALL: &'static str = "select * from studios";

pub const SQL_INSERT_MANY: &'static str = "insert into studios (igdb_id, name) ";

pub const SQL_KEEP_EXISTING: &'static str = "on conflict(igdb_id) do nothing";

pub const SQL_LINK_MANY: &'static str = "insert into games_studios(game_id, studio_id) ";

pub const SQL_BY_IGDB_ID: &'static str = "select * from studios where igdb_id in ";

pub const SQL_LINKS_OF_GAME: &'static str = "select * from games_studios where game_id = ?";

pub const SQL_BY_ID: &'static str = "select * from studios where id in ";

/// One row of the table of studios.
#[derive(Debug, PartialEq, Eq)]
pub struct StudioRow {
    pub id: i64,
    /// The catalog's id of the studio.
    pub igdb_id: i64,
    pub name: Option<String>,
}

/// One row of the table that links games to studios.
#[derive(Debug, PartialEq, Eq)]
pub struct GameStudioRow {
    pub id: i64,
    pub game_id: i64,
    pub studio_id: i64,
}

/// Access to the studios of the store.
#[derive(Debug)]
pub struct StudioRepository {}

/// The keys of the studios `rows`, in order.
pub open spec fn studio_keys(rows: Seq<StudioRow>) -> Seq<i64> {
    rows.map_values(|r: StudioRow| r.id)
}

/// The catalog ids of `studios`, in order.
pub open spec fn catalog_ids(studios: Seq<IgdbCompany>) -> Seq<i64> {
    studios.map_values(|c: IgdbCompany| c.id)
}

/// The binds of the rows for `studios`: for each its catalog id and its
/// name.
pub open spec fn studio_binds(studios: Seq<IgdbCompany>) -> Seq<BindView>
    decreases studios.len(),
{
    if studios.len() == 0 {
        Seq::empty()
    } else {
        studio_binds(studios.drop_last()).push(BindView::Int(studios.last().id)).push(
            BindView::Text(studios.last().name@),
        )
    }
}

/// The studios that the links `links` point to, in order.
pub open spec fn linked_studios(links: Seq<GameStudioRow>) -> Seq<i64> {
    links.map_values(|l: GameStudioRow| l.studio_id)
}

impl StudioRepository {
    /// The statements that remove every studio: the links first, then the
    /// studios.
    pub fn delete_studios() -> (r: (Statement, Statement))
        ensures
            r.0@ == plain(SQL_DELETE_LINKS@),
            r.1@ == plain(SQL_DELETE@),
    {
        (Statement::new(SQL_DELETE_LINKS, false), Statement::new(SQL_DELETE, false))
    }

    /// The statement that writes the studios `studios`, one row for each,
    /// and leaves a studio that is there as it is.
    pub fn insert_game_studios(studios: &Vec<IgdbCompany>) -> (s: Statement)
        ensures
            s@ == (StatementView {
                sql: insert_rows_text(SQL_INSERT_MANY@, studios@.len(), 2, SQL_KEEP_EXISTING@),
                binds: studio_binds(studios@),
                returns_key: false,
            }),
    {
        let mut binds: Vec<Bind> = Vec::new();
        let mut i: usize = 0;
        assert(studios@.take(0) =~= Seq::empty());
        assert(bind_views(binds@) =~= Seq::empty());
        while i < studios.len()
            invariant
                i <= studios.len(),
                bind_views(binds@) == studio_binds(studios@.take(i as int)),
            decreases studios.len() - i,
        {
            let ghost before = binds@;
            binds.push(Bind::Int(studios[i].id));
            binds.push(Bind::text(&studios[i].name));
            proof {
                assert(studios@.take(i + 1).drop_last() =~= studios@.take(i as int));
                assert(studios@.take(i + 1).last() == studios@[i as int]);
                assert(bind_views(binds@) =~= bind_views(before).push(
                    BindView::Int(studios@[i as int].id),
                ).push(BindView::Text(studios@[i as int].name@)));
            }
            i += 1;
        }
        assert(studios@.take(i as int) =~= studios@);
        Statement {
            sql: insert_rows(SQL_INSERT_MANY, studios.len(), 2, SQL_KEEP_EXISTING),
            binds,
            returns_key: false,
        }
    }

    /// The catalog ids of `studios`, in order: the studios to read back
    /// after they were written.
    pub fn ids_of(studios: &Vec<IgdbCompany>) -> (ids: Vec<i64>)
        ensures
            ids@ == catalog_ids(studios@),
    {
        let mut ids: Vec<i64> = Vec::new();
        let mut i: usize = 0;
        while i < studios.len()
            invariant
                i <= studios.len(),
                ids@ == catalog_ids(studios@).take(i as int),
            decreases studios.len() - i,
        {
            ids.push(studios[i].id);
            assert(ids@ =~= catalog_ids(studios@).take(i + 1));
            i += 1;
        }
        assert(catalog_ids(studios@).take(i as int) =~= catalog_ids(studios@));
        ids
    }

    /// The statement that links the studios `rows` to the game `game_id`,
    /// one row for each.
    pub fn link_game_studios(game_id: i64, rows: &Vec<StudioRow>) -> (s: Statement)
        ensures
            s@ == (StatementView {
                sql: insert_rows_text(SQL_LINK_MANY@, rows@.len(), 2, Seq::empty()),
                binds: paired_binds(BindView::Int(game_id), int_binds(studio_keys(rows@))),
                returns_key: false,
            }),
    {
        let mut binds: Vec<Bind> = Vec::new();
        let mut i: usize = 0;
        let ghost all = int_binds(studio_keys(rows@));
        assert(all.take(0) =~= Seq::empty());
        assert(bind_views(binds@) =~= Seq::empty());
        while i < rows.len()
            invariant
                i <= rows.len(),
                all == int_binds(studio_keys(rows@)),
                bind_views(binds@) == paired_binds(
                    BindView::Int(game_id),
                    all.take(i as int),
                ),
            decreases rows.len() - i,
        {
            let ghost before = binds@;
            binds.push(Bind::Int(game_id));
            binds.push(Bind::Int(rows[i].id));
            proof {
                assert(all.take(i + 1).drop_last() =~= all.take(i as int));
                assert(all.take(i + 1).last() == BindView::Int(rows@[i as int].id));
                assert(bind_views(binds@) =~= bind_views(before).push(
                    BindView::Int(game_id),
                ).push(BindView::Int(rows@[i as int].id)));
            }
            i += 1;
        }
        assert(all.take(i as int) =~= all);
        let sql = insert_rows(SQL_LINK_MANY, rows.len(), 2, "");
        proof {
            reveal_strlit("");
            assert(""@ =~= Seq::<char>::empty());
        }
        Statement { sql, binds, returns_key: false }
    }

    /// The statement that reads the studios with the catalog ids
    /// `studio_ids`; every studio where `studio_ids` names none.
    pub fn get_studios(studio_ids: &Vec<i64>) -> (s: Statement)
        ensures
            s@ == (if studio_ids@.len() == 0 {
                plain(SQL_ALL@)
            } else {
                select_in(SQL_BY_IGDB_ID@, int_binds(studio_ids@))
            }),
    {
        if studio_ids.len() == 0 {
            Statement::new(SQL_ALL, false)
        } else {
            Statement::select_ints(SQL_BY_IGDB_ID, studio_ids)
        }
    }

    /// The statement that reads the links of the game `game_id` to its
    /// studios.
    pub fn get_game_studios(game_id: i64) -> (s: Statement)
        ensures
            s@ == (StatementView {
                sql: SQL_LINKS_OF_GAME@,
                binds: seq![BindView::Int(game_id)],
                returns_key: false,
            }),
    {
        Statement::with_one(SQL_LINKS_OF_GAME, Bind::Int(game_id))
    }

    /// The statement that reads the studios that `links` point to; none
    /// where there is no link, and then the game has no studio.
    pub fn get_linked_studios(links: &Vec<GameStudioRow>) -> (s: Option<Statement>)
        ensures
            links@.len() == 0 ==> s is None,
            links@.len() > 0 ==> s is Some && s->0@ == select_in(
                SQL_BY_ID@,
                int_binds(linked_studios(links@)),
            ),
    {
        if links.len() == 0 {
            return None;
        }
        let mut ids: Vec<i64> = Vec::new();
        let mut i: usize = 0;
        while i < links.len()
            invariant
                i <= links.len(),
                ids@ == linked_studios(links@).take(i as int),
            decreases links.len() - i,
        {
            ids.push(links[i].studio_id);
            assert(ids@ =~= linked_studios(links@).take(i + 1));
            i += 1;
        }
        assert(linked_studios(links@).take(i as int) =~= linked_studios(links@));
        Some(Statement::select_ints(SQL_BY_ID, &ids))
    }
}

} // verus!
