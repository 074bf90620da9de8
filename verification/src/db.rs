//! The relational store, seen as the statements that are sent to it.
//!
//! Nothing here talks to a database. Each operation of the store is a
//! [`Statement`]: its SQL text and the values bound to its placeholders. The
//! caller executes it and reports what came back.

use vstd::prelude::*;
use vstd::string::StringExecFns;

use crate::text::texts;

pub mod artwork;
pub mod cover;
pub mod game;
pub mod game_store;
pub mod genre;
pub mod studio;

verus! {

/// A value bound to one placeholder of a statement.
#[derive(Debug, PartialEq, Eq)]
pub enum Bind {
    Int(i64),
    Text(String),
    Null,
}

/// What a [`Bind`] stands for.
pub enum BindView {
    Int(i64),
    Text(Seq<char>),
    Null,
}

impl View for Bind {
    type V = BindView;

    open spec fn view(&self) -> BindView {
        match self {
            Bind::Int(n) => BindView::Int(*n),
            Bind::Text(s) => BindView::Text(s@),
            Bind::Null => BindView::Null,
        }
    }
}

/// One SQL statement with its bound values.
#[derive(Debug, PartialEq, Eq)]
pub struct Statement {
    /// The SQL text, with `?` placeholders.
    pub sql: String,
    /// The values for the placeholders, in order.
    pub binds: Vec<Bind>,
    /// Whether the statement has a `returning` clause: it then gives one row,
    /// whose first column is the key of the row it wrote.
    pub returns_key: bool,
}

/// What a [`Statement`] stands for.
pub struct StatementView {
    pub sql: Seq<char>,
    pub binds: Seq<BindView>,
    pub returns_key: bool,
}

impl View for Statement {
    type V = StatementView;

    open spec fn view(&self) -> StatementView {
        StatementView {
            sql: self.sql@,
            binds: bind_views(self.binds@),
            returns_key: self.returns_key,
        }
    }
}

/// The bind for an optional text: the text, or `NULL`.
pub open spec fn text_or_null(s: Option<String>) -> BindView {
    match s {
        Some(t) => BindView::Text(t@),
        None => BindView::Null,
    }
}

/// The bind for an optional integer: the integer, or `NULL`.
pub open spec fn int_or_null(n: Option<i64>) -> BindView {
    match n {
        Some(k) => BindView::Int(k),
        None => BindView::Null,
    }
}

impl Bind {
    /// A text bind holding a copy of `s`.
    pub fn text(s: &String) -> (b: Bind)
        ensures
            b@ == BindView::Text(s@),
    {
        Bind::Text(s.clone())
    }

    /// The bind for an optional text.
    pub fn optional_text(s: &Option<String>) -> (b: Bind)
        ensures
            b@ == text_or_null(*s),
    {
        match s {
            Some(t) => Bind::Text(t.clone()),
            None => Bind::Null,
        }
    }

    /// The bind for an optional integer.
    pub fn optional_int(n: Option<i64>) -> (b: Bind)
        ensures
            b@ == int_or_null(n),
    {
        match n {
            Some(k) => Bind::Int(k),
            None => Bind::Null,
        }
    }
}

/// What a list of binds stands for.
pub open spec fn bind_views(binds: Seq<Bind>) -> Seq<BindView> {
    binds.map_values(|b: Bind| b@)
}

impl Bind {
    /// The text binds for `list`, in order.
    pub fn texts(list: &Vec<String>) -> (binds: Vec<Bind>)
        ensures
            bind_views(binds@) == text_binds(texts(list@)),
    {
        let mut binds: Vec<Bind> = Vec::new();
        let mut i: usize = 0;
        while i < list.len()
            invariant
                i <= list.len(),
                bind_views(binds@) == text_binds(texts(list@)).take(i as int),
            decreases list.len() - i,
        {
            let ghost before = binds@;
            binds.push(Bind::text(&list[i]));
            assert(bind_views(binds@) =~= bind_views(before).push(
                BindView::Text(list@[i as int]@),
            ));
            assert(text_binds(texts(list@)).take(i + 1) =~= text_binds(texts(list@)).take(
                i as int,
            ).push(BindView::Text(list@[i as int]@)));
            i += 1;
        }
        assert(text_binds(texts(list@)).take(i as int) =~= text_binds(texts(list@)));
        binds
    }

    /// The integer binds for `list`, in order.
    pub fn ints(list: &Vec<i64>) -> (binds: Vec<Bind>)
        ensures
            bind_views(binds@) == int_binds(list@),
    {
        let mut binds: Vec<Bind> = Vec::new();
        let mut i: usize = 0;
        while i < list.len()
            invariant
                i <= list.len(),
                bind_views(binds@) == int_binds(list@).take(i as int),
            decreases list.len() - i,
        {
            let ghost before = binds@;
            binds.push(Bind::Int(list[i]));
            assert(bind_views(binds@) =~= bind_views(before).push(BindView::Int(list@[i as int])));
            assert(int_binds(list@).take(i + 1) =~= int_binds(list@).take(i as int).push(
                BindView::Int(list@[i as int]),
            ));
            i += 1;
        }
        assert(int_binds(list@).take(i as int) =~= int_binds(list@));
        binds
    }
}

impl Statement {
    /// A statement with the given text and no bound value yet.
    pub fn new(sql: &str, returns_key: bool) -> (s: Statement)
        ensures
            s@ == (StatementView { sql: sql@, binds: Seq::empty(), returns_key }),
    {
        let s = Statement { sql: String::from_str(sql), binds: Vec::new(), returns_key };
        assert(s@.binds =~= Seq::empty());
        s
    }

    /// Binds one more value, to the next placeholder.
    pub fn bind(self, b: Bind) -> (s: Statement)
        ensures
            s@ == (StatementView { binds: self@.binds.push(b@), ..self@ }),
    {
        let mut binds = self.binds;
        binds.push(b);
        let s = Statement { sql: self.sql, binds, returns_key: self.returns_key };
        assert(s@.binds =~= self@.binds.push(b@));
        s
    }
}


/// `n` placeholders, separated by a comma and a space.
pub open spec fn placeholders(n: nat) -> Seq<char>
    decreases n,
{
    if n == 0 {
        Seq::empty()
    } else if n == 1 {
        seq!['?']
    } else {
        placeholders((n - 1) as nat) + seq![',', ' ', '?']
    }
}

/// The text binds for `list`, in order.
pub open spec fn text_binds(list: Seq<Seq<char>>) -> Seq<BindView> {
    list.map_values(|s: Seq<char>| BindView::Text(s))
}

/// The integer binds for `list`, in order.
pub open spec fn int_binds(list: Seq<i64>) -> Seq<BindView> {
    list.map_values(|n: i64| BindView::Int(n))
}

/// The statement that selects the rows whose column is one of `binds`:
/// `head`, then one placeholder for each bind, between parentheses.
pub open spec fn select_in(head: Seq<char>, binds: Seq<BindView>) -> StatementView {
    StatementView {
        sql: head + seq!['('] + placeholders(binds.len()) + seq![')'],
        binds,
        returns_key: false,
    }
}

/// The statement `sql` without binds.
pub open spec fn plain(sql: Seq<char>) -> StatementView {
    StatementView { sql, binds: Seq::empty(), returns_key: false }
}

/// The text `head` followed by `n` placeholders between parentheses.
pub fn in_list(head: &str, n: usize) -> (sql: String)
    ensures
        sql@ == head@ + seq!['('] + placeholders(n as nat) + seq![')'],
{
    let mut sql = String::from_str(head);
    sql.push('(');
    let ghost start = sql@;
    let mut i: usize = 0;
    assert(sql@ =~= start + placeholders(0));
    while i < n
        invariant
            i <= n,
            sql@ == start + placeholders(i as nat),
        decreases n - i,
    {
        let ghost before = sql@;
        if i > 0 {
            sql.push(',');
            sql.push(' ');
        }
        sql.push('?');
        proof {
            if i > 0 {
                assert(sql@ =~= before + seq![',', ' ', '?']);
                assert(placeholders((i + 1) as nat) =~= placeholders(i as nat) + seq![
                    ',',
                    ' ',
                    '?',
                ]);
            }
            assert(sql@ =~= start + placeholders((i + 1) as nat));
        }
        i += 1;
    }
    sql.push(')');
    assert(sql@ =~= head@ + seq!['('] + placeholders(n as nat) + seq![')']);
    sql
}

pub const VALUES: &'static str = "VALUES ";

/// One row of placeholders: `columns` of them between parentheses.
pub open spec fn tuple_text(columns: nat) -> Seq<char> {
    seq!['('] + placeholders(columns) + seq![')']
}

/// `rows` rows of `columns` placeholders each, separated by a comma and a
/// space.
pub open spec fn values_text(rows: nat, columns: nat) -> Seq<char>
    decreases rows,
{
    if rows == 0 {
        Seq::empty()
    } else if rows == 1 {
        tuple_text(columns)
    } else {
        values_text((rows - 1) as nat, columns) + seq![',', ' '] + tuple_text(columns)
    }
}

/// The text of an insert of several rows: `head`, the word `VALUES`, one row
/// of placeholders for each row, and `tail`.
pub open spec fn insert_rows_text(head: Seq<char>, rows: nat, columns: nat, tail: Seq<char>) -> Seq<
    char,
> {
    head + VALUES@ + values_text(rows, columns) + tail
}

/// The text of an insert of `rows` rows of `columns` values each.
pub fn insert_rows(head: &str, rows: usize, columns: usize, tail: &str) -> (sql: String)
    ensures
        sql@ == insert_rows_text(head@, rows as nat, columns as nat, tail@),
{
    let mut sql = String::from_str(head);
    sql.append(VALUES);
    let ghost start = sql@;
    let mut i: usize = 0;
    assert(sql@ =~= start + values_text(0, columns as nat));
    while i < rows
        invariant
            i <= rows,
            sql@ == start + values_text(i as nat, columns as nat),
        decreases rows - i,
    {
        let ghost before = sql@;
        if i > 0 {
            sql.push(',');
            sql.push(' ');
        }
        let row = in_list("", columns);
        sql.append(row.as_str());
        proof {
            reveal_strlit("");
            assert(row@ =~= tuple_text(columns as nat));
            if i > 0 {
                assert(sql@ =~= before + seq![',', ' '] + tuple_text(columns as nat));
            } else {
                assert(sql@ =~= before + tuple_text(columns as nat));
            }
            assert(sql@ =~= start + values_text((i + 1) as nat, columns as nat));
        }
        i += 1;
    }
    sql.append(tail);
    sql
}

/// The binds of rows that pair the integer `first` with each of `seconds`.
pub open spec fn paired_binds(first: BindView, seconds: Seq<BindView>) -> Seq<BindView>
    decreases seconds.len(),
{
    if seconds.len() == 0 {
        Seq::empty()
    } else {
        paired_binds(first, seconds.drop_last()).push(first).push(seconds.last())
    }
}

impl Statement {
    /// The statement that selects the rows whose column is one of `list`.
    pub fn select_texts(head: &str, list: &Vec<String>) -> (s: Statement)
        ensures
            s@ == select_in(head@, text_binds(texts(list@))),
    {
        Statement { sql: in_list(head, list.len()), binds: Bind::texts(list), returns_key: false }
    }

    /// The statement that selects the rows whose column is one of `list`.
    pub fn select_ints(head: &str, list: &Vec<i64>) -> (s: Statement)
        ensures
            s@ == select_in(head@, int_binds(list@)),
    {
        Statement { sql: in_list(head, list.len()), binds: Bind::ints(list), returns_key: false }
    }

    /// The statement `sql` with the two binds `a` and `b`.
    pub fn with_two(sql: &str, a: Bind, b: Bind, returns_key: bool) -> (s: Statement)
        ensures
            s@ == (StatementView { sql: sql@, binds: seq![a@, b@], returns_key }),
    {
        let s = Statement::new(sql, returns_key).bind(a).bind(b);
        assert(s@.binds =~= seq![a@, b@]);
        s
    }

    /// The statement `sql` with the one bind `a`.
    pub fn with_one(sql: &str, a: Bind) -> (s: Statement)
        ensures
            s@ == (StatementView { sql: sql@, binds: seq![a@], returns_key: false }),
    {
        let s = Statement::new(sql, false).bind(a);
        assert(s@.binds =~= seq![a@]);
        s
    }
}

/// The name of the database file, inside the application's data directory.
pub const DATABASE_FILE: &'static str = "rocade.db";

/// The tables of the store.
#[derive(Clone, Copy, Debug, PartialEq, Eq, Structural)]
pub enum Table {
    Artworks,
    Covers,
    GamesGenres,
    BelongsTo,
    GamesStore,
    DevelopedBy,
    GamesStudios,
    Games,
    Genres,
    Companies,
    Studios,
}

pub const DELETE_FROM: &'static str = "delete from ";

impl Table {
    /// The name of the table in the database.
    pub open spec fn name(self) -> Seq<char> {
        match self {
            Table::Artworks => "artworks"@,
            Table::Covers => "covers"@,
            Table::GamesGenres => "games_genres"@,
            Table::BelongsTo => "belongs_to"@,
            Table::GamesStore => "games_store"@,
            Table::DevelopedBy => "developed_by"@,
            Table::GamesStudios => "games_studios"@,
            Table::Games => "games"@,
            Table::Genres => "genres"@,
            Table::Companies => "companies"@,
            Table::Studios => "studios"@,
        }
    }

    /// Whether the rows of `self` point to rows of `parent`.
    pub open spec fn references(self, parent: Table) -> bool {
        match self {
            Table::Artworks | Table::Covers | Table::GamesStore => parent is Games,
            Table::GamesGenres | Table::BelongsTo => parent is Games || parent is Genres,
            Table::DevelopedBy => parent is Games || parent is Companies,
            Table::GamesStudios => parent is Games || parent is Studios,
            _ => false,
        }
    }

    /// Executable form of [`Table::name`].
    pub fn name_str(&self) -> (s: &'static str)
        ensures
            s@ == self.name(),
    {
        match self {
            Table::Artworks => "artworks",
            Table::Covers => "covers",
            Table::GamesGenres => "games_genres",
            Table::BelongsTo => "belongs_to",
            Table::GamesStore => "games_store",
            Table::DevelopedBy => "developed_by",
            Table::GamesStudios => "games_studios",
            Table::Games => "games",
            Table::Genres => "genres",
            Table::Companies => "companies",
            Table::Studios => "studios",
        }
    }
}

/// The order in which the tables are emptied: the tables that link a game to
/// something first, then the games, the genres, the companies and the
/// studios.
pub open spec fn clean_order() -> Seq<Table> {
    seq![
        Table::Artworks,
        Table::Covers,
        Table::GamesGenres,
        Table::BelongsTo,
        Table::GamesStore,
        Table::DevelopedBy,
        Table::GamesStudios,
        Table::Games,
        Table::Genres,
        Table::Companies,
        Table::Studios,
    ]
}

/// The batch that empties `tables`, one statement for each, in order.
pub open spec fn delete_script(tables: Seq<Table>) -> Seq<char>
    decreases tables.len(),
{
    if tables.len() == 0 {
        Seq::empty()
    } else {
        delete_script(tables.drop_last()) + DELETE_FROM@ + tables.last().name() + seq![';', '\n']
    }
}

/// A table is emptied before every table that its rows point to, and every
/// table of the store is emptied.
pub proof fn lemma_clean_order(i: int, j: int, table: Table)
    requires
        0 <= i < clean_order().len(),
        0 <= j < clean_order().len(),
    ensures
        clean_order()[i].references(clean_order()[j]) ==> i < j,
        clean_order().contains(table),
{
    let order = clean_order();
    let k: int = match table {
        Table::Artworks => 0,
        Table::Covers => 1,
        Table::GamesGenres => 2,
        Table::BelongsTo => 3,
        Table::GamesStore => 4,
        Table::DevelopedBy => 5,
        Table::GamesStudios => 6,
        Table::Games => 7,
        Table::Genres => 8,
        Table::Companies => 9,
        Table::Studios => 10,
    };
    assert(order[k] == table);
}

/// The store of the application.
#[derive(Debug)]
pub struct DatabaseState {}

impl DatabaseState {
    /// The path of the database file in the data directory `app_dir`.
    pub fn database_path(app_dir: &str) -> (path: String)
        ensures
            path@ == app_dir@ + seq!['/'] + DATABASE_FILE@,
    {
        let mut path = String::from_str(app_dir);
        path.push('/');
        path.append(DATABASE_FILE);
        assert(path@ =~= app_dir@ + seq!['/'] + DATABASE_FILE@);
        path
    }

    /// The batch that empties the store: every table that the library
    /// writes to, in the order of [`clean_order`]. The image mirror is not
    /// touched.
    pub fn clean() -> (s: Statement)
        ensures
            s@ == plain(delete_script(clean_order())),
    {
        let tables = [
            Table::Artworks,
            Table::Covers,
            Table::GamesGenres,
            Table::BelongsTo,
            Table::GamesStore,
            Table::DevelopedBy,
            Table::GamesStudios,
            Table::Games,
            Table::Genres,
            Table::Companies,
            Table::Studios,
        ];
        assert(tables@ =~= clean_order());
        let mut sql = String::new();
        let mut i: usize = 0;
        assert(clean_order().take(0) =~= Seq::empty());
        while i < 11
            invariant
                i <= 11,
                tables@ == clean_order(),
                sql@ == delete_script(clean_order().take(i as int)),
            decreases 11 - i,
        {
            proof {
                let next = clean_order().take(i + 1);
                assert(next.drop_last() =~= clean_order().take(i as int));
                assert(next.last() == tables@[i as int]);
            }
            let ghost before = sql@;
            sql.append(DELETE_FROM);
            sql.append(tables[i].name_str());
            sql.push(';');
            sql.push('\n');
            assert(sql@ =~= before + DELETE_FROM@ + tables@[i as int].name() + seq![';', '\n']);
            i += 1;
        }
        assert(clean_order().take(11) =~= clean_order());
        Statement::new(sql.as_str(), false)
    }
}

} // verus!
