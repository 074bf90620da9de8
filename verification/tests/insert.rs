use rocade::db::game::{GameRepository, InsertAction, InsertCursor, InsertPhase, Outcome};
use rocade::db::{Bind, Statement};
use rocade::igdb::{IgdbCompany, IgdbCover, IgdbGame, IgdbGenre};

fn record() -> IgdbGame {
    IgdbGame {
        id: 1234,
        name: "Team Fortress 2".to_string(),
        summary: Some("Hats.".to_string()),
        storyline: None,
        release_date: Some(1191974400),
        store_id: Some("440".to_string()),
        genres: vec![
            IgdbGenre { name: "Shooter".to_string() },
            IgdbGenre { name: "Action".to_string() },
        ],
        developers: vec![IgdbCompany { id: 56, name: "Valve".to_string() }],
        publishers: vec![],
        cover: Some(IgdbCover { image_id: "co1".to_string() }),
        artworks: vec![
            IgdbCover { image_id: "ar1".to_string() },
            IgdbCover { image_id: "ar2".to_string() },
        ],
    }
}

fn bare() -> IgdbGame {
    IgdbGame {
        id: 1,
        name: "Bare".to_string(),
        summary: None,
        storyline: None,
        release_date: None,
        store_id: None,
        genres: vec![],
        developers: vec![],
        publishers: vec![],
        cover: None,
        artworks: vec![],
    }
}

fn statement(sql: &str, binds: Vec<Bind>, returns_key: bool) -> InsertAction {
    InsertAction::Execute(Statement { sql: sql.to_string(), binds, returns_key })
}

fn text(s: &str) -> Bind {
    Bind::Text(s.to_string())
}

#[test]
fn an_insert_runs_every_step_in_order() {
    let game = record();
    let mut cursor = GameRepository::new().insert_complete_game(&game);
    assert_eq!(cursor.action(), InsertAction::Begin);
    cursor.advance(Outcome::Done);
    assert_eq!(
        cursor.action(),
        statement(
            "insert into games (name, summary, release_date) values ( ?, ?, ?) returning id",
            vec![text("Team Fortress 2"), text("Hats."), Bind::Int(1191974400)],
            true
        )
    );
    cursor.advance(Outcome::Key(7));
    assert_eq!(
        cursor.action(),
        statement(
            "INSERT INTO games_store (game_id, store_id) VALUES (?, ?)",
            vec![Bind::Int(7), text("440")],
            false
        )
    );
    cursor.advance(Outcome::Done);
    assert_eq!(
        cursor.action(),
        statement(
            "INSERT INTO covers (game_id, cover_id) VALUES (?, ?)",
            vec![Bind::Int(7), text("co1")],
            false
        )
    );
    cursor.advance(Outcome::Done);
    for id in ["ar1", "ar2"] {
        assert_eq!(
            cursor.action(),
            statement(
                "INSERT INTO artworks (game_id, artwork_id) VALUES (?, ?)",
                vec![Bind::Int(7), text(id)],
                false
            )
        );
        cursor.advance(Outcome::Done);
    }
    for (name, key) in [("Shooter", 31), ("Action", 32)] {
        assert_eq!(
            cursor.action(),
            statement(
                "INSERT INTO genres (name) VALUES (?) ON CONFLICT(name) DO update set name = name returning id",
                vec![text(name)],
                true
            )
        );
        cursor.advance(Outcome::Key(key));
        assert_eq!(
            cursor.action(),
            statement(
                "INSERT INTO belongs_to (game_id, genre_id) VALUES (?, ?)",
                vec![Bind::Int(7), Bind::Int(key)],
                false
            )
        );
        cursor.advance(Outcome::Done);
    }
    assert_eq!(
        cursor.action(),
        statement(
            "INSERT INTO companies (igdb_id, name) VALUES (?, ?) ON CONFLICT(igdb_id) DO UPDATE SET igdb_id = igdb_id RETURNING id",
            vec![Bind::Int(56), text("Valve")],
            true
        )
    );
    cursor.advance(Outcome::Key(90));
    assert_eq!(
        cursor.action(),
        statement(
            "INSERT INTO developed_by (game_id, studio_id) VALUES (?, ?)",
            vec![Bind::Int(7), Bind::Int(90)],
            false
        )
    );
    cursor.advance(Outcome::Done);
    assert_eq!(cursor.action(), InsertAction::Commit);
    cursor.advance(Outcome::Done);
    assert_eq!(cursor.action(), InsertAction::Finished(Some(7)));
    cursor.advance(Outcome::Failed);
    assert_eq!(cursor.action(), InsertAction::Finished(Some(7)));
}

#[test]
fn an_insert_of_a_bare_record_writes_one_row() {
    let game = bare();
    let mut cursor = InsertCursor::new(&game);
    assert_eq!(cursor.current_phase(), InsertPhase::Begin);
    cursor.advance(Outcome::Done);
    assert_eq!(
        cursor.action(),
        statement(
            "insert into games (name, summary, release_date) values ( ?, ?, ?) returning id",
            vec![text("Bare"), Bind::Null, Bind::Null],
            true
        )
    );
    cursor.advance(Outcome::Key(-3));
    assert_eq!(cursor.current_phase(), InsertPhase::Commit);
    cursor.advance(Outcome::Key(5));
    assert_eq!(cursor.action(), InsertAction::Finished(Some(-3)));
}

#[test]
fn a_failed_developer_upsert_rolls_the_insert_back() {
    let game = record();
    let mut cursor = InsertCursor::new(&game);
    let mut committed = false;
    loop {
        match cursor.action() {
            InsertAction::Finished(key) => {
                assert_eq!(key, None);
                break;
            }
            InsertAction::Commit => {
                committed = true;
                cursor.advance(Outcome::Done);
            }
            InsertAction::Rollback => {
                assert_eq!(cursor.current_phase(), InsertPhase::Rollback);
                cursor.advance(Outcome::Done);
            }
            InsertAction::Begin => cursor.advance(Outcome::Done),
            InsertAction::Execute(s) => {
                if s.sql.starts_with("INSERT INTO companies") {
                    cursor.advance(Outcome::Failed);
                    assert_eq!(cursor.action(), InsertAction::Rollback);
                } else if s.returns_key {
                    cursor.advance(Outcome::Key(1));
                } else {
                    cursor.advance(Outcome::Done);
                }
            }
        }
    }
    assert!(!committed);
}

#[test]
fn every_failing_step_ends_without_a_commit() {
    let game = record();
    let steps = 1 + 1 + 1 + 1 + 2 + 4 + 2 + 1;
    for failing in 0..steps {
        let mut cursor = InsertCursor::new(&game);
        let mut step = 0;
        let mut actions: Vec<&str> = Vec::new();
        loop {
            let action = cursor.action();
            let outcome = if step == failing {
                Outcome::Failed
            } else {
                match &action {
                    InsertAction::Execute(s) if s.returns_key => Outcome::Key(step as i64),
                    _ => Outcome::Done,
                }
            };
            match action {
                InsertAction::Finished(key) => {
                    assert_eq!(key, None, "failing step {}", failing);
                    break;
                }
                InsertAction::Begin => actions.push("begin"),
                InsertAction::Execute(_) => actions.push("execute"),
                InsertAction::Commit => actions.push("commit"),
                InsertAction::Rollback => actions.push("rollback"),
            }
            cursor.advance(outcome);
            step += 1;
        }
        let commits = actions.iter().filter(|a| **a == "commit").count();
        let rollbacks = actions.iter().filter(|a| **a == "rollback").count();
        if failing == 0 {
            assert_eq!(actions, vec!["begin"]);
        } else if failing == steps - 1 {
            assert_eq!((commits, rollbacks), (1, 0));
            assert_eq!(actions.last(), Some(&"commit"));
        } else {
            assert_eq!((commits, rollbacks), (0, 1), "failing step {}", failing);
            assert_eq!(actions.last(), Some(&"rollback"));
            assert_eq!(actions.len(), failing + 2);
        }
    }
}

#[test]
fn a_key_that_is_missing_counts_as_a_failure() {
    let game = bare();
    let mut cursor = InsertCursor::new(&game);
    cursor.advance(Outcome::Done);
    cursor.advance(Outcome::Done);
    assert_eq!(cursor.action(), InsertAction::Rollback);
    cursor.advance(Outcome::Failed);
    assert_eq!(cursor.action(), InsertAction::Finished(None));
}
