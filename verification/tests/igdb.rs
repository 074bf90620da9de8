use rocade::igdb::{
    chunks, find_store_id, holds, last_or_not_found, names, push_joined, resolve, split_companies,
    BatchAnswer, BatchPhase, BatchResolver, IgdbAlternativeGame, IgdbApiClient, IgdbCompany,
    IgdbCompanyInfo, IgdbCover, IgdbError, IgdbExternalGame, IgdbGame, IgdbGameInfo, IgdbGenre,
    IgdbInvolvedCompany, IgdbQuery, IgdbRawGame, LookupAnswer, LookupPhase,
};
use rocade::twitch::{AuthStage, TwitchApiClient, TwitchAuthResponse};

fn company(id: i64, name: &str, developed: Option<Vec<u64>>, published: Option<Vec<u64>>) -> IgdbInvolvedCompany {
    IgdbInvolvedCompany {
        company: IgdbCompanyInfo { id, name: name.to_string(), developed, published },
    }
}

fn raw(id: u64, name: &str) -> IgdbRawGame {
    IgdbRawGame {
        id,
        name: name.to_string(),
        summary: None,
        storyline: None,
        first_release_date: None,
        genres: None,
        cover: None,
        artworks: None,
        involved_companies: None,
    }
}

fn link(game: u64, uid: &str) -> IgdbExternalGame {
    IgdbExternalGame { game, uid: uid.to_string() }
}

fn client() -> IgdbApiClient {
    IgdbApiClient::new(TwitchApiClient::new("cid".to_string(), "secret".to_string()))
}

#[test]
fn the_queries_of_a_single_lookup_have_their_text() {
    assert_eq!(
        IgdbApiClient::get_steam_game(440),
        IgdbQuery {
            url: "https://api.igdb.com/v4/external_games".to_string(),
            body: "fields *;  where external_game_source = 1 & url = \"https://store.steampowered.com/app/440\"; limit 1;".to_string()
        }
    );
    assert_eq!(
        IgdbApiClient::search_game("Half-Life"),
        IgdbQuery {
            url: "https://api.igdb.com/v4/games".to_string(),
            body: "fields *; search \"Half-Life\"; where game.platforms = 6; limit 1;".to_string()
        }
    );
    assert_eq!(
        IgdbApiClient::get_game_info(-12),
        IgdbQuery {
            url: "https://api.igdb.com/v4/games".to_string(),
            body: "fields *; where id = -12; limit 1;".to_string()
        }
    );
    assert_eq!(
        IgdbApiClient::get_game_genres(&vec![5, 12, 31]),
        IgdbQuery {
            url: "https://api.igdb.com/v4/genres".to_string(),
            body: "fields *; where id = (5,12,31);".to_string()
        }
    );
    assert_eq!(IgdbApiClient::get_game_genres(&vec![]).body, "fields *; where id = ();");
    assert_eq!(
        IgdbApiClient::get_game_cover(89),
        IgdbQuery {
            url: "https://api.igdb.com/v4/covers".to_string(),
            body: "fields *; where id = (89);".to_string()
        }
    );
}

#[test]
fn ids_are_joined_by_commas() {
    let ids = vec![7u64, 0, 18446744073709551615, 42];
    let mut s = String::from("(");
    push_joined(&mut s, &ids, 0, 4, false);
    assert_eq!(s, "(7,0,18446744073709551615,42");
    let mut s = String::new();
    push_joined(&mut s, &ids, 1, 3, true);
    assert_eq!(s, "\"0\",\"18446744073709551615\"");
    let mut s = String::from("x");
    push_joined(&mut s, &ids, 2, 2, true);
    assert_eq!(s, "x");
    let mut s = String::new();
    push_joined(&mut s, &ids, 3, 4, true);
    assert_eq!(s, "\"42\"");
}

#[test]
fn ids_are_cut_into_chunks_of_five_hundred() {
    let sizes = |n: u64| -> Vec<usize> {
        let ids: Vec<u64> = (0..n).collect();
        let parts = chunks(&ids);
        let joined: Vec<u64> = parts.iter().flatten().copied().collect();
        assert_eq!(joined, ids);
        parts.iter().map(|p| p.len()).collect()
    };
    assert_eq!(sizes(0), Vec::<usize>::new());
    assert_eq!(sizes(1), vec![1]);
    assert_eq!(sizes(499), vec![499]);
    assert_eq!(sizes(500), vec![500]);
    assert_eq!(sizes(501), vec![500, 1]);
    assert_eq!(sizes(1000), vec![500, 500]);
    assert_eq!(sizes(1200), vec![500, 500, 200]);
}

#[test]
fn an_empty_answer_means_not_found() {
    assert_eq!(last_or_not_found(Vec::<IgdbAlternativeGame>::new()), Err(IgdbError::NotFound));
    assert_eq!(
        last_or_not_found(vec![IgdbAlternativeGame { game: 1 }, IgdbAlternativeGame { game: 2 }]),
        Ok(IgdbAlternativeGame { game: 2 })
    );
    assert_eq!(IgdbError::NotFound.to_string(), "Unable to find game");
    assert_eq!(IgdbError::Transport("boom".to_string()).to_string(), "boom");
    assert_eq!(IgdbError::Auth("no".to_string()).to_string(), "no");
    assert_eq!(IgdbError::Unexpected.to_string(), "unexpected answer from the catalog");
}

#[test]
fn companies_are_split_by_their_role_in_the_game() {
    let involved = Some(vec![
        company(1, "Dev", Some(vec![10, 77]), None),
        company(2, "Pub", None, Some(vec![77])),
        company(3, "Both", Some(vec![77]), Some(vec![5, 77])),
        company(4, "Other", Some(vec![10]), Some(vec![])),
        company(5, "None", None, None),
    ]);
    let (developers, publishers) = split_companies(77, &involved);
    assert_eq!(
        developers,
        vec![
            IgdbCompany { id: 1, name: "Dev".to_string() },
            IgdbCompany { id: 3, name: "Both".to_string() }
        ]
    );
    assert_eq!(
        publishers,
        vec![
            IgdbCompany { id: 2, name: "Pub".to_string() },
            IgdbCompany { id: 3, name: "Both".to_string() }
        ]
    );
    assert_eq!(split_companies(77, &None), (vec![], vec![]));
    assert_eq!(split_companies(99, &involved), (vec![], vec![]));
    assert!(holds(&vec![1, 2, 3], 3));
    assert!(!holds(&vec![1, 2, 3], 4));
    assert!(names(&Some(vec![4]), 4));
    assert!(!names(&None, 4));
}

#[test]
fn the_store_id_of_a_game_is_that_of_its_last_link() {
    let links = vec![link(7, "440"), link(8, "550"), link(7, "441")];
    assert_eq!(find_store_id(&links, 7), Some("441".to_string()));
    assert_eq!(find_store_id(&links, 8), Some("550".to_string()));
    assert_eq!(find_store_id(&links, 9), None);
    assert_eq!(find_store_id(&vec![], 7), None);
}

#[test]
fn an_answer_is_resolved_to_a_record() {
    let mut answer = raw(77, "Portal");
    answer.summary = Some("Cake.".to_string());
    answer.first_release_date = Some(1191974400);
    answer.genres = Some(vec![IgdbGenre { name: "Puzzle".to_string() }]);
    answer.cover = Some(IgdbCover { image_id: "co7".to_string() });
    answer.artworks = Some(vec![IgdbCover { image_id: "ar7".to_string() }]);
    answer.involved_companies = Some(vec![
        company(1, "Valve", Some(vec![77]), Some(vec![77])),
        company(2, "EA", None, Some(vec![77])),
    ]);
    assert_eq!(
        resolve(answer, &vec![link(77, "400")]),
        IgdbGame {
            id: 77,
            name: "Portal".to_string(),
            summary: Some("Cake.".to_string()),
            storyline: None,
            release_date: Some(1191974400),
            store_id: Some("400".to_string()),
            genres: vec![IgdbGenre { name: "Puzzle".to_string() }],
            developers: vec![IgdbCompany { id: 1, name: "Valve".to_string() }],
            publishers: vec![
                IgdbCompany { id: 1, name: "Valve".to_string() },
                IgdbCompany { id: 2, name: "EA".to_string() }
            ],
            cover: Some(IgdbCover { image_id: "co7".to_string() }),
            artworks: vec![IgdbCover { image_id: "ar7".to_string() }],
        }
    );
    let bare = resolve(raw(5, "Bare"), &vec![]);
    assert_eq!(bare.store_id, None);
    assert_eq!(bare.genres, vec![]);
    assert_eq!(bare.artworks, vec![]);
    assert_eq!(bare.developers, vec![]);
}

#[test]
fn a_single_lookup_asks_four_queries() {
    let mut lookup = client().get_game(440);
    assert_eq!(lookup.query(), Some(IgdbApiClient::get_steam_game(440)));
    lookup.advance(LookupAnswer::SteamGames(vec![IgdbAlternativeGame { game: 1234 }]));
    assert_eq!(lookup.query(), Some(IgdbApiClient::get_game_info(1234)));
    lookup.advance(LookupAnswer::Infos(vec![IgdbGameInfo {
        name: "Team Fortress 2".to_string(),
        cover: 89,
        genres: vec![5, 12],
        storyline: Some("Story.".to_string()),
        summary: Some("Hats.".to_string()),
    }]));
    assert_eq!(lookup.current_phase(), LookupPhase::Genres);
    assert_eq!(lookup.query(), Some(IgdbApiClient::get_game_genres(&vec![5, 12])));
    lookup.advance(LookupAnswer::Genres(vec![
        IgdbGenre { name: "Shooter".to_string() },
        IgdbGenre { name: "Action".to_string() },
    ]));
    assert_eq!(lookup.query(), Some(IgdbApiClient::get_game_cover(89)));
    lookup.advance(LookupAnswer::Covers(vec![IgdbCover { image_id: "co1".to_string() }]));
    assert_eq!(lookup.current_phase(), LookupPhase::Done);
    assert_eq!(lookup.query(), None);
    let game = lookup.finish().unwrap();
    assert_eq!(game.id, 1234);
    assert_eq!(game.name, "Team Fortress 2");
    assert_eq!(game.summary, Some("Hats.".to_string()));
    assert_eq!(game.storyline, Some("Story.".to_string()));
    assert_eq!(game.genres.len(), 2);
    assert_eq!(game.cover, Some(IgdbCover { image_id: "co1".to_string() }));
}

#[test]
fn a_single_lookup_of_an_unknown_game_is_not_found() {
    let mut lookup = client().get_game(1);
    lookup.advance(LookupAnswer::SteamGames(vec![]));
    assert_eq!(lookup.current_phase(), LookupPhase::NotFound);
    assert_eq!(lookup.query(), None);
    assert_eq!(lookup.finish(), Err(IgdbError::NotFound));

    let mut lookup = client().get_game(1);
    lookup.advance(LookupAnswer::SteamGames(vec![IgdbAlternativeGame { game: 3 }]));
    lookup.advance(LookupAnswer::Infos(vec![]));
    assert_eq!(lookup.finish(), Err(IgdbError::NotFound));
}

#[test]
fn a_single_lookup_asks_the_catalog_for_whatever_id_the_link_names() {
    let mut lookup = client().get_game(1);
    lookup.advance(LookupAnswer::SteamGames(vec![IgdbAlternativeGame { game: -3 }]));
    assert_eq!(lookup.current_phase(), LookupPhase::Info);
    assert_eq!(lookup.query(), Some(IgdbApiClient::get_game_info(-3)));
    lookup.advance(LookupAnswer::Infos(vec![]));
    assert_eq!(lookup.finish(), Err(IgdbError::NotFound));
}

#[test]
fn a_single_lookup_refuses_an_answer_of_the_wrong_kind() {
    let mut lookup = client().get_game(1);
    lookup.advance(LookupAnswer::Genres(vec![]));
    assert_eq!(lookup.current_phase(), LookupPhase::Unexpected);
    assert_eq!(lookup.finish(), Err(IgdbError::Unexpected));

    let lookup = client().get_game(1);
    assert_eq!(lookup.finish(), Err(IgdbError::Unexpected));
}

#[test]
fn a_batch_asks_for_the_links_of_every_chunk_and_then_for_the_records() {
    let ids: Vec<u64> = (1..=501).collect();
    let mut batch = client().get_games(ids);
    assert_eq!(batch.current_phase(), BatchPhase::Links);
    let first = batch.query().unwrap();
    assert_eq!(first.url, "https://api.igdb.com/v4/external_games");
    assert!(first
        .body
        .starts_with("fields game,uid; where external_game_source = 1 & uid = (\"1\",\"2\",\"3\","));
    assert!(first.body.ends_with(",\"499\",\"500\"); limit 500;"));
    batch.advance(BatchAnswer::Links(vec![link(70, "7"), link(90, "9")]));
    assert_eq!(batch.current_phase(), BatchPhase::Links);
    assert_eq!(
        batch.query().unwrap().body,
        "fields game,uid; where external_game_source = 1 & uid = (\"501\"); limit 500;"
    );
    batch.advance(BatchAnswer::Links(vec![]));
    assert_eq!(batch.current_phase(), BatchPhase::Records);
    let second = batch.query().unwrap();
    assert_eq!(second.url, "https://api.igdb.com/v4/games");
    assert!(second.body.starts_with("fields name,summary,storyline,first_release_date,genres.name,cover.image_id,artworks.image_id,involved_companies.company.name,"));
    assert!(second.body.ends_with("; where id = (70,90); limit 500;"));
    batch.advance(BatchAnswer::Records(vec![raw(90, "Nine"), raw(70, "Seven")]));
    assert_eq!(batch.current_phase(), BatchPhase::Done);
    assert_eq!(batch.query(), None);
    let records = batch.finish().unwrap();
    let found: Vec<(u64, Option<String>)> =
        records.into_iter().map(|g| (g.id, g.store_id)).collect();
    assert_eq!(found, vec![(90, Some("9".to_string())), (70, Some("7".to_string()))]);
}

#[test]
fn the_records_are_asked_for_with_the_chunk_boundaries_of_the_links() {
    let mut batch = BatchResolver::new((1..=1200).collect());
    batch.advance(BatchAnswer::Links(vec![link(10, "1"), link(20, "2")]));
    batch.advance(BatchAnswer::Links(vec![]));
    batch.advance(BatchAnswer::Links(vec![link(30, "1001")]));
    assert_eq!(batch.current_phase(), BatchPhase::Records);
    assert!(batch.query().unwrap().body.ends_with("where id = (10,20); limit 500;"));
    batch.advance(BatchAnswer::Records(vec![raw(10, "Ten")]));
    assert_eq!(batch.current_phase(), BatchPhase::Records);
    assert!(batch.query().unwrap().body.ends_with("where id = (30); limit 500;"));
    batch.advance(BatchAnswer::Records(vec![raw(30, "Thirty")]));
    assert_eq!(batch.current_phase(), BatchPhase::Done);
    let found: Vec<(u64, Option<String>)> =
        batch.finish().unwrap().into_iter().map(|g| (g.id, g.store_id)).collect();
    assert_eq!(found, vec![(10, Some("1".to_string())), (30, Some("1001".to_string()))]);
}

#[test]
fn a_batch_without_any_link_has_no_record() {
    let mut batch = BatchResolver::new((1..=501).collect());
    batch.advance(BatchAnswer::Links(vec![]));
    batch.advance(BatchAnswer::Links(vec![]));
    assert_eq!(batch.current_phase(), BatchPhase::Done);
    assert_eq!(batch.finish(), Ok(vec![]));
}

#[test]
fn a_batch_of_nothing_is_done_at_once() {
    let batch = BatchResolver::new(vec![]);
    assert_eq!(batch.current_phase(), BatchPhase::Done);
    assert_eq!(batch.query(), None);
    assert_eq!(batch.finish(), Ok(vec![]));
}

#[test]
fn a_batch_that_is_not_done_gives_no_part_of_its_records() {
    let mut batch = BatchResolver::new((1..=501).collect());
    batch.advance(BatchAnswer::Links(vec![link(70, "7")]));
    batch.advance(BatchAnswer::Links(vec![link(80, "501")]));
    batch.advance(BatchAnswer::Records(vec![raw(70, "Seven")]));
    assert_eq!(batch.current_phase(), BatchPhase::Records);
    assert_eq!(batch.finish(), Err(IgdbError::Unexpected));

    let mut batch = BatchResolver::new(vec![1]);
    batch.advance(BatchAnswer::Records(vec![]));
    assert_eq!(batch.current_phase(), BatchPhase::Unexpected);
    assert_eq!(batch.query(), None);
    assert_eq!(batch.finish(), Err(IgdbError::Unexpected));

    let mut batch = BatchResolver::new(vec![1]);
    batch.advance(BatchAnswer::Links(vec![link(70, "1")]));
    batch.advance(BatchAnswer::Links(vec![]));
    assert_eq!(batch.current_phase(), BatchPhase::Unexpected);
    assert_eq!(batch.finish(), Err(IgdbError::Unexpected));
}

#[test]
fn a_record_takes_the_store_id_of_the_last_link_to_its_game() {
    let mut batch = BatchResolver::new((1..=600).collect());
    batch.advance(BatchAnswer::Links(vec![link(70, "7")]));
    batch.advance(BatchAnswer::Links(vec![link(80, "508"), link(70, "509")]));
    assert!(batch.query().unwrap().body.ends_with("where id = (70); limit 500;"));
    batch.advance(BatchAnswer::Records(vec![raw(70, "Seven")]));
    assert!(batch.query().unwrap().body.ends_with("where id = (80,70); limit 500;"));
    batch.advance(BatchAnswer::Records(vec![raw(80, "Eighty"), raw(75, "Unasked")]));
    let found: Vec<(u64, Option<String>)> =
        batch.finish().unwrap().into_iter().map(|g| (g.id, g.store_id)).collect();
    assert_eq!(
        found,
        vec![(70, Some("509".to_string())), (80, Some("508".to_string())), (75, None)]
    );
}

#[test]
fn the_catalog_client_names_itself_and_uses_the_cached_token() {
    let mut c = client();
    assert_eq!(c.client_id_header(), ("CLIENT-ID".to_string(), "cid".to_string()));
    assert_eq!(c.get_twitch_access_token(), None);
    assert_eq!(c.request_with_retry().current_stage(), AuthStage::NoToken);
    c.refresh_access_token(TwitchAuthResponse { access_token: "tok".to_string() });
    assert_eq!(c.get_twitch_access_token(), Some("tok".to_string()));
    assert_eq!(c.request_with_retry().current_stage(), AuthStage::Valid);
}
