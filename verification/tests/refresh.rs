use rocade::client::steam::SteamClient;
use rocade::commands::game::{
    artwork_updates, collect_artwork_ids, collect_cover_ids, cover_update, find_path, get_game,
    Refresh, RefreshAction, RefreshEvent, RefreshPhase, RefreshStage, RocadeError,
};
use rocade::assets::AssetError;
use rocade::db::game::Game;
use rocade::igdb::{IgdbCover, IgdbError, IgdbGame, IgdbGenre};
use rocade::service::steam::{
    owned_ids, GameList, GameListResponse, SteamApiClient, SteamError, SteamGame,
};
use rocade::steam::SteamState;

fn owned(appid: u64, name: &str) -> SteamGame {
    SteamGame {
        appid,
        name: name.to_string(),
        playtime_2weeks: None,
        playtime_forever: Some(10),
        img_icon_url: None,
        img_logo_url: None,
    }
}

fn record(id: u64, store_id: &str, cover: Option<&str>, artworks: &[&str]) -> IgdbGame {
    IgdbGame {
        id,
        name: format!("game {}", id),
        summary: None,
        storyline: None,
        release_date: None,
        store_id: Some(store_id.to_string()),
        genres: vec![IgdbGenre { name: "Shooter".to_string() }],
        developers: vec![],
        publishers: vec![],
        cover: cover.map(|c| IgdbCover { image_id: c.to_string() }),
        artworks: artworks.iter().map(|a| IgdbCover { image_id: a.to_string() }).collect(),
    }
}

fn pair(id: &str, path: &str) -> (String, String) {
    (id.to_string(), path.to_string())
}

fn stored_game(store_id: Option<&str>) -> Game {
    Game {
        id: 1,
        name: "Halo".to_string(),
        summary: None,
        store_id: store_id.map(|s| s.to_string()),
        cover: None,
        is_installed: None,
        artworks: None,
        release_date: None,
        genres: None,
        developers: None,
    }
}

#[test]
fn a_refresh_of_two_games_stores_both_and_the_places_of_their_covers() {
    let mut refresh = Refresh::new();
    assert_eq!(refresh.action(), RefreshAction::FetchOwned);
    refresh.advance(RefreshEvent::Owned(vec![owned(440, "TF2"), owned(400, "Portal")]));
    assert_eq!(refresh.action(), RefreshAction::Resolve(vec![440, 400]));
    refresh.advance(RefreshEvent::Resolved(vec![
        record(1, "440", Some("co1"), &[]),
        record(2, "400", Some("co2"), &[]),
    ]));
    assert_eq!(refresh.action(), RefreshAction::CleanStore);
    refresh.advance(RefreshEvent::Done);
    assert_eq!(refresh.action(), RefreshAction::ClearAssets);
    refresh.advance(RefreshEvent::Done);
    assert_eq!(refresh.action(), RefreshAction::Insert(0));
    assert_eq!(refresh.record(0).map(|r| r.id), Some(1));
    refresh.advance(RefreshEvent::Inserted(11));
    assert_eq!(refresh.action(), RefreshAction::Insert(1));
    assert_eq!(refresh.record(1).map(|r| r.id), Some(2));
    assert_eq!(refresh.record(2), None);
    refresh.advance(RefreshEvent::Inserted(12));
    assert_eq!(
        refresh.action(),
        RefreshAction::DownloadCovers(vec!["co1".to_string(), "co2".to_string()])
    );
    refresh.advance(RefreshEvent::Downloaded(vec![
        pair("co2", "/a/covers/co2.jpg"),
        pair("co1", "/a/covers/co1.jpg"),
    ]));
    assert_eq!(refresh.action(), RefreshAction::DownloadArtworks(vec![]));
    refresh.advance(RefreshEvent::Downloaded(vec![]));
    assert_eq!(
        refresh.action(),
        RefreshAction::UpdateCover {
            game_id: 11,
            cover_id: "co1".to_string(),
            local_path: "/a/covers/co1.jpg".to_string()
        }
    );
    refresh.advance(RefreshEvent::Done);
    assert_eq!(
        refresh.action(),
        RefreshAction::UpdateCover {
            game_id: 12,
            cover_id: "co2".to_string(),
            local_path: "/a/covers/co2.jpg".to_string()
        }
    );
    refresh.advance(RefreshEvent::Done);
    assert_eq!(refresh.action(), RefreshAction::Finished(Ok(())));
    assert_eq!(refresh.current_phase(), RefreshPhase::Done);
}

#[test]
fn a_refresh_stores_the_places_of_the_artworks_that_were_mirrored() {
    let mut refresh = Refresh::new();
    refresh.advance(RefreshEvent::Owned(vec![owned(1, "a"), owned(2, "b"), owned(3, "c")]));
    refresh.advance(RefreshEvent::Resolved(vec![
        record(1, "1", None, &["x", "y"]),
        record(2, "2", Some("c2"), &[]),
        record(3, "3", Some("c3"), &["y", "z", "x"]),
    ]));
    refresh.advance(RefreshEvent::Done);
    refresh.advance(RefreshEvent::Done);
    for key in [101, 102, 103] {
        refresh.advance(RefreshEvent::Inserted(key));
    }
    assert_eq!(
        refresh.action(),
        RefreshAction::DownloadCovers(vec!["c2".to_string(), "c3".to_string()])
    );
    refresh.advance(RefreshEvent::Downloaded(vec![pair("c3", "/c3.jpg")]));
    assert_eq!(
        refresh.action(),
        RefreshAction::DownloadArtworks(vec!["x".to_string(), "y".to_string(), "z".to_string()])
    );
    refresh.advance(RefreshEvent::Downloaded(vec![pair("x", "/x.jpg"), pair("z", "/z.jpg")]));
    assert_eq!(
        refresh.action(),
        RefreshAction::UpdateArtworks { game_id: 101, paths: vec![pair("x", "/x.jpg")] }
    );
    refresh.advance(RefreshEvent::Failed);
    assert_eq!(
        refresh.action(),
        RefreshAction::UpdateCover {
            game_id: 103,
            cover_id: "c3".to_string(),
            local_path: "/c3.jpg".to_string()
        }
    );
    refresh.advance(RefreshEvent::Failed);
    assert_eq!(
        refresh.action(),
        RefreshAction::UpdateArtworks {
            game_id: 103,
            paths: vec![pair("z", "/z.jpg"), pair("x", "/x.jpg")]
        }
    );
    refresh.advance(RefreshEvent::Done);
    assert_eq!(refresh.action(), RefreshAction::Finished(Ok(())));
}

#[test]
fn a_refresh_without_owned_games_empties_the_library() {
    let mut refresh = Refresh::new();
    refresh.advance(RefreshEvent::Owned(vec![]));
    assert_eq!(refresh.action(), RefreshAction::Resolve(vec![]));
    refresh.advance(RefreshEvent::Resolved(vec![]));
    refresh.advance(RefreshEvent::Done);
    refresh.advance(RefreshEvent::Done);
    assert_eq!(refresh.action(), RefreshAction::DownloadCovers(vec![]));
    refresh.advance(RefreshEvent::Downloaded(vec![]));
    refresh.advance(RefreshEvent::Downloaded(vec![]));
    assert_eq!(refresh.action(), RefreshAction::Finished(Ok(())));
}

#[test]
fn a_failure_before_the_downloads_ends_the_refresh() {
    let mut refresh = Refresh::new();
    refresh.advance(RefreshEvent::Failed);
    assert_eq!(refresh.action(), RefreshAction::Finished(Err(RefreshStage::Storefront)));
    refresh.advance(RefreshEvent::Owned(vec![]));
    assert_eq!(refresh.action(), RefreshAction::Finished(Err(RefreshStage::Storefront)));

    let mut refresh = Refresh::new();
    refresh.advance(RefreshEvent::Owned(vec![owned(1, "a")]));
    refresh.advance(RefreshEvent::Failed);
    assert_eq!(refresh.action(), RefreshAction::Finished(Err(RefreshStage::Catalog)));

    let mut refresh = Refresh::new();
    refresh.advance(RefreshEvent::Owned(vec![owned(1, "a")]));
    refresh.advance(RefreshEvent::Resolved(vec![record(1, "1", None, &[])]));
    refresh.advance(RefreshEvent::Failed);
    assert_eq!(refresh.action(), RefreshAction::Finished(Err(RefreshStage::Store)));

    let mut refresh = Refresh::new();
    refresh.advance(RefreshEvent::Owned(vec![owned(1, "a")]));
    refresh.advance(RefreshEvent::Resolved(vec![record(1, "1", None, &[])]));
    refresh.advance(RefreshEvent::Done);
    refresh.advance(RefreshEvent::Failed);
    assert_eq!(refresh.action(), RefreshAction::Finished(Err(RefreshStage::Assets)));

    let mut refresh = Refresh::new();
    refresh.advance(RefreshEvent::Owned(vec![owned(1, "a"), owned(2, "b")]));
    refresh.advance(RefreshEvent::Resolved(vec![
        record(1, "1", None, &[]),
        record(2, "2", None, &[]),
    ]));
    refresh.advance(RefreshEvent::Done);
    refresh.advance(RefreshEvent::Done);
    refresh.advance(RefreshEvent::Inserted(5));
    refresh.advance(RefreshEvent::Failed);
    assert_eq!(refresh.action(), RefreshAction::Finished(Err(RefreshStage::Store)));
}

#[test]
fn a_download_that_fails_does_not_end_the_refresh() {
    let mut refresh = Refresh::new();
    refresh.advance(RefreshEvent::Owned(vec![owned(1, "a")]));
    refresh.advance(RefreshEvent::Resolved(vec![record(1, "1", Some("c"), &["x"])]));
    refresh.advance(RefreshEvent::Done);
    refresh.advance(RefreshEvent::Done);
    refresh.advance(RefreshEvent::Inserted(5));
    refresh.advance(RefreshEvent::Failed);
    assert_eq!(refresh.current_phase(), RefreshPhase::DownloadArtworks);
    refresh.advance(RefreshEvent::Failed);
    assert_eq!(refresh.action(), RefreshAction::Finished(Ok(())));
}

#[test]
fn image_ids_are_collected_once_each() {
    let records = vec![
        record(1, "1", Some("c1"), &["a", "b"]),
        record(2, "2", None, &["b", "c", "a"]),
        record(3, "3", Some("c1"), &[]),
        record(4, "4", Some("c4"), &["d"]),
    ];
    assert_eq!(collect_cover_ids(&records), vec!["c1", "c4"]);
    assert_eq!(collect_artwork_ids(&records), vec!["a", "b", "c", "d"]);
    assert_eq!(collect_cover_ids(&vec![]), Vec::<String>::new());
}

#[test]
fn the_place_of_an_image_is_that_of_its_last_pair() {
    let paths = vec![pair("a", "/1"), pair("b", "/2"), pair("a", "/3")];
    assert_eq!(find_path(&paths, &"a".to_string()), Some("/3".to_string()));
    assert_eq!(find_path(&paths, &"b".to_string()), Some("/2".to_string()));
    assert_eq!(find_path(&paths, &"c".to_string()), None);
    let game = record(1, "1", Some("a"), &["c", "b", "a"]);
    assert_eq!(cover_update(&game, &paths), Some(pair("a", "/3")));
    assert_eq!(artwork_updates(&game, &paths), vec![pair("b", "/2"), pair("a", "/3")]);
    assert_eq!(cover_update(&record(1, "1", None, &[]), &paths), None);
    assert_eq!(cover_update(&record(1, "1", Some("z"), &[]), &paths), None);
}

#[test]
fn a_game_is_installed_where_its_manifest_says_so() {
    let client = SteamClient::new("/lib".to_string());
    let manifest = "\"BytesToDownload\" \"9\"\n\"BytesDownloaded\" \"9\"\n";
    assert_eq!(get_game(stored_game(Some("440")), &client, Some(manifest)).is_installed, Some(true));
    assert_eq!(get_game(stored_game(Some("440")), &client, None).is_installed, Some(false));
    assert_eq!(get_game(stored_game(None), &client, Some(manifest)).is_installed, Some(false));
    let pending = "\"BytesToDownload\" \"9\"\n\"BytesDownloaded\" \"3\"\n";
    let game = get_game(stored_game(Some("440")), &client, Some(pending));
    assert_eq!(game.is_installed, Some(false));
    assert_eq!(game.name, "Halo");
    assert_eq!(game.store_id, Some("440".to_string()));
}

#[test]
fn errors_name_the_part_that_failed() {
    assert_eq!(
        RocadeError::Database("no such table".to_string()).to_string(),
        "database error: no such table"
    );
    assert_eq!(
        RocadeError::Steam(SteamError::Request("timeout".to_string())).to_string(),
        "steam api error: http request failed: timeout"
    );
    assert_eq!(
        RocadeError::SteamLocalClient("gone".to_string()).to_string(),
        "steam local client error: gone"
    );
    assert_eq!(
        RocadeError::Igdb(IgdbError::NotFound).to_string(),
        "igdb error: Unable to find game"
    );
    assert_eq!(
        RocadeError::Asset(AssetError::Filesystem("full".to_string())).to_string(),
        "asset error: filesystem error: full"
    );
    assert_eq!(
        SteamError::InvalidResponse("x".to_string()).to_string(),
        "invalid response: x"
    );
    assert_eq!(
        SteamError::InvalidData("eof".to_string()).to_string(),
        "unable to parse steam data: eof"
    );
    assert_eq!(
        SteamError::ClientError("no handler".to_string()).to_string(),
        "unable to communicate with steam client: no handler"
    );
    assert_eq!(
        SteamError::ClientConfigError("path".to_string()).to_string(),
        "invalid steam client config"
    );
}

#[test]
fn the_owned_games_are_asked_for_with_the_key_and_the_profile() {
    let client = SteamApiClient::new("KEY".to_string(), "7656".to_string());
    let request = client.get_games();
    assert_eq!(
        request.url,
        "https://api.steampowered.com/IPlayerService/GetOwnedGames/v0001"
    );
    assert_eq!(
        request.query,
        vec![
            pair("key", "KEY"),
            pair("steamid", "7656"),
            pair("include_appinfo", "1"),
            pair("format", "json")
        ]
    );
    let answer = GameListResponse {
        response: GameList { game_count: 2, games: vec![owned(440, "TF2"), owned(400, "Portal")] },
    };
    let games = SteamApiClient::games_of(answer);
    assert_eq!(owned_ids(&games), vec![440, 400]);
    assert_eq!(owned_ids(&vec![]), Vec::<u64>::new());
}

#[test]
fn the_first_form_of_the_request_is_one_url() {
    let client = rocade::steam::SteamApiClient::new("KEY".to_string(), "7656".to_string());
    assert_eq!(
        client.get_games(),
        "http://api.steampowered.com/IPlayerService/GetOwnedGames/v0001/?key=KEY&steamid=7656&format=json"
    );
    let list = rocade::steam::GameList {
        count: 1,
        games: vec![rocade::steam::Game {
            appid: 440,
            name: "TF2".to_string(),
            playtime_2weeks: 0,
            playtime_forever: 10,
            img_icon_url: None,
            img_logo_url: None,
        }],
    };
    assert_eq!(rocade::steam::SteamApiClient::games_of(list)[0].appid, 440);
    let state = SteamState::new("KEY".to_string(), "7656".to_string());
    assert_eq!(state.get_key(), "KEY");
    assert_eq!(state.get_profile_id(), "7656");
}
