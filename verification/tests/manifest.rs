use std::path::PathBuf;

use rocade::client::steam::{manifest_reports_installed, SteamClient};

/// The reading of a manifest written with the standard library's own text
/// functions.
fn reference(content: &str) -> bool {
    let mut bytes_to_download: Option<i64> = None;
    let mut bytes_downloaded: Option<i64> = None;
    for line in content.lines() {
        let mut parts = line.trim().split_whitespace();
        if let (Some(property), Some(value)) = (parts.next(), parts.next()) {
            match property {
                "\"BytesToDownload\"" => {
                    bytes_to_download = value.trim_matches('"').parse().ok();
                }
                "\"BytesDownloaded\"" => {
                    bytes_downloaded = value.trim_matches('"').parse().ok();
                }
                _ => continue,
            }
            if bytes_to_download.is_some() && bytes_downloaded.is_some() {
                break;
            }
        }
    }
    matches!((bytes_to_download, bytes_downloaded), (Some(a), Some(b)) if a == b)
}

const INSTALLED: &str = "\"AppState\"\n{\n\t\"appid\"\t\t\"440\"\n\t\"name\"\t\t\"Team Fortress 2\"\n\t\"BytesToDownload\"\t\t\"1024\"\n\t\"BytesDownloaded\"\t\t\"1024\"\n}\n";

#[test]
fn a_manifest_with_equal_byte_counts_is_installed() {
    assert!(manifest_reports_installed(INSTALLED));
    let client = SteamClient::new("/lib".to_string());
    assert!(client.is_steam_game_installed(Some(INSTALLED)));
}

#[test]
fn a_missing_manifest_is_not_installed() {
    let client = SteamClient::new("/lib".to_string());
    assert!(!client.is_steam_game_installed(None));
    assert!(!client.is_steam_game_installed(Some("")));
}

#[test]
fn a_pending_download_is_not_installed() {
    let content = "\"BytesToDownload\" \"2048\"\n\"BytesDownloaded\" \"1024\"\n";
    assert!(!manifest_reports_installed(content));
}

#[test]
fn one_byte_count_alone_is_not_installed() {
    assert!(!manifest_reports_installed("\"BytesToDownload\" \"0\"\n"));
    assert!(!manifest_reports_installed("\"BytesDownloaded\" \"0\"\n"));
}

#[test]
fn a_later_value_that_is_no_number_unsets_the_count() {
    let content = "\"BytesToDownload\" \"5\"\n\"BytesToDownload\" \"x\"\n\"BytesDownloaded\" \"5\"\n";
    assert!(!manifest_reports_installed(content));
}

#[test]
fn reading_stops_once_both_counts_are_known() {
    let content = "\"BytesToDownload\" \"5\"\n\"BytesDownloaded\" \"5\"\n\"BytesToDownload\" \"7\"\n";
    assert!(manifest_reports_installed(content));
    let content = "\"BytesDownloaded\" \"5\"\n\"BytesToDownload\" \"5\"\n\"BytesDownloaded\" \"x\"\n";
    assert!(manifest_reports_installed(content));
}

#[test]
fn manifests_are_read_like_the_standard_library_reads_them() {
    let cases = [
        "",
        "\n\n",
        INSTALLED,
        "\"BytesToDownload\"\t\"10\"\r\n\"BytesDownloaded\"\t\"10\"\r\n",
        "\"BytesToDownload\" 10\n\"BytesDownloaded\" \"\"10\"\"",
        "\"BytesToDownload\" \"+10\"\n\"BytesDownloaded\" \"10\"",
        "\"BytesToDownload\" \"-0\"\n\"BytesDownloaded\" \"0\"",
        "\"BytesToDownload\" \"1 0\"\n\"BytesDownloaded\" \"1\"",
        "\"BytesToDownload\" \"1\" \"2\"\n\"BytesDownloaded\" \"1\" trailing words",
        "BytesToDownload \"1\"\n\"BytesDownloaded\" \"1\"",
        "\"bytestodownload\" \"1\"\n\"BytesDownloaded\" \"1\"",
        "\"BytesToDownload\"\n\"1\"\n\"BytesDownloaded\" \"1\"",
        "\"BytesToDownload\"\u{00A0}\"3\"\n\"BytesDownloaded\"\u{3000}\"3\"",
        "\"BytesToDownload\" \"3\"\u{0085}\"BytesDownloaded\" \"3\"",
        "\"BytesToDownload\" \"3\"\u{000B}\n\u{000C}\"BytesDownloaded\" \"3\"",
        "\"BytesToDownload\" \"9223372036854775807\"\n\"BytesDownloaded\" \"9223372036854775807\"",
        "\"BytesToDownload\" \"9223372036854775808\"\n\"BytesDownloaded\" \"9223372036854775808\"",
        "\"BytesToDownload\" \"\"\n\"BytesDownloaded\" \"\"",
        "\"BytesToDownload\" \"\"\"\n\"BytesDownloaded\" \"0\"",
        "  \"BytesDownloaded\"   \"77\"   \n\t\"BytesToDownload\"\t\"77\"",
        "\"BytesDownloaded\" \"77\"\r\"BytesToDownload\" \"77\"",
    ];
    for content in cases {
        assert_eq!(manifest_reports_installed(content), reference(content), "{:?}", content);
    }
}

#[test]
fn the_manifest_of_a_game_lies_in_the_library_directory() {
    let client = SteamClient::new("/home/u/.steam/steam/steamapps".to_string());
    assert_eq!(
        client.get_game_manifest_file_path("440"),
        Ok("/home/u/.steam/steam/steamapps/appmanifest_440.acf".to_string())
    );
    let client = SteamClient::new("/lib/".to_string());
    assert_eq!(
        client.get_game_manifest_file_path("10"),
        Ok("/lib/appmanifest_10.acf".to_string())
    );
    let client = SteamClient::new(String::new());
    assert_eq!(client.get_game_manifest_file_path("10"), Ok("appmanifest_10.acf".to_string()));
}

#[test]
fn the_manifest_path_is_the_one_that_path_buf_gives() {
    let dirs = ["/home/u/steamapps", "/lib/", "steamapps", "/", "", ".", "/lib/.", "a.b", "//"];
    let ids = [
        "440", "1", "12.5", "1.2.3", "", ".", "..", "...", "5.", ".5", "a.b/c", "a/b.c", "a.b/c.d",
        "x/", "x//", "x/.", "x/./", "x/./.", "x/..", "x/../", "/..", "/.", "/", "x/.foo",
        "x/.foo.bar", "x//y.z//", "a/./b", "x/...", "x/a.", "x/.a.", "x/..a", "x/a..b", "../..",
        "x/. ", "x/.acf", "1.acf",
    ];
    for dir in dirs {
        for id in ids {
            let mut expected = PathBuf::from(dir);
            expected.push(format!("appmanifest_{}", id));
            expected.set_extension("acf");
            let client = SteamClient::new(dir.to_string());
            assert_eq!(
                client.get_game_manifest_file_path(id),
                Ok(expected.to_string_lossy().to_string()),
                "{:?} {:?}",
                dir,
                id
            );
        }
    }
}

#[test]
fn the_extension_is_cut_within_the_last_component() {
    let client = SteamClient::new("/lib".to_string());
    assert_eq!(
        client.get_game_manifest_file_path("a.b/c"),
        Ok("/lib/appmanifest_a.b/c.acf".to_string())
    );
    assert_eq!(
        client.get_game_manifest_file_path("12.5"),
        Ok("/lib/appmanifest_12.acf".to_string())
    );
    assert_eq!(
        client.get_game_manifest_file_path("x/.."),
        Ok("/lib/appmanifest_x/..".to_string())
    );
    assert_eq!(
        client.get_game_manifest_file_path("x/.hidden"),
        Ok("/lib/appmanifest_x/.hidden.acf".to_string())
    );
    assert_eq!(
        client.get_game_manifest_file_path("x/y.z//"),
        Ok("/lib/appmanifest_x/y.acf".to_string())
    );
}

#[test]
fn install_and_uninstall_are_asked_by_url() {
    assert_eq!(SteamClient::install_game("440"), "steam://install/440");
    assert_eq!(SteamClient::uninstall_game("440"), "steam://uninstall/440");
}
