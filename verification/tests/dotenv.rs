use std::collections::HashMap;

use rocade::config::RocadeConfig;
use rocade::dotenv::{dotenv, parse_dotenv_file, EnvMap};

/// The reading of an environment file written with the standard library's
/// own text functions.
fn reference(content: &str) -> HashMap<String, String> {
    let mut env_vars = HashMap::new();
    for line in content.lines() {
        let v: Vec<&str> = line.split('=').collect();
        if v.len() == 2 {
            env_vars.insert(v[0].trim().to_string(), v[1].trim().to_string());
        }
    }
    env_vars
}

#[test]
fn lines_with_one_equals_sign_bind_a_variable() {
    let env = parse_dotenv_file("A=1\nB = two \n# comment\nC=x=y\nA=3\n\nD=\n");
    assert_eq!(env.get("A"), Some("3".to_string()));
    assert_eq!(env.get("B"), Some("two".to_string()));
    assert_eq!(env.get("D"), Some(String::new()));
    assert_eq!(env.get("C"), None);
    assert_eq!(env.get("# comment"), None);
    assert_eq!(env.get(""), None);
}

#[test]
fn an_empty_name_can_be_bound() {
    let env = parse_dotenv_file(" = v ");
    assert_eq!(env.get(""), Some("v".to_string()));
}

#[test]
fn environment_files_are_read_like_the_standard_library_reads_them() {
    let cases = [
        "",
        "A=1",
        "A=1\n",
        "A=1\r\nB=2\r\n",
        "A = 1 \n  B=  2",
        "A=1\nA=2\nA==3\nA=4=\n",
        "=\n==\n",
        "STEAM_API_KEY=abc\nSTEAM_PROFILE_ID=765\nTWITCH_CLIENT_ID=id\nTWITCH_CLIENT_SECRET=s3\n",
        "K\u{00A0}=\u{3000}v\nnoequals\n\n\n",
        "a=b\rc",
    ];
    let names = ["", "A", "B", "K", "a", "STEAM_API_KEY", "TWITCH_CLIENT_SECRET", "noequals"];
    for content in cases {
        let expected = reference(content);
        let env = parse_dotenv_file(content);
        for name in names {
            assert_eq!(env.get(name), expected.get(name).cloned(), "{:?} in {:?}", name, content);
        }
    }
}

#[test]
fn a_map_returns_the_last_value_bound() {
    let mut env = EnvMap::new();
    assert_eq!(env.get("k"), None);
    env.insert("k".to_string(), "1".to_string());
    env.insert("j".to_string(), "2".to_string());
    env.insert("k".to_string(), "3".to_string());
    assert_eq!(env.get("k"), Some("3".to_string()));
    assert_eq!(env.get("j"), Some("2".to_string()));
    assert_eq!(env.get("K"), None);
}

#[test]
fn dotenv_hands_the_reason_on_when_there_is_no_file() {
    let r = dotenv(Err("unable to find env file in current or parent directory".to_string()));
    assert_eq!(
        r.err(),
        Some("unable to find env file in current or parent directory".to_string())
    );
    let env = dotenv(Ok("X=1".to_string())).unwrap();
    assert_eq!(env.get("X"), Some("1".to_string()));
}

#[test]
fn a_new_config_is_empty() {
    let c = RocadeConfig::new();
    assert_eq!(c.steam_api_key, "");
    assert_eq!(c.steam_profile_id, "");
    assert_eq!(c.twitch_client_id, "");
    assert_eq!(c.twitch_client_secret, "");
}

#[test]
fn a_config_takes_the_four_credentials() {
    let env = parse_dotenv_file(
        "STEAM_API_KEY=abc\nSTEAM_PROFILE_ID=765\nTWITCH_CLIENT_ID=id\nTWITCH_CLIENT_SECRET=s3\n",
    );
    let c = RocadeConfig::from_env(&env).unwrap();
    assert_eq!(c.steam_api_key, "abc");
    assert_eq!(c.steam_profile_id, "765");
    assert_eq!(c.twitch_client_id, "id");
    assert_eq!(c.twitch_client_secret, "s3");
}

#[test]
fn a_config_without_storefront_credentials_is_refused() {
    let env = parse_dotenv_file("STEAM_API_KEY=abc\nTWITCH_CLIENT_ID=id\nTWITCH_CLIENT_SECRET=s\n");
    assert_eq!(
        RocadeConfig::from_env(&env),
        Err("Unable to load steam config. Missing STEAM_KEY or STEAM_PROFILE_ID in dotenv file"
            .to_string())
    );
}

#[test]
fn a_config_without_provider_credentials_is_refused() {
    let env = parse_dotenv_file("STEAM_API_KEY=abc\nSTEAM_PROFILE_ID=765\nTWITCH_CLIENT_ID=id\n");
    assert_eq!(
        RocadeConfig::from_env(&env),
        Err("Unable to load twitch config. Missing TWITCH_CLIENT_ID or TWITCH_CLIENT_SECRET in dotenv file"
            .to_string())
    );
}

#[test]
fn a_config_without_a_file_is_refused() {
    assert_eq!(
        RocadeConfig::load(Err("whatever".to_string())),
        Err("unable to read config".to_string())
    );
    let c = RocadeConfig::load(Ok(
        "STEAM_API_KEY=a\nSTEAM_PROFILE_ID=b\nTWITCH_CLIENT_ID=c\nTWITCH_CLIENT_SECRET=d".to_string(),
    ))
    .unwrap();
    assert_eq!(c.twitch_client_secret, "d");
}
