use shaco::error::{IngameClientError, ProcessInfoError};
use shaco::ingame::{
    active_player, active_player_abilities_url, active_player_name, active_player_name_url,
    active_player_runes_url, active_player_url, all_game_data_url, decode_answer, event_data,
    event_data_url, game_stats_url, help_url, is_spectator_mode, player_items_url,
    player_list_url, player_main_runes_url, player_scores_url, player_summoner_spells_url, url,
    url_with, PORT,
};
use shaco::model::ingame::{GameStats, TeamId};
use shaco::utils::process_info::{find_flag, get_auth_info, Credentials, ProcessEntry};

#[test]
fn telemetry_addresses() {
    assert_eq!(PORT, 2999);
    assert_eq!(url("/x"), "https://127.0.0.1:2999/x");
    assert_eq!(url_with("/x", "k", "v w"), "https://127.0.0.1:2999/x?k=v w");
    assert_eq!(game_stats_url(), "https://127.0.0.1:2999/GetLiveclientdataGamestats");
    assert_eq!(help_url(), "https://127.0.0.1:2999/Help");
    assert_eq!(active_player_url(), "https://127.0.0.1:2999/GetLiveclientdataActiveplayer");
    assert_eq!(
        active_player_abilities_url(),
        "https://127.0.0.1:2999/GetLiveclientdataActiveplayerabilities"
    );
    assert_eq!(
        active_player_name_url(),
        "https://127.0.0.1:2999/GetLiveclientdataActiveplayername"
    );
    assert_eq!(
        active_player_runes_url(),
        "https://127.0.0.1:2999/GetLiveclientdataActiveplayerrunes"
    );
}

#[test]
fn addresses_with_a_cursor() {
    assert_eq!(
        event_data_url(None),
        "https://127.0.0.1:2999/GetLiveclientdataEventdata?eventID=0"
    );
    assert_eq!(
        event_data_url(Some(0)),
        "https://127.0.0.1:2999/GetLiveclientdataEventdata?eventID=0"
    );
    assert_eq!(
        event_data_url(Some(127)),
        "https://127.0.0.1:2999/GetLiveclientdataEventdata?eventID=127"
    );
    assert_eq!(
        event_data_url(Some(4294967296)),
        "https://127.0.0.1:2999/GetLiveclientdataEventdata?eventID=4294967296"
    );
    assert_eq!(
        event_data_url(Some(u64::MAX)),
        "https://127.0.0.1:2999/GetLiveclientdataEventdata?eventID=18446744073709551615"
    );
    assert_eq!(
        all_game_data_url(None),
        "https://127.0.0.1:2999/GetLiveclientdataAllgamedata?eventID=0"
    );
    assert_eq!(
        all_game_data_url(Some(10)),
        "https://127.0.0.1:2999/GetLiveclientdataAllgamedata?eventID=10"
    );
}

#[test]
fn addresses_with_a_name() {
    assert_eq!(
        player_items_url("Faker"),
        "https://127.0.0.1:2999/GetLiveclientdataPlayeritems?summonerName=Faker"
    );
    assert_eq!(
        player_main_runes_url("Hide on bush"),
        "https://127.0.0.1:2999/GetLiveclientdataPlayermainrunes?summonerName=Hide on bush"
    );
    assert_eq!(
        player_scores_url(""),
        "https://127.0.0.1:2999/GetLiveclientdataPlayerscores?summonerName="
    );
    assert_eq!(
        player_summoner_spells_url("a#b"),
        "https://127.0.0.1:2999/GetLiveclientdataPlayersummonerspells?summonerName=a#b"
    );
    assert_eq!(
        player_list_url(None),
        "https://127.0.0.1:2999/GetLiveclientdataPlayerlist?teamID=ALL"
    );
    assert_eq!(
        player_list_url(Some(TeamId::Order)),
        "https://127.0.0.1:2999/GetLiveclientdataPlayerlist?teamID=ORDER"
    );
    assert_eq!(
        player_list_url(Some(TeamId::Unknown)),
        "https://127.0.0.1:2999/GetLiveclientdataPlayerlist?teamID=UNKNOWN"
    );
}

#[test]
fn control_api_addresses() {
    assert_eq!(
        shaco::rest::url(51234, "/lol-gameflow/v1/session"),
        "https://127.0.0.1:51234/lol-gameflow/v1/session"
    );
    assert_eq!(shaco::rest::url(80, ""), "https://127.0.0.1:80");
}

#[test]
fn name_comes_without_its_quotes() {
    assert_eq!(active_player_name("\"Faker\""), "Faker");
    assert_eq!(active_player_name("\"Hide on bush#KR1\""), "Hide on bush#KR1");
    assert_eq!(active_player_name("\"\""), "");
    assert_eq!(active_player_name("\""), "");
    assert_eq!(active_player_name(""), "");
    assert_eq!(active_player_name("abc"), "b");
    assert_eq!(active_player_name("\"é\""), "é");
}

#[test]
fn spectator_verdicts() {
    let connection = IngameClientError::ConnectionError("down".to_string());
    assert_eq!(is_spectator_mode(true, Ok(())), Ok(false));
    assert_eq!(
        is_spectator_mode(true, Err(IngameClientError::ApiNotAvailableInSpectatorMode)),
        Ok(true)
    );
    assert_eq!(is_spectator_mode(true, Err(connection.clone())), Err(connection.clone()));
    assert_eq!(
        is_spectator_mode(true, Err(IngameClientError::ApiNotAvailableDuringLoadingScreen)),
        Err(IngameClientError::ApiNotAvailableDuringLoadingScreen)
    );
    for probe in [Ok(()), Err(IngameClientError::ApiNotAvailableInSpectatorMode), Err(connection)]
    {
        assert_eq!(
            is_spectator_mode(false, probe),
            Err(IngameClientError::ApiNotAvailableDuringLoadingScreen)
        );
    }
}

#[test]
fn failed_requests_are_sorted_by_status() {
    let line = |code: u16, text: &str| Some((code, text.to_string()));
    let message = || "boom".to_string();
    assert_eq!(
        IngameClientError::describe(line(400, "400 Bad Request"), false, message()),
        IngameClientError::ApiNotAvailableInSpectatorMode
    );
    assert_eq!(
        IngameClientError::describe(line(404, "404 Not Found"), true, message()),
        IngameClientError::ApiNotAvailableDuringLoadingScreen
    );
    assert_eq!(
        IngameClientError::describe(line(401, "401 Unauthorized"), false, message()),
        IngameClientError::ClientError("401 Unauthorized".to_string())
    );
    assert_eq!(
        IngameClientError::describe(line(499, "499 <unknown status code>"), true, message()),
        IngameClientError::ClientError("499 <unknown status code>".to_string())
    );
    assert_eq!(
        IngameClientError::describe(line(500, "500 Internal Server Error"), false, message()),
        IngameClientError::ServerError("500 Internal Server Error".to_string())
    );
    assert_eq!(
        IngameClientError::describe(line(599, "599"), false, message()),
        IngameClientError::ServerError("599".to_string())
    );
    assert_eq!(
        IngameClientError::describe(line(600, "600"), false, message()),
        IngameClientError::ConnectionError("boom".to_string())
    );
    assert_eq!(
        IngameClientError::describe(line(399, "399"), true, message()),
        IngameClientError::DeserializationError("boom".to_string())
    );
    assert_eq!(
        IngameClientError::describe(None, true, message()),
        IngameClientError::DeserializationError("boom".to_string())
    );
    assert_eq!(
        IngameClientError::describe(None, false, message()),
        IngameClientError::ConnectionError("boom".to_string())
    );
}

fn failed_with(status: u16) -> reqwest::Error {
    let response = http::Response::builder().status(status).body("").unwrap();
    reqwest::Response::from(response).error_for_status().unwrap_err()
}

#[test]
fn errors_of_the_http_client_are_sorted() {
    assert_eq!(
        IngameClientError::from(failed_with(400)),
        IngameClientError::ApiNotAvailableInSpectatorMode
    );
    assert_eq!(
        IngameClientError::from(failed_with(404)),
        IngameClientError::ApiNotAvailableDuringLoadingScreen
    );
    assert_eq!(
        IngameClientError::from(failed_with(403)),
        IngameClientError::ClientError("403 Forbidden".to_string())
    );
    assert_eq!(
        IngameClientError::from(failed_with(503)),
        IngameClientError::ServerError("503 Service Unavailable".to_string())
    );
    let no_url = reqwest::Client::new().get("no url at all").build().unwrap_err();
    let text = no_url.to_string();
    assert!(no_url.status().is_none());
    assert!(!no_url.is_decode());
    assert_eq!(IngameClientError::from(no_url), IngameClientError::ConnectionError(text));
}

#[test]
fn ingame_errors_as_text() {
    assert_eq!(
        IngameClientError::ApiNotAvailableInSpectatorMode.message(),
        "ApiNotAvailableInSpectatorMode"
    );
    assert_eq!(
        IngameClientError::ApiNotAvailableDuringLoadingScreen.message(),
        "ApiNotAvailableDuringLoadingScreen"
    );
    assert_eq!(
        IngameClientError::ClientError("403 Forbidden".to_string()).message(),
        "ClientError(\"403 Forbidden\")"
    );
    assert_eq!(
        IngameClientError::ServerError("x".to_string()).message(),
        "ServerError(\"x\")"
    );
    assert_eq!(
        IngameClientError::DeserializationError("a \"b\"\n".to_string()).message(),
        "DeserializationError(\"a \\\"b\\\"\\n\")"
    );
    let error = IngameClientError::ConnectionError("down".to_string());
    assert_eq!(error.message(), format!("{error:?}"));
}

#[test]
fn answers_are_decoded_or_refused() {
    let stats = r#"{"gameMode": "CLASSIC", "gameTime": 1.5, "mapName": "Map11", "mapNumber": 11, "mapTerrain": "Default"}"#;
    assert_eq!(decode_answer::<GameStats>(stats).unwrap().map_number, 11);
    let refused = IngameClientError::DeserializationError("error decoding response body".to_string());
    assert_eq!(decode_answer::<GameStats>("{}"), Err(refused.clone()));
    assert_eq!(decode_answer::<GameStats>("<html>"), Err(refused.clone()));
    assert_eq!(event_data(r#"{"Events": []}"#), Ok(vec![]));
    let one = r#"{"Events": [{"EventID": 3, "EventName": "GameStart", "EventTime": 1}]}"#;
    assert_eq!(event_data(one).unwrap()[0].get_event_id(), 3);
    assert_eq!(event_data("[]"), Err(refused));
}

#[test]
fn spectator_has_no_active_player() {
    let answer: serde_json::Value =
        serde_json::from_str(r#"{"error": "Spectator mode doesn't currently support this feature"}"#)
            .unwrap();
    assert_eq!(
        active_player(&answer),
        Err(IngameClientError::DeserializationError(
            "Spectator mode doesn't currently support this feature".to_string()
        ))
    );
    let other: serde_json::Value = serde_json::from_str(r#"{"error": 5}"#).unwrap();
    assert_eq!(
        active_player(&other),
        Err(IngameClientError::DeserializationError("error decoding response body".to_string()))
    );
}

fn process(name: &str, command: &[&str]) -> ProcessEntry {
    ProcessEntry {
        name: name.to_string(),
        command: command.iter().map(|a| a.to_string()).collect(),
    }
}

#[test]
fn credentials_come_from_the_command_line() {
    let processes = vec![
        process("bash", &["--app-port=1", "--remoting-auth-token=no"]),
        process(
            "LeagueClientUx.exe",
            &[
                "C:/Riot Games/LeagueClientUx.exe",
                "--riotclient-app-port=50000",
                "--remoting-auth-token=Abc123_-xyz",
                "--app-port=51234",
                "--app-port=9",
            ],
        ),
        process("LeagueClientUx.exe", &["--app-port=2", "--remoting-auth-token=second"]),
    ];
    assert_eq!(
        get_auth_info(&processes, "LeagueClientUx.exe"),
        Ok(Credentials { port: 51234, auth: "cmlvdDpBYmMxMjNfLXh5eg==".to_string() })
    );
    assert_eq!(
        get_auth_info(&processes, "LeagueClientUx.exe").unwrap().basic_auth(),
        "Basic cmlvdDpBYmMxMjNfLXh5eg=="
    );
    assert_eq!(
        get_auth_info(&processes, "LeagueClientUx"),
        Err(ProcessInfoError::ProcessNotAvailable)
    );
    assert_eq!(get_auth_info(&vec![], "x"), Err(ProcessInfoError::ProcessNotAvailable));
}

#[test]
fn missing_arguments_have_their_errors() {
    let no_port = vec![process("client", &["--remoting-auth-token=t", "-app-port=1"])];
    assert_eq!(get_auth_info(&no_port, "client"), Err(ProcessInfoError::PortNotFound));
    let no_token = vec![process("client", &["--app-port=1", "--remoting-auth-token"])];
    assert_eq!(get_auth_info(&no_token, "client"), Err(ProcessInfoError::AuthTokenNotFound));
    let neither = vec![process("client", &[])];
    assert_eq!(get_auth_info(&neither, "client"), Err(ProcessInfoError::PortNotFound));
    let empty = vec![process("client", &["--app-port=007", "--remoting-auth-token="])];
    assert_eq!(
        get_auth_info(&empty, "client"),
        Ok(Credentials { port: 7, auth: "cmlvdDo=".to_string() })
    );
    for port in ["", "x", "12a", "-1", "+1", " 1", "65536", "99999999999999999999", "1.0"] {
        let flag = format!("--app-port={port}");
        let odd = vec![process("client", &[flag.as_str(), "--remoting-auth-token=t"])];
        assert_eq!(get_auth_info(&odd, "client"), Err(ProcessInfoError::PortNotFound), "{port}");
    }
    for (port, number) in [("0", 0), ("65535", 65535), ("0000065535", 65535), ("443", 443)] {
        let flag = format!("--app-port={port}");
        let fine = vec![process("client", &[flag.as_str(), "--remoting-auth-token=t"])];
        assert_eq!(get_auth_info(&fine, "client").unwrap().port, number, "{port}");
    }
    let command = vec!["a".to_string(), "--x=1".to_string(), "--x=2".to_string()];
    assert_eq!(find_flag(&command, "--x="), Some("1".to_string()));
    assert_eq!(find_flag(&command, "--y="), None);
    assert_eq!(find_flag(&command, ""), Some("a".to_string()));
}

#[test]
fn process_errors_as_text() {
    assert_eq!(
        ProcessInfoError::ProcessNotAvailable.message(),
        "Riot/League client process could not be found"
    );
    assert_eq!(
        ProcessInfoError::PortNotFound.message(),
        "API port could not be parsed from process arguments"
    );
    assert_eq!(
        ProcessInfoError::AuthTokenNotFound.message(),
        "API auth token could not be parsed from process arguments"
    );
}
