use shaco::json::from_str;
use shaco::model::ingame::{AllGameData, GameMode, IngameEvents};

fn event_text(id: usize) -> String {
    let time = id as f64 * 1.5;
    match id % 8 {
        0 => format!(r#"{{"EventID": {id}, "EventName": "GameStart", "EventTime": {time}}}"#),
        1 => format!(r#"{{"EventID": {id}, "EventName": "MinionsSpawning", "EventTime": {time}}}"#),
        2 => format!(
            r#"{{"EventID": {id}, "EventName": "ChampionKill", "EventTime": {time}, "KillerName": "Player{id}", "VictimName": "Other", "Assisters": ["A", "B"]}}"#
        ),
        3 => format!(
            r#"{{"EventID": {id}, "EventName": "DragonKill", "EventTime": {time}, "KillerName": "Player{id}", "DragonType": "Fire", "Stolen": "False", "Assisters": []}}"#
        ),
        4 => format!(
            r#"{{"EventID": {id}, "EventName": "TurretKilled", "EventTime": {time}, "KillerName": "Minion_T200L1S1N1", "TurretKilled": "Turret_T1_L_03_A", "Assisters": []}}"#
        ),
        5 => format!(
            r#"{{"EventID": {id}, "EventName": "Multikill", "EventTime": {time}, "KillerName": "Player{id}", "KillStreak": 3}}"#
        ),
        6 => format!(
            r#"{{"EventID": {id}, "EventName": "BaronKill", "EventTime": {time}, "KillerName": "Player{id}", "Stolen": "True", "Assisters": ["A"]}}"#
        ),
        _ => format!(
            r#"{{"EventID": {id}, "EventName": "InhibRespawningSoon", "EventTime": {time}, "InhibRespawningSoon": "Barracks_T1_C1"}}"#
        ),
    }
}

fn event_list(count: usize) -> String {
    let events: Vec<String> = (0..count).map(event_text).collect();
    format!(r#"{{"Events": [{}]}}"#, events.join(", "))
}

fn player(number: usize, arena: bool) -> String {
    let position = if arena { "NONE" } else { "BOTTOM" };
    format!(
        r#"{{"championName": "Champion{number}", "isBot": false, "isDead": false, "items": [{{"canUse": false, "consumable": false, "count": 1, "displayName": "Item", "itemID": 1001, "price": 300, "rawDescription": "d", "rawDisplayName": "n", "slot": 0}}], "level": {number}, "position": "{position}", "rawChampionName": "raw", "respawnTimer": 0.0, "runes": {{"keystone": {{"displayName": "k", "id": 1, "rawDescription": "d", "rawDisplayName": "n"}}, "primaryRuneTree": {{"displayName": "p", "id": 2, "rawDescription": "d", "rawDisplayName": "n"}}, "secondaryRuneTree": {{"displayName": "s", "id": 3, "rawDescription": "d", "rawDisplayName": "n"}}}}, "scores": {{"assists": 0, "creepScore": 10, "deaths": 1, "kills": 2, "wardScore": 0.0}}, "skinID": 0, "summonerName": "Player{number}", "summonerSpells": {{"summonerSpellOne": {{"displayName": "a", "rawDescription": "d", "rawDisplayName": "n"}}, "summonerSpellTwo": {{"displayName": "b", "rawDescription": "d", "rawDisplayName": "n"}}}}, "team": "ORDER"}}"#
    )
}

fn all_game_data(mode: &str, map: u32, players: usize, events: usize) -> String {
    let arena = mode == "CHERRY";
    let all_players: Vec<String> = (0..players).map(|n| player(n, arena)).collect();
    format!(
        r#"{{"activePlayer": {{"error": "Spectator mode doesn't currently support this feature"}}, "allPlayers": [{}], "events": {}, "gameData": {{"gameMode": "{mode}", "gameTime": 312.5, "mapName": "Map{map}", "mapNumber": {map}, "mapTerrain": "Default"}}}}"#,
        all_players.join(", "),
        event_list(events)
    )
}

// The documents stand in for captures of real games: the same shapes, made here.
#[test]
fn deserialize_data_test() {
    let test_data1 = event_list(127);
    let test_data2 = event_list(150);
    let test_data3 = all_game_data("ARAM", 12, 10, 40);
    let test_data4 = all_game_data("ARAM", 12, 10, 0);
    let test_data5 = all_game_data("CHERRY", 30, 8, 12);
    let test_data6 = all_game_data("CHERRY", 30, 8, 1);
    let test_data7 = all_game_data("CHERRY", 30, 4, 3);
    let test_data8 = all_game_data("CHERRY", 30, 8, 25);
    let test_data9 = all_game_data("CHERRY", 30, 2, 9);
    let test_data10 = all_game_data("CHERRY", 30, 16, 30);
    let test_data11 = all_game_data("CHERRY", 30, 16, 0);
    let test_data12 = all_game_data("CHERRY", 30, 0, 0);

    assert!(from_str::<IngameEvents>(&test_data1).is_some());
    assert!(from_str::<IngameEvents>(&test_data2).is_some());
    assert!(from_str::<AllGameData>(&test_data3).is_some());
    assert!(from_str::<AllGameData>(&test_data4).is_some());
    assert!(from_str::<AllGameData>(&test_data5).is_some());
    assert!(from_str::<AllGameData>(&test_data6).is_some());
    assert!(from_str::<AllGameData>(&test_data7).is_some());
    assert!(from_str::<AllGameData>(&test_data8).is_some());
    assert!(from_str::<AllGameData>(&test_data9).is_some());
    assert!(from_str::<AllGameData>(&test_data10).is_some());
    assert!(from_str::<AllGameData>(&test_data11).is_some());
    assert!(from_str::<AllGameData>(&test_data12).is_some());
    assert!(from_str::<AllGameData>(&test_data10).unwrap().all_players.len() == 16);

    assert_eq!(from_str::<IngameEvents>(&test_data1).unwrap().events.len(), 127);
    assert_eq!(from_str::<IngameEvents>(&test_data2).unwrap().events.len(), 150);
}

#[test]
fn deserialize_game_mode() {
    let vec = vec![
        "CLASSIC",
        "ODIN",
        "ARAM",
        "TUTORIAL",
        "URF",
        "DOOMBOTSTEEMO",
        "ONEFORALL",
        "ASCENSION",
        "FIRSTBLOOD",
        "KINGPORO",
        "SIEGE",
        "ASSASSINATE",
        "ARSR",
        "DARKSTAR",
        "STARGUARDIAN",
        "PROJECT",
        "GAMEMODEX",
        "ODYSSEY",
        "NEXUSBLITZ",
        "ULTBOOK",
        "CHERRY",
    ];

    vec.iter().for_each(|game_mode| {
        from_str::<GameMode>(&format!("\"{game_mode}\"")).unwrap();
    })
}

#[test]
fn listed_game_modes_are_known() {
    let listed = vec![
        ("CLASSIC", GameMode::Classic),
        ("ODIN", GameMode::Odin),
        ("ARAM", GameMode::Aram),
        ("TUTORIAL", GameMode::Tutorial),
        ("TUTORIAL_MODULE_1", GameMode::Tutorial1),
        ("TUTORIAL_MODULE_2", GameMode::Tutorial2),
        ("TUTORIAL_MODULE_3", GameMode::Tutorial3),
        ("URF", GameMode::Urf),
        ("PRACTICETOOL", GameMode::PracticeTool),
        ("DOOMBOTSTEEMO", GameMode::DoombotsTeemo),
        ("ONEFORALL", GameMode::OneForAll),
        ("ASCENSION", GameMode::Ascension),
        ("FIRSTBLOOD", GameMode::FirstBlood),
        ("KINGPORO", GameMode::KingPoro),
        ("SIEGE", GameMode::Siege),
        ("ASSASSINATE", GameMode::Assassinate),
        ("ARSR", GameMode::ARSR),
        ("DARKSTAR", GameMode::Darkstar),
        ("STARGUARDIAN", GameMode::StarGuardian),
        ("PROJECT", GameMode::Project),
        ("GAMEMODEX", GameMode::NexusBlitz),
        ("NEXUSBLITZ", GameMode::NexusBlitz),
        ("ODYSSEY", GameMode::Odyssey),
        ("ULTBOOK", GameMode::UltBook),
        ("CHERRY", GameMode::Arena),
    ];
    for (name, mode) in listed {
        assert_eq!(GameMode::from_wire(name), mode, "{name}");
        assert_eq!(GameMode::lookup(name), Some(mode), "{name}");
    }
}
