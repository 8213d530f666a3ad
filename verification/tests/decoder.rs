use shaco::json::{from_str, FromJson};
use shaco::model::ingame::{
    deserialize_bool, Ace, ActivePlayer, AllGameData, ChampionKill, DragonKill, DragonType,
    FullPlayerRunes, GameEnd, GameEvent, GameMode, GameResult, GameStats, IngameEvents,
    Inhibitor, Killer, MapName, MapTerrain, Multikill, Player, PlayerItem, PlayerScores,
    Position, Real, ResourceType, Rune, StatRune, SummonerSpells, TeamId, Turret, TurretKilled,
};

fn killer(name: &str) -> Killer {
    Killer::from(name.to_string())
}

fn seconds(time: Real) -> f64 {
    f64::from_bits(time.bits)
}

#[test]
fn killer_is_sorted_by_the_first_rule_that_fits() {
    assert_eq!(killer("Minion_T100L1S1N1"), Killer::Minion);
    assert_eq!(killer("Minion"), Killer::Minion);
    assert_eq!(killer("SRU_RiftHerald17.1.1"), Killer::RiftHerald);
    assert_eq!(killer("SRU_Baron12.1.1"), Killer::Baron);
    assert_eq!(killer("SRU_Gromp13.1.1"), Killer::Gromp);
    assert_eq!(killer("SRU_Blue1.1.1"), Killer::Blue);
    assert_eq!(killer("SRU_Murkwolf2.1.1"), Killer::Murkwolf);
    assert_eq!(killer("SRU_Razorbeak3.1.1"), Killer::Razorbeak);
    assert_eq!(killer("SRU_Red4.1.1"), Killer::Red);
    assert_eq!(killer("SRU_Krug5.1.1"), Killer::Krug);
    assert_eq!(killer("Faker"), Killer::Summoner("Faker".to_string()));
    assert_eq!(killer(""), Killer::Summoner("".to_string()));
}

#[test]
fn killer_rules_are_tried_in_order() {
    assert_eq!(killer("Minion_Baron"), Killer::Minion);
    assert_eq!(killer("RedBaron"), Killer::Baron);
    assert_eq!(killer("Baron_RiftHerald_Gromp"), Killer::RiftHerald);
    assert_eq!(killer("KrugRed"), Killer::Red);
    assert_eq!(killer("BlueGromp"), Killer::Gromp);
    assert_eq!(killer("RazorbeakMurkwolf"), Killer::Murkwolf);
    assert_eq!(killer("a Minion"), Killer::Summoner("a Minion".to_string()));
    assert_eq!(killer("minion"), Killer::Summoner("minion".to_string()));
    assert_eq!(killer("xxRedxx"), Killer::Red);
    assert_eq!(killer("Re d"), Killer::Summoner("Re d".to_string()));
}

#[test]
fn killer_can_be_a_dragon_or_a_turret() {
    assert_eq!(killer("SRU_Dragon_Fire"), Killer::Dragon(DragonType::Infernal));
    assert_eq!(killer("Elder"), Killer::Dragon(DragonType::Elder));
    assert_eq!(killer("SRU_Dragon_Air"), Killer::Dragon(DragonType::Cloud));
    assert_eq!(killer("Turret_T1_C_01_A"), Killer::Turret(Turret::Team1C01A));
    assert_eq!(killer("Turret_T2_L_04_A"), Killer::Turret(Turret::Team2L04A));
    assert_eq!(killer("Turret_ChaosTurretShrine_A"), Killer::Turret(Turret::Team2Fountain));
    assert_eq!(killer("Obelisk"), Killer::Turret(Turret::Obelisk));
    assert_eq!(
        killer("Turret_T9_X_01_A"),
        Killer::Summoner("Turret_T9_X_01_A".to_string())
    );
    assert_eq!(killer("SRU_Dragon_Red"), Killer::Red);
}

#[test]
fn killer_as_text() {
    assert_eq!(Killer::Minion.to_text(), "Minion");
    assert_eq!(Killer::Baron.to_text(), "Baron");
    assert_eq!(Killer::RiftHerald.to_text(), "RiftHerald");
    assert_eq!(Killer::Dragon(DragonType::Ocean).to_text(), "Ocean");
    assert_eq!(Killer::Turret(Turret::Team1L03A).to_text(), "Team1L03A");
    assert_eq!(Killer::Summoner("Faker".to_string()).to_text(), "Faker");
    assert_eq!(Killer::from_name("SRU_Krug".to_string()), Killer::Krug);
}

#[test]
fn dragon_tokens() {
    let table = vec![
        ("Fire", DragonType::Infernal),
        ("Water", DragonType::Ocean),
        ("Earth", DragonType::Mountain),
        ("Air", DragonType::Cloud),
        ("Hextech", DragonType::Hextech),
        ("Chemtech", DragonType::Chemtech),
        ("Elder", DragonType::Elder),
    ];
    for (token, dragon) in table {
        assert_eq!(DragonType::lookup(token), Some(dragon));
        assert_eq!(DragonType::lookup(&format!("SRU_Dragon_{token}")), Some(dragon));
    }
    assert_eq!(DragonType::lookup("Infernal"), None);
    assert_eq!(DragonType::lookup("fire"), None);
    assert_eq!(DragonType::lookup(""), None);
    assert_eq!(DragonType::Infernal.name(), "Infernal");
    assert_eq!(DragonType::Cloud.name(), "Cloud");
}

#[test]
fn only_true_and_false_are_words_for_a_boolean() {
    assert_eq!(deserialize_bool("True"), Some(true));
    assert_eq!(deserialize_bool("False"), Some(false));
    for word in ["true", "false", "TRUE", "", "1", "0", " True", "True ", "Yes", "Truee"] {
        assert_eq!(deserialize_bool(word), None, "{word}");
    }
}

#[test]
fn stolen_is_read_strictly() {
    let kill = |stolen: &str| {
        format!(
            r#"{{"EventName": "DragonKill", "EventID": 9, "EventTime": 488.25, "Assisters": ["A", "B"], "DragonType": "Earth", "KillerName": "Faker", "Stolen": {stolen}}}"#
        )
    };
    let expected = |stolen: bool| {
        GameEvent::DragonKill(DragonKill {
            assisters: vec!["A".to_string(), "B".to_string()],
            dragon_type: DragonType::Mountain,
            event_id: 9,
            event_time: Real { bits: 488.25f64.to_bits() },
            killer_name: Killer::Summoner("Faker".to_string()),
            stolen,
        })
    };
    assert_eq!(from_str::<GameEvent>(&kill("\"True\"")), Some(expected(true)));
    assert_eq!(from_str::<GameEvent>(&kill("\"False\"")), Some(expected(false)));
    for other in ["\"true\"", "\"\"", "\"no\"", "true", "false", "0", "null"] {
        assert_eq!(from_str::<GameEvent>(&kill(other)), None, "{other}");
    }
}

#[test]
fn unknown_names_give_the_unknown_variant() {
    assert_eq!(MapName::from_wire("Map99"), MapName::Unknown);
    assert_eq!(MapName::from_wire("map11"), MapName::Unknown);
    assert_eq!(MapName::from_wire(""), MapName::Unknown);
    assert_eq!(GameMode::from_wire("SWARM"), GameMode::Unknown);
    assert_eq!(GameMode::from_wire("classic"), GameMode::Unknown);
    assert_eq!(Position::from_wire("SUPPORT"), Position::Unknown);
    assert_eq!(TeamId::from_wire("SPECTATOR"), TeamId::Unknown);
    assert_eq!(ResourceType::from_wire("GRIT"), ResourceType::Unknown);
    assert_eq!(Turret::from_wire("Turret_T3_C_01_A"), Turret::Unknown);
    assert_eq!(Inhibitor::from_wire("Barracks_T3_C1"), Inhibitor::Unknown);
    assert_eq!(MapName::lookup("Map99"), None);
    let document: serde_json::Value = serde_json::from_str("\"STRAWBERRY\"").unwrap();
    assert_eq!(GameMode::decode(&document), Some(GameMode::Unknown));
    assert_eq!(MapName::decode(&document), Some(MapName::Unknown));
    assert_eq!(Position::decode(&document), Some(Position::Unknown));
    assert_eq!(from_str::<GameMode>("\"UNKNOWN\""), Some(GameMode::Unknown));
    assert_eq!(from_str::<GameMode>("17"), None);
    assert_eq!(from_str::<GameMode>("null"), None);
}

#[test]
fn known_names_of_the_open_vocabularies() {
    assert_eq!(MapName::from_wire("Map11"), MapName::Map11);
    assert_eq!(MapName::from_wire("Map30"), MapName::Map30);
    assert_eq!(MapName::Map12.name(), "Map12");
    assert_eq!(Position::from_wire("TOP"), Position::Top);
    assert_eq!(Position::from_wire("NONE"), Position::Unassigned);
    assert_eq!(Position::from_wire(""), Position::Unknown);
    assert_eq!(Position::Unassigned.name(), "None");
    assert_eq!(Position::Utility.name(), "Utility");
    assert_eq!(ResourceType::from_wire("MANA"), ResourceType::Mana);
    assert_eq!(ResourceType::from_wire("NONE"), ResourceType::NoResource);
    assert_eq!(ResourceType::NoResource.name(), "None");
    assert_eq!(TeamId::from_wire("ORDER"), TeamId::Order);
    assert_eq!(TeamId::from_wire("CHAOS"), TeamId::Chaos);
    assert_eq!(TeamId::All.name(), "ALL");
    assert_eq!(TeamId::Neutral.name(), "NEUTRAL");
    assert_eq!(TeamId::Unknown.name(), "UNKNOWN");
    assert_eq!(Turret::from_wire("Turret_T1_C_010_A"), Turret::Team1C10A);
    assert_eq!(Turret::from_wire("Turret_OrderTurretShrine_A"), Turret::Team1Fountain);
    assert_eq!(Turret::Team2R03A.name(), "Team2R03A");
    assert_eq!(Inhibitor::from_wire("Barracks_T2_R1"), Inhibitor::Team2R1);
    assert_eq!(Inhibitor::Team1C1.name(), "Team1C1");
    assert_eq!(GameMode::Arena.name(), "Arena");
}

#[test]
fn closed_vocabularies_refuse_other_names() {
    assert_eq!(MapTerrain::lookup("Default"), Some(MapTerrain::Default));
    assert_eq!(MapTerrain::lookup("Chemtech"), Some(MapTerrain::Chemtech));
    assert_eq!(MapTerrain::lookup("Lava"), None);
    assert_eq!(GameResult::lookup("Win"), Some(GameResult::Win));
    assert_eq!(GameResult::lookup("Lose"), Some(GameResult::Lose));
    assert_eq!(GameResult::lookup("Draw"), None);
    assert_eq!(from_str::<MapTerrain>("\"Ocean\""), Some(MapTerrain::Ocean));
    assert_eq!(from_str::<MapTerrain>("\"ocean\""), None);
    assert_eq!(from_str::<GameResult>("\"Remake\""), None);
    assert_eq!(GameResult::Win.name(), "Win");
    assert_eq!(MapTerrain::Mountain.name(), "Mountain");
}

const EVENTS: &str = r#"{
    "Events": [
        {"EventID": 0, "EventName": "GameStart", "EventTime": 0.0264},
        {"EventID": 1, "EventName": "MinionsSpawning", "EventTime": 65.5},
        {"EventID": 2, "EventName": "FirstBrick", "EventTime": 700, "KillerName": "Minion_T100L1S1N1"},
        {"EventID": 3, "EventName": "TurretKilled", "EventTime": 700.5, "KillerName": "Turret_T2_L_03_A", "TurretKilled": "Turret_T1_R_03_A", "Assisters": []},
        {"EventID": 4, "EventName": "ChampionKill", "EventTime": 12.5, "KillerName": "Faker", "VictimName": "Chovy", "Assisters": ["Keria", "Zeus"]},
        {"EventID": 5, "EventName": "Multikill", "EventTime": 13, "KillerName": "Faker", "KillStreak": 2},
        {"EventID": 6, "EventName": "Ace", "EventTime": 14, "Acer": "Faker", "AcingTeam": "ORDER"},
        {"EventID": 7, "EventName": "InhibKilled", "EventTime": 15, "KillerName": "SRU_Baron", "InhibKilled": "Barracks_T2_C1", "Assisters": ["Oner"]},
        {"EventID": 8, "EventName": "GameEnd", "EventTime": 16, "Result": "Win"}
    ]
}"#;

#[test]
fn event_list_is_read_in_order() {
    let list = from_str::<IngameEvents>(EVENTS).unwrap();
    let ids: Vec<u32> = list.events.iter().map(|e| e.get_event_id()).collect();
    assert_eq!(ids, vec![0, 1, 2, 3, 4, 5, 6, 7, 8]);
    assert_eq!(seconds(list.events[0].get_event_time()), 0.0264);
    assert_eq!(seconds(list.events[2].get_event_time()), 700.0);
    assert_eq!(list.events[4].get_event_time(), Real { bits: 0x4029000000000000 });
    assert_eq!(
        list.events[3],
        GameEvent::TurretKilled(TurretKilled {
            assisters: vec![],
            event_id: 3,
            event_time: Real { bits: 700.5f64.to_bits() },
            killer_name: Killer::Turret(Turret::Team2L03A),
            turret_killed: Turret::Team1R03A,
        })
    );
    assert_eq!(
        list.events[4],
        GameEvent::ChampionKill(ChampionKill {
            assisters: vec!["Keria".to_string(), "Zeus".to_string()],
            event_id: 4,
            event_time: Real { bits: 12.5f64.to_bits() },
            killer_name: Killer::Summoner("Faker".to_string()),
            victim_name: "Chovy".to_string(),
        })
    );
    assert_eq!(
        list.events[5],
        GameEvent::Multikill(Multikill {
            event_id: 5,
            event_time: Real { bits: 13f64.to_bits() },
            kill_streak: 2,
            killer_name: "Faker".to_string(),
        })
    );
    assert_eq!(
        list.events[6],
        GameEvent::Ace(Ace {
            acer: "Faker".to_string(),
            acing_team: TeamId::Order,
            event_id: 6,
            event_time: Real { bits: 14f64.to_bits() },
        })
    );
    assert_eq!(
        list.events[8],
        GameEvent::GameEnd(GameEnd {
            event_id: 8,
            event_time: Real { bits: 16f64.to_bits() },
            result: GameResult::Win,
        })
    );
    match &list.events[7] {
        GameEvent::InhibKilled(e) => {
            assert_eq!(e.killer_name, Killer::Baron);
            assert_eq!(e.inhib_killed, Inhibitor::Team2C1);
        }
        other => panic!("{other:?}"),
    }
}

#[test]
fn one_bad_event_spoils_the_list() {
    let lists = vec![
        r#"{"Events": [{"EventID": 0, "EventName": "GameStart", "EventTime": 0.0}, {"EventID": 1, "EventName": "Invented", "EventTime": 1.0}]}"#,
        r#"{"Events": [{"EventID": 0, "EventTime": 0.0}]}"#,
        r#"{"Events": [{"EventID": -1, "EventName": "GameStart", "EventTime": 0.0}]}"#,
        r#"{"Events": [{"EventID": 1.5, "EventName": "GameStart", "EventTime": 0.0}]}"#,
        r#"{"Events": [{"EventID": 4294967296, "EventName": "GameStart", "EventTime": 0.0}]}"#,
        r#"{"Events": [{"EventID": 1, "EventName": "GameStart", "EventTime": "0.0"}]}"#,
        r#"{"Events": [{"EventID": 1, "EventName": "GameStart"}]}"#,
        r#"{"Events": [{"EventID": 1, "EventName": "GameEnd", "EventTime": 1, "Result": "Draw"}]}"#,
        r#"{"Events": [{"EventID": 1, "EventName": "DragonKill", "EventTime": 1, "Assisters": [], "DragonType": "Void", "KillerName": "x", "Stolen": "False"}]}"#,
        r#"{"Events": [{"EventID": 1, "EventName": "ChampionKill", "EventTime": 1, "Assisters": ["a", 2], "KillerName": "x", "VictimName": "y"}]}"#,
        r#"{"Events": [{"EventID": 1, "EventName": "Multikill", "EventTime": 1, "KillerName": "x", "KillStreak": 2147483648}]}"#,
        r#"{"Events": {}}"#,
        r#"{"events": []}"#,
        r#"[]"#,
        r#"{"Events": ["#,
    ];
    for list in lists {
        assert_eq!(from_str::<IngameEvents>(list), None, "{list}");
    }
    assert_eq!(from_str::<IngameEvents>(r#"{"Events": []}"#), Some(IngameEvents { events: vec![] }));
    let largest = r#"{"Events": [{"EventID": 4294967295, "EventName": "GameStart", "EventTime": -1}]}"#;
    assert_eq!(from_str::<IngameEvents>(largest).unwrap().events[0].get_event_id(), u32::MAX);
}

const PLAYER: &str = r#"{
    "championName": "Annie", "isBot": false, "isDead": true,
    "items": [{"canUse": true, "consumable": false, "count": 1, "displayName": "Doran's Ring", "itemID": 1056, "price": 400, "rawDescription": "d", "rawDisplayName": "n", "slot": 0}],
    "level": 3, "position": "MIDDLE", "rawChampionName": "game_character_displayname_Annie",
    "respawnTimer": 7.5,
    "runes": {"keystone": {"displayName": "Electrocute", "id": 8112, "rawDescription": "a", "rawDisplayName": "b"},
              "primaryRuneTree": {"displayName": "Domination", "id": 8100, "rawDescription": "a", "rawDisplayName": "b"},
              "secondaryRuneTree": {"displayName": "Sorcery", "id": 8200, "rawDescription": "a", "rawDisplayName": "b"}},
    "scores": {"assists": 1, "creepScore": 20, "deaths": 2, "kills": 3, "wardScore": 0.5},
    "skinID": 0, "summonerName": "Faker",
    "summonerSpells": {"summonerSpellOne": {"displayName": "Flash", "rawDescription": "a", "rawDisplayName": "b"},
                       "summonerSpellTwo": {"displayName": "Ignite", "rawDescription": "a", "rawDisplayName": "b"}},
    "team": "ORDER"
}"#;

const GAME_DATA: &str = r#"{"gameMode": "ARAM", "gameTime": 0.02, "mapName": "Map12", "mapNumber": 12, "mapTerrain": "Default"}"#;

#[test]
fn player_is_read() {
    let player = from_str::<Player>(PLAYER).unwrap();
    assert_eq!(player.champion_name, "Annie");
    assert!(!player.is_bot);
    assert!(player.is_dead);
    assert_eq!(
        player.items,
        vec![PlayerItem {
            can_use: true,
            consumable: false,
            count: 1,
            display_name: "Doran's Ring".to_string(),
            item_id: 1056,
            price: 400,
            raw_description: "d".to_string(),
            raw_display_name: "n".to_string(),
            slot: 0,
        }]
    );
    assert_eq!(player.level, 3);
    assert_eq!(player.position, Position::Middle);
    assert_eq!(seconds(player.respawn_timer), 7.5);
    assert_eq!(player.runes.unwrap().keystone.id, 8112);
    assert_eq!(
        PlayerScores { kills: 3, deaths: 2, assists: 1, creep_score: 20, ward_score: Real { bits: 0.5f64.to_bits() } },
        player.scores
    );
    assert_eq!(player.raw_skin_name, None);
    assert_eq!(player.skin_name, None);
    assert_eq!(player.skin_id, 0);
    assert_eq!(player.summoner_spells, SummonerSpells::NoSummonerSpells {});
    assert_eq!(player.team, TeamId::Order);
}

#[test]
fn members_that_may_be_missing() {
    let with = PLAYER.replace("\"skinID\": 0", "\"skinID\": 0, \"skinName\": \"Goth\", \"rawSkinName\": null");
    let player = from_str::<Player>(&with).unwrap();
    assert_eq!(player.skin_name, Some("Goth".to_string()));
    assert_eq!(player.raw_skin_name, None);
    let wrong = PLAYER.replace("\"skinID\": 0", "\"skinID\": 0, \"skinName\": 5");
    assert_eq!(from_str::<Player>(&wrong), None);
    let no_runes = PLAYER.replace("\"runes\": {", "\"other\": {");
    assert_eq!(from_str::<Player>(&no_runes).unwrap().runes, None);
    let no_level = PLAYER.replace("\"level\": 3,", "");
    assert_eq!(from_str::<Player>(&no_level), None);
    let level_text = PLAYER.replace("\"level\": 3,", "\"level\": \"3\",");
    assert_eq!(from_str::<Player>(&level_text), None);
}

#[test]
fn shapes_of_runes_and_spells() {
    let rune = r#"{"displayName": "n", "id": 1, "rawDescription": "a", "rawDisplayName": "b"}"#;
    let stat = r#"{"id": 5001, "rawDescription": "s"}"#;
    let full = format!(
        r#"{{"general_runes": [{rune}], "keystone": {rune}, "primary_rune_tree": {rune}, "secondary_rune_tree": {rune}, "stat_runes": [{stat}, {stat}]}}"#
    );
    match from_str::<FullPlayerRunes>(&full).unwrap() {
        FullPlayerRunes::Runes { general_runes, keystone, primary_rune_tree, stat_runes, .. } => {
            assert_eq!(
                general_runes,
                vec![Rune {
                    display_name: "n".to_string(),
                    id: 1,
                    raw_description: "a".to_string(),
                    raw_display_name: "b".to_string(),
                }]
            );
            assert_eq!(keystone.id, 1);
            assert_eq!(primary_rune_tree.display_name, "n");
            assert_eq!(
                stat_runes,
                vec![
                    StatRune { id: 5001, raw_description: "s".to_string() },
                    StatRune { id: 5001, raw_description: "s".to_string() }
                ]
            );
        }
        other => panic!("{other:?}"),
    }
    assert_eq!(from_str::<FullPlayerRunes>("{}"), Some(FullPlayerRunes::NoRunes {}));
    let camel = format!(r#"{{"generalRunes": [{rune}], "keystone": {rune}}}"#);
    assert_eq!(from_str::<FullPlayerRunes>(&camel), Some(FullPlayerRunes::NoRunes {}));
    assert_eq!(from_str::<FullPlayerRunes>("[]"), None);
    assert_eq!(from_str::<FullPlayerRunes>("null"), None);
    let spell = r#"{"displayName": "Flash", "rawDescription": "a", "rawDisplayName": "b"}"#;
    let two = format!(r#"{{"summoner_spell_one": {spell}, "summoner_spell_two": {spell}}}"#);
    match from_str::<SummonerSpells>(&two).unwrap() {
        SummonerSpells::SummonerSpells { summoner_spell_one, .. } => {
            assert_eq!(summoner_spell_one.display_name, "Flash");
        }
        other => panic!("{other:?}"),
    }
    assert_eq!(from_str::<SummonerSpells>("{}"), Some(SummonerSpells::NoSummonerSpells {}));
    assert_eq!(from_str::<SummonerSpells>("7"), None);
}

#[test]
fn game_stats_are_read() {
    let stats = from_str::<GameStats>(GAME_DATA).unwrap();
    assert_eq!(stats.game_mode, GameMode::Aram);
    assert_eq!(seconds(stats.game_time), 0.02);
    assert_eq!(stats.map_name, MapName::Map12);
    assert_eq!(stats.map_number, 12);
    assert_eq!(stats.map_terrain, MapTerrain::Default);
    let new_mode = GAME_DATA.replace("ARAM", "BRAWL").replace("Map12", "Map35");
    let stats = from_str::<GameStats>(&new_mode).unwrap();
    assert_eq!(stats.game_mode, GameMode::Unknown);
    assert_eq!(stats.map_name, MapName::Unknown);
    let new_terrain = GAME_DATA.replace("Default", "Void");
    assert_eq!(from_str::<GameStats>(&new_terrain), None);
}

#[test]
fn all_game_data_of_a_spectator() {
    let text = format!(
        r#"{{"activePlayer": {{"error": "Spectator mode doesn't currently support this feature"}}, "allPlayers": [{PLAYER}, {PLAYER}], "events": {EVENTS}, "gameData": {GAME_DATA}}}"#
    );
    let data = from_str::<AllGameData>(&text).unwrap();
    assert_eq!(data.active_player, None);
    assert_eq!(data.all_players.len(), 2);
    assert_eq!(data.events.len(), 9);
    assert_eq!(data.game_data.map_number, 12);
    let missing = text.replace("\"activePlayer\"", "\"passivePlayer\"");
    assert_eq!(from_str::<AllGameData>(&missing), None);
    let flat = text.replace(EVENTS, "[]");
    assert_eq!(from_str::<AllGameData>(&flat), None);
}

fn active_player_text() -> String {
    let ability = |level: &str| {
        format!(r#"{{{level}"displayName": "n", "id": "i", "rawDescription": "a", "rawDisplayName": "b"}}"#)
    };
    let names = [
        "abilityHaste", "abilityPower", "armor", "armorPenetrationFlat", "armorPenetrationPercent",
        "attackDamage", "attackRange", "attackSpeed", "bonusArmorPenetrationPercent",
        "bonusMagicPenetrationPercent", "critChance", "critDamage", "currentHealth",
        "healShieldPower", "healthRegenRate", "lifeSteal", "magicLethality", "magicPenetrationFlat",
        "magicPenetrationPercent", "magicResist", "maxHealth", "moveSpeed", "omnivamp",
        "physicalLethality", "physicalVamp", "resourceMax", "resourceRegenRate", "resourceValue",
        "spellVamp", "tenacity",
    ];
    let mut stats: Vec<String> =
        names.iter().enumerate().map(|(i, n)| format!("\"{n}\": {i}.25")).collect();
    stats.push("\"resourceType\": \"ENERGY\"".to_string());
    format!(
        r#"{{"abilities": {{"E": {a}, "Passive": {p}, "Q": {a}, "R": {a}, "W": {a}}}, "championStats": {{{stats}}}, "currentGold": 512.75, "fullRunes": {{}}, "level": 18, "summonerName": "Faker", "teamRelativeColors": true}}"#,
        a = ability("\"abilityLevel\": 5, "),
        p = ability(""),
        stats = stats.join(", ")
    )
}

#[test]
fn active_player_is_read() {
    let player = from_str::<ActivePlayer>(&active_player_text()).unwrap();
    assert_eq!(player.abilities.q.ability_level, 5);
    assert_eq!(player.abilities.passive.id, "i");
    assert_eq!(seconds(player.champion_stats.ability_haste), 0.25);
    assert_eq!(seconds(player.champion_stats.armor), 2.25);
    assert_eq!(seconds(player.champion_stats.tenacity), 29.25);
    assert_eq!(player.champion_stats.resource_type, ResourceType::Energy);
    assert_eq!(seconds(player.current_gold), 512.75);
    assert_eq!(player.runes, FullPlayerRunes::NoRunes {});
    assert_eq!(player.level, 18);
    assert_eq!(player.summoner_name, "Faker");
    assert!(player.team_relative_colors);
    let text = format!(
        r#"{{"activePlayer": {}, "allPlayers": [], "events": {{"Events": []}}, "gameData": {GAME_DATA}}}"#,
        active_player_text()
    );
    let data = from_str::<AllGameData>(&text).unwrap();
    assert_eq!(data.active_player, Some(player));
    assert!(data.all_players.is_empty());
    assert!(data.events.is_empty());
}
