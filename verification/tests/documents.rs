use steam_player_role::json::{array, entry, object, string, Value};
use steam_player_role::lookup::{Lookup, TextSet};
use steam_player_role::services::cache_docs::{
    achievements_to_json, ban_to_json, games_to_json, groups_to_json, profile_to_json,
};
use steam_player_role::services::steam_api::{
    Achievement, OwnedGame, PlayerBan, PlayerSummary, SteamGroup,
};

fn s(t: &str) -> String {
    t.to_string()
}

/// The document as serde_json holds it.
fn outside(v: &Value) -> serde_json::Value {
    match v {
        Value::Null => serde_json::Value::Null,
        Value::Bool(b) => serde_json::Value::Bool(*b),
        Value::Int(n) => serde_json::Value::from(*n),
        Value::Decimal(d) => serde_json::from_str(d).unwrap(),
        Value::Text(t) => serde_json::Value::from(t.as_str()),
        Value::Array(items) => serde_json::Value::Array(items.iter().map(outside).collect()),
        Value::Object(entries) => serde_json::Value::Object(
            entries
                .iter()
                .map(|(k, v)| (k.clone(), outside(v)))
                .collect(),
        ),
    }
}

fn parsed(t: &str) -> serde_json::Value {
    serde_json::from_str(t).unwrap()
}

#[test]
fn documents_are_looked_into() {
    let v = object(vec![
        entry("a", Value::Int(1)),
        entry("b", string("x")),
        entry("c", Value::Bool(true)),
        entry("d", array(vec![Value::Null, Value::Decimal(s("1.5"))])),
        entry("a", Value::Int(2)),
    ]);
    assert_eq!(v.get_i64("a"), Some(2));
    assert_eq!(v.get_text("a"), None);
    assert_eq!(v.get_text("b"), Some("x"));
    assert_eq!(v.get_bool("c"), Some(true));
    assert_eq!(v.get("e"), None);
    assert_eq!(v.get("d").unwrap().get("x"), None);
    assert_eq!(Value::Decimal(s("1.5")).as_i64(), None);
    assert_eq!(v.copy(), v);
    assert_eq!(
        outside(&v),
        parsed(r#"{"a": 2, "b": "x", "c": true, "d": [null, 1.5]}"#)
    );
}

#[test]
fn lookups_hold_one_value_for_a_key() {
    let mut m: Lookup<(String, String), i64> = Lookup::new();
    assert!(m.is_empty());
    m.insert((s("a"), s("b")), 1);
    m.insert((s("a"), s("c")), 2);
    m.insert((s("a"), s("b")), 3);
    assert_eq!(m.entries.len(), 2);
    assert_eq!(m.get(&(s("a"), s("b"))), Some(&3));
    assert_eq!(m.get(&(s("ab"), s(""))), None);
    assert_eq!(m.find(&(s("a"), s("c"))), Some(1));
    let mut g: Lookup<String, TextSet> = Lookup::new();
    g.add_member(s("k"), s("x"));
    g.add_member(s("k"), s("y"));
    g.add_member(s("k"), s("x"));
    assert_eq!(g.get_str("k").unwrap().members, vec![s("x"), s("y")]);
    assert!(g.get_str("z").is_none());
}

#[test]
fn sets_hold_a_text_once() {
    let mut a = TextSet::new();
    let mut b = TextSet::new();
    a.insert(s("x"));
    a.insert(s("x"));
    b.insert(s("y"));
    assert_eq!(a.members.len(), 1);
    assert!(a.contains("x") && !a.contains("X"));
    assert!(!a.meets(&b));
    b.insert(s("x"));
    assert!(a.meets(&b));
}

#[test]
fn cached_documents_have_the_shape_of_steams_replies() {
    let games = [
        OwnedGame {
            appid: 730,
            name: Some(s("CS")),
            playtime_forever: Some(12),
            playtime_2weeks: None,
        },
        OwnedGame {
            appid: 570,
            name: None,
            playtime_forever: None,
            playtime_2weeks: Some(3),
        },
    ];
    assert_eq!(
        outside(&games_to_json(&games)),
        parsed(
            r#"[{"appid": 730, "name": "CS", "playtime_forever": 12, "playtime_2weeks": null},
                {"appid": 570, "name": null, "playtime_forever": null, "playtime_2weeks": 3}]"#
        )
    );
    assert_eq!(
        outside(&groups_to_json(&[SteamGroup { gid: s("1") }])),
        parsed(r#"[{"gid": "1"}]"#)
    );
    assert_eq!(
        outside(&achievements_to_json(&[Achievement {
            apiname: s("A"),
            achieved: 1,
            unlocktime: Some(5),
        }])),
        parsed(r#"[{"apiname": "A", "achieved": 1, "unlocktime": 5}]"#)
    );
    assert_eq!(
        outside(&profile_to_json(&PlayerSummary {
            steamid: s("7"),
            personaname: Some(s("n")),
            profileurl: None,
            avatar: None,
            avatarmedium: None,
            timecreated: Some(9),
            lastlogoff: None,
            communityvisibilitystate: Some(3),
            personastate: None,
            loccountrycode: Some(s("DE")),
        })),
        parsed(
            r#"{"steamid": "7", "personaname": "n", "profileurl": null, "avatar": null,
                "avatarmedium": null, "timecreated": 9, "lastlogoff": null,
                "communityvisibilitystate": 3, "personastate": null, "loccountrycode": "DE"}"#
        )
    );
    assert_eq!(
        outside(&ban_to_json(&PlayerBan {
            steam_id: s("7"),
            vac_banned: true,
            number_of_vac_bans: 1,
            days_since_last_ban: 2,
            number_of_game_bans: 3,
            community_banned: false,
            economy_ban: s("none"),
        })),
        parsed(
            r#"{"SteamId": "7", "VACBanned": true, "NumberOfVACBans": 1, "DaysSinceLastBan": 2,
                "NumberOfGameBans": 3, "CommunityBanned": false, "EconomyBan": "none"}"#
        )
    );
}
