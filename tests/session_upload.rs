use todo_sync::analytics::{
    build_content_string, check_api_key, decimal_string, get_country_data, get_feedback_comments,
    get_net_id, insert_cloudflare_info_into_session_collector, is_editor_session, is_steam_session,
    key_is_authorized, parse_end_time, parse_start_time, session_duration_to_string,
    should_send_discord_message, ApiKey, ApiKeyError, DiscordConfig,
};
use todo_sync::country::{cc2n, codes_match, CloudflareInfo};
use todo_sync::json::JsonValue;

fn s(t: &str) -> String {
    t.to_string()
}

fn obj(fields: Vec<(&str, JsonValue)>) -> JsonValue {
    JsonValue::Object(fields.into_iter().map(|(k, v)| (k.to_string(), v)).collect())
}

fn session(steam: bool, editor: bool, comments: Vec<JsonValue>) -> JsonValue {
    let mut player = vec![("NetID", JsonValue::Str(s("7656")))];
    if steam {
        player.push(("SteamAnalyticsData", obj(vec![])));
    }
    obj(vec![
        (
            "BP_SessionAnalyicsCollector_C",
            obj(vec![
                ("StartTime", JsonValue::Str(s("2024.03.20-10.00.00"))),
                ("EndTime", JsonValue::Str(s("2024.03.20-11.02.03"))),
                ("IsPlayInEditorSession", JsonValue::Bool(editor)),
                ("CountryCode", JsonValue::Str(s("US"))),
                ("CountryName", JsonValue::Str(s("United States"))),
                ("PlayerControllerData", JsonValue::Array(vec![obj(player)])),
            ]),
        ),
        ("BP_CactusGameFeedbackCollector_C", obj(vec![("FeedbackComments", JsonValue::Array(comments))])),
    ])
}

#[test]
fn api_key_checks() {
    assert!(key_is_authorized("abc", "abc"));
    assert!(!key_is_authorized("abc", "abd"));
    assert_eq!(check_api_key(None, "abc"), Err(ApiKeyError::Missing));
    assert_eq!(check_api_key(Some("x"), "abc"), Err(ApiKeyError::Invalid));
    assert_eq!(check_api_key(Some("abc"), "abc"), Ok(ApiKey(s("abc"))));
}

#[test]
fn reads_session_fields() {
    let sess = session(true, false, vec![JsonValue::Str(s("fun")), JsonValue::Int(3), JsonValue::Str(s("hard"))]);
    assert_eq!(get_net_id(&sess), Some("7656"));
    assert_eq!(is_steam_session(&sess), Some(true));
    assert_eq!(is_steam_session(&session(false, false, vec![])), Some(false));
    assert_eq!(is_editor_session(&sess), Some(false));
    assert_eq!(get_country_data(&sess), Some(("US", "United States")));
    assert_eq!(get_feedback_comments(&sess), Some(vec![s("fun"), s("hard")]));
    assert_eq!(get_feedback_comments(&JsonValue::Null), None);
    assert_eq!(get_net_id(&obj(vec![])), None);
    assert_eq!(parse_end_time(&sess).unwrap() - parse_start_time(&sess).unwrap(), 3723);
}

#[test]
fn formats_durations() {
    assert_eq!(session_duration_to_string(3723), "1:02:03");
    assert_eq!(session_duration_to_string(0), "0:00:00");
    assert_eq!(session_duration_to_string(86399), "23:59:59");
    assert_eq!(session_duration_to_string(-61), "0:-1:-1");
    assert_eq!(decimal_string(-1234), "-1234");
    assert_eq!(decimal_string(i64::MIN as i128), "-9223372036854775808");
}

#[test]
fn summary_for_steam_player_with_comments() {
    let sess = session(true, false, vec![JsonValue::Str(s("fun"))]);
    assert_eq!(
        build_content_string(&sess),
        Ok(s("https://steamcommunity.com/profiles/7656\n(US/United States)\nPlayed a game for 1:02:03\n\nFeedback comments:\n`fun`"))
    );
}

#[test]
fn summary_for_editor_session() {
    let sess = session(false, true, vec![]);
    assert_eq!(build_content_string(&sess), Ok(s("7656\n(US/United States)\nPlayed a PIE game for 1:02:03")));
    assert_eq!(build_content_string(&obj(vec![])), Err(s("Unable to find Net ID in session data")));
}

#[test]
fn tags_session_with_origin() {
    let sess = session(false, false, vec![]);
    let info = CloudflareInfo { ip: s("1.2.3.4"), country: s("de") };
    let tagged = insert_cloudflare_info_into_session_collector(&info, &sess).unwrap();
    assert_eq!(get_country_data(&tagged), Some(("de", "Germany")));
    let c = tagged.get("BP_SessionAnalyicsCollector_C").unwrap();
    assert_eq!(c.get("ip"), Some(&JsonValue::Str(s("1.2.3.4"))));
    assert_eq!(get_net_id(&tagged), Some("7656"));
    assert!(insert_cloudflare_info_into_session_collector(&info, &JsonValue::Null).is_err());
    assert!(insert_cloudflare_info_into_session_collector(&info, &obj(vec![])).is_err());
}

#[test]
fn names_country_codes() {
    let name = |c: &str| CloudflareInfo { ip: s("::1"), country: s(c) }.get_country_name();
    assert_eq!(name("XX"), "No Data");
    assert_eq!(name("T1"), "Tor");
    assert_eq!(name("ZZ"), "Unknown");
    assert_eq!(name("D1"), "Unknown");
    assert_eq!(name(""), "Unknown");
    assert_eq!(cc2n("us"), cc2n("US"));
    assert!(cc2n("US").is_some());
    assert!(cc2n("USA").is_some());
    assert!(cc2n("840").is_some());
    assert_eq!(cc2n("84"), None);
    assert_eq!(cc2n("U5A"), None);
    assert!(codes_match("dEu", "DEU"));
    assert!(!codes_match("DE", "DEU"));
}

#[test]
fn discord_message_gating() {
    let on = DiscordConfig { send_messages: true, notify_editor_sessions: false };
    let off = DiscordConfig { send_messages: false, notify_editor_sessions: true };
    assert!(should_send_discord_message(&on, &session(false, false, vec![])));
    assert!(!should_send_discord_message(&on, &session(false, true, vec![])));
    assert!(!should_send_discord_message(&off, &session(false, false, vec![])));
}
