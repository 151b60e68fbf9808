//! The analytics server's session logic: reading an uploaded play session,
//! tagging it with where it came from, and the summary message posted about
//! it.

use vstd::prelude::*;
use vstd::string::StringExecFns;
use crate::json::{fields_view, field_of, lemma_object_view, set_field, str_eq, Json, JsonValue};
use crate::mirror::push_char;
use crate::country::{country_display_name, CloudflareInfo};

verus! {

/// The API key an upload carried.
#[derive(Debug, PartialEq)]
pub struct ApiKey(pub String);

#[derive(Debug, PartialEq, Eq, Structural)]
pub enum ApiKeyError {
    Missing,
    Invalid,
}

#[derive(Debug)]
pub struct DiscordConfig {
    pub send_messages: bool,
    pub notify_editor_sessions: bool,
}

#[derive(Debug)]
pub struct Config {
    pub mongodb_connection_string: String,
    pub discord_config: DiscordConfig,
}

#[derive(Debug)]
pub struct Keys {
    pub todolist_auth_key: String,
    pub cactus_auth_key: String,
    pub discord_webhook: String,
    pub discord_token: String,
    pub gitlab_token: String,
}

#[derive(Debug)]
pub struct Secrets {
    pub keys: Keys,
}

/// The analytics server's context.
#[derive(Debug)]
pub struct ServerState {
    pub default_config: Config,
    pub config: Config,
    pub secrets: Secrets,
}

impl ServerState {
    /// A copy of the settings in force.
    pub fn read_config(&self) -> (r: Option<Config>)
        ensures
            r matches Some(c) && c.mongodb_connection_string@ == self.config.mongodb_connection_string@
                && c.discord_config == self.config.discord_config,
    {
        Some(
            Config {
                mongodb_connection_string: self.config.mongodb_connection_string.clone(),
                discord_config: DiscordConfig {
                    send_messages: self.config.discord_config.send_messages,
                    notify_editor_sessions: self.config.discord_config.notify_editor_sessions,
                },
            },
        )
    }
}

/// Whether `key` is the configured API key.
pub fn key_is_authorized(expected: &str, key: &str) -> (r: bool)
    ensures
        r == (key@ == expected@),
{
    str_eq(key, expected)
}

/// Checks the `X-Api-Key` header of an upload.
pub fn check_api_key(header: Option<&str>, expected: &str) -> (r: Result<ApiKey, ApiKeyError>)
    ensures
        match header {
            None => r == Err::<ApiKey, ApiKeyError>(ApiKeyError::Missing),
            Some(h) => if h@ == expected@ {
                r matches Ok(k) && k.0@ == h@
            } else {
                r == Err::<ApiKey, ApiKeyError>(ApiKeyError::Invalid)
            },
        },
{
    match header {
        Some(h) => if key_is_authorized(expected, h) {
            Ok(ApiKey(String::from_str(h)))
        } else {
            Err(ApiKeyError::Invalid)
        },
        None => Err(ApiKeyError::Missing),
    }
}

/// The session collector object of an upload.
pub open spec fn collector(session: Json) -> Option<Json> {
    session.get("BP_SessionAnalyicsCollector_C"@)
}

/// The first player's data.
pub open spec fn first_player(session: Json) -> Option<Json> {
    match collector(session) {
        Some(c) => match c.get("PlayerControllerData"@) {
            Some(Json::Array(players)) => if players.len() > 0 {
                Some(players[0])
            } else {
                None
            },
            _ => None,
        },
        None => None,
    }
}

fn collector_of(session: &JsonValue) -> (r: Option<&JsonValue>)
    ensures
        match r {
            Some(c) => collector(session@) == Some(c@),
            None => collector(session@) is None,
        },
{
    session.get("BP_SessionAnalyicsCollector_C")
}

fn first_player_of(session: &JsonValue) -> (r: Option<&JsonValue>)
    ensures
        match r {
            Some(p) => first_player(session@) == Some(p@),
            None => first_player(session@) is None,
        },
{
    match collector_of(session) {
        Some(c) => match c.get("PlayerControllerData") {
            Some(JsonValue::Array(players)) => {
                proof {
                    crate::json::lemma_array_view(*players);
                }
                if players.len() > 0 {
                    Some(&players[0])
                } else {
                    None
                }
            },
            _ => None,
        },
        None => None,
    }
}

/// The strings among the feedback comments, in order.
pub open spec fn string_items(items: Seq<Json>) -> Seq<Seq<char>>
    decreases items.len(),
{
    if items.len() == 0 {
        Seq::empty()
    } else {
        let rest = string_items(items.drop_last());
        match items.last() {
            Json::Str(s) => rest.push(s),
            _ => rest,
        }
    }
}

/// The feedback comments of an upload: the strings of its
/// `BP_CactusGameFeedbackCollector_C.FeedbackComments` array.
pub open spec fn feedback_comments(session: Json) -> Option<Seq<Seq<char>>> {
    match session.get2("BP_CactusGameFeedbackCollector_C"@, "FeedbackComments"@) {
        Some(Json::Array(items)) => Some(string_items(items)),
        _ => None,
    }
}

pub fn get_feedback_comments(session: &JsonValue) -> (r: Option<Vec<String>>)
    ensures
        match r {
            Some(v) => feedback_comments(session@) == Some(v@.map_values(|s: String| s@)),
            None => feedback_comments(session@) is None,
        },
{
    let items = match session.get("BP_CactusGameFeedbackCollector_C") {
        Some(c) => match c.get("FeedbackComments") {
            Some(JsonValue::Array(items)) => items,
            _ => return None,
        },
        None => return None,
    };
    proof {
        crate::json::lemma_array_view(*items);
    }
    let ghost models = items@.map_values(|j: JsonValue| j@);
    let mut out: Vec<String> = Vec::new();
    let n = items.len();
    let mut i: usize = 0;
    while i < n
        invariant
            n == items@.len(),
            models == items@.map_values(|j: JsonValue| j@),
            i <= n,
            out@.map_values(|s: String| s@) == string_items(models.subrange(0, i as int)),
        decreases n - i,
    {
        assert(models.subrange(0, i as int + 1).drop_last() =~= models.subrange(0, i as int));
        let ghost before = out@;
        match &items[i] {
            JsonValue::Str(s) => {
                out.push(s.clone());
                assert(out@.map_values(|s: String| s@) =~= before.map_values(|s: String| s@).push(s@));
            },
            _ => {},
        }
        i = i + 1;
    }
    assert(models.subrange(0, n as int) =~= models);
    Some(out)
}

/// Whether the first player has Steam data; `None` where there is no
/// first player.
pub fn is_steam_session(session: &JsonValue) -> (r: Option<bool>)
    ensures
        r == (match first_player(session@) {
            Some(p) => Some(p.get("SteamAnalyticsData"@) is Some),
            None => None,
        }),
{
    match first_player_of(session) {
        Some(p) => Some(p.get("SteamAnalyticsData").is_some()),
        None => None,
    }
}

/// `IsPlayInEditorSession` of the collector, where it is a boolean.
pub open spec fn editor_session(session: Json) -> Option<bool> {
    match collector(session) {
        Some(c) => match c.get("IsPlayInEditorSession"@) {
            Some(Json::Bool(b)) => Some(b),
            _ => None,
        },
        None => None,
    }
}

pub fn is_editor_session(session: &JsonValue) -> (r: Option<bool>)
    ensures
        r == editor_session(session@),
{
    match collector_of(session) {
        Some(c) => match c.get("IsPlayInEditorSession") {
            Some(JsonValue::Bool(b)) => Some(*b),
            _ => None,
        },
        None => None,
    }
}

/// The first player's `NetID` string.
pub open spec fn net_id(session: Json) -> Option<Seq<char>> {
    match first_player(session) {
        Some(p) => match p.get("NetID"@) {
            Some(Json::Str(s)) => Some(s),
            _ => None,
        },
        None => None,
    }
}

pub fn get_net_id(session: &JsonValue) -> (r: Option<&str>)
    ensures
        match r {
            Some(s) => net_id(session@) == Some(s@),
            None => net_id(session@) is None,
        },
{
    match first_player_of(session) {
        Some(p) => match p.get("NetID") {
            Some(v) => v.as_str(),
            None => None,
        },
        None => None,
    }
}

/// A string field of the collector.
pub open spec fn collector_text(session: Json, name: Seq<char>) -> Option<Seq<char>> {
    match collector(session) {
        Some(c) => match c.get(name) {
            Some(Json::Str(s)) => Some(s),
            _ => None,
        },
        None => None,
    }
}

fn collector_str<'a>(session: &'a JsonValue, name: &str) -> (r: Option<&'a str>)
    ensures
        match r {
            Some(s) => collector_text(session@, name@) == Some(s@),
            None => collector_text(session@, name@) is None,
        },
{
    match collector_of(session) {
        Some(c) => match c.get(name) {
            Some(v) => v.as_str(),
            None => None,
        },
        None => None,
    }
}

/// The country code and the country name of the collector.
pub fn get_country_data(session: &JsonValue) -> (r: Option<(&str, &str)>)
    ensures
        match r {
            Some((code, name)) => collector_text(session@, "CountryCode"@) == Some(code@)
                && collector_text(session@, "CountryName"@) == Some(name@),
            None => collector_text(session@, "CountryCode"@) is None || collector_text(
                session@,
                "CountryName"@,
            ) is None,
        },
{
    let code = match collector_str(session, "CountryCode") {
        Some(c) => c,
        None => return None,
    };
    match collector_str(session, "CountryName") {
        Some(name) => Some((code, name)),
        None => None,
    }
}

/// The upload with its collector tagged: `ip`, `CountryCode` and
/// `CountryName` set; an error where the upload is not an object or has no
/// collector object.
pub fn insert_cloudflare_info_into_session_collector(
    cloudflare_info: &CloudflareInfo,
    session: &JsonValue,
) -> (r: Result<JsonValue, String>)
    ensures
        r is Ok <==> (collector(session@) matches Some(c) && c is Object),
        r matches Ok(out) ==> {
            let c = collector(out@).unwrap();
            &&& out@ is Object
            &&& c is Object
            &&& c.get("ip"@) == Some(Json::Str(cloudflare_info.ip@))
            &&& c.get("CountryCode"@) == Some(Json::Str(cloudflare_info.country@))
            &&& c.get("CountryName"@) == Some(Json::Str(country_display_name(cloudflare_info.country@)))
            &&& forall|k: Seq<char>|
                k != "ip"@ && k != "CountryCode"@ && k != "CountryName"@ ==> c.get(k) == collector(
                    session@,
                ).unwrap().get(k)
            &&& forall|k: Seq<char>|
                k != "BP_SessionAnalyicsCollector_C"@ ==> out@.get(k) == session@.get(k)
        },
{
    proof {
        reveal_strlit("ip");
        reveal_strlit("CountryCode");
        reveal_strlit("CountryName");
        assert("ip"@.len() == 2 && "CountryCode"@.len() == 11 && "CountryName"@.len() == 11);
        assert("CountryCode"@[7] == 'C' && "CountryName"@[7] == 'N');
    }
    let mut fields = match session.deep_copy() {
        JsonValue::Object(fields) => fields,
        _ => return Err(String::from_str("Failed to find json object in request")),
    };
    proof {
        lemma_object_view(fields);
    }
    let ghost f0 = fields_view(fields@);
    let i = match crate::json::find_field(&fields, "BP_SessionAnalyicsCollector_C") {
        Some(i) => i,
        None => return Err(String::from_str("Failed to find BP_SessionAnalyicsCollector_C in json object")),
    };
    let (key, coll) = fields.remove(i);
    let mut inner = match coll {
        JsonValue::Object(inner) => inner,
        _ => return Err(String::from_str("Failed to convert BP_SessionAnalyicsCollector_C to json object")),
    };
    proof {
        lemma_object_view(inner);
    }
    set_field(&mut inner, String::from_str("ip"), JsonValue::Str(cloudflare_info.ip.clone()));
    set_field(&mut inner, String::from_str("CountryCode"), JsonValue::Str(cloudflare_info.country.clone()));
    set_field(&mut inner, String::from_str("CountryName"), JsonValue::Str(cloudflare_info.get_country_name()));
    let new_coll = JsonValue::Object(inner);
    proof {
        lemma_object_view(inner);
    }
    fields.insert(i, (key, new_coll));
    proof {
        let p = ("BP_SessionAnalyicsCollector_C"@, new_coll@);
        assert(fields_view(fields@) =~= f0.update(i as int, p));
        crate::json::lemma_field_of_first(fields_view(fields@), p.0, i as int);
        assert forall|k: Seq<char>| k != p.0 implies field_of(fields_view(fields@), k) == field_of(
            f0,
            k,
        ) by {
            crate::json::lemma_field_of_update(f0, i as int, p, k);
        }
        lemma_object_view(fields);
    }
    Ok(JsonValue::Object(fields))
}

/// The Unix time, in seconds, of a session time written
/// `%Y.%m.%d-%H.%M.%S`, read as UTC; `None` where it does not parse.
pub uninterp spec fn session_time(s: Seq<char>) -> Option<i64>;

/// Relies on chrono's `NaiveDateTime::parse_from_str` with the format
/// `%Y.%m.%d-%H.%M.%S`, then `and_utc` and `timestamp`: the result depends
/// on the text alone.
#[verifier::external_body]
fn parse_session_time(s: &str) -> (r: Option<i64>)
    ensures
        r == session_time(s@),
{
    chrono::NaiveDateTime::parse_from_str(s, "%Y.%m.%d-%H.%M.%S").ok().map(|t| t.and_utc().timestamp())
}

/// The start or end time of the collector.
pub open spec fn collector_time(session: Json, name: Seq<char>) -> Option<i64> {
    match collector_text(session, name) {
        Some(t) => session_time(t),
        None => None,
    }
}

fn parse_time(session: &JsonValue, name: &str) -> (r: Option<i64>)
    ensures
        r == collector_time(session@, name@),
{
    match collector_str(session, name) {
        Some(t) => parse_session_time(t),
        None => None,
    }
}

pub fn parse_start_time(session: &JsonValue) -> (r: Option<i64>)
    ensures
        r == collector_time(session@, "StartTime"@),
{
    parse_time(session, "StartTime")
}

pub fn parse_end_time(session: &JsonValue) -> (r: Option<i64>)
    ensures
        r == collector_time(session@, "EndTime"@),
{
    parse_time(session, "EndTime")
}

/// The decimal digits of `n`.
pub open spec fn digits(n: nat) -> Seq<char>
    decreases n,
{
    if n < 10 {
        seq![digit_char(n)]
    } else {
        digits(n / 10).push(digit_char(n % 10))
    }
}

pub open spec fn digit_char(d: nat) -> char {
    seq!['0', '1', '2', '3', '4', '5', '6', '7', '8', '9'][d as int]
}

/// `n` in decimal, with a minus sign where it is negative.
pub open spec fn decimal(n: int) -> Seq<char> {
    if n < 0 {
        seq!['-'] + digits((-n) as nat)
    } else {
        digits(n as nat)
    }
}

/// `s` padded on the left with `0` to two characters.
pub open spec fn pad2(s: Seq<char>) -> Seq<char> {
    if s.len() < 2 {
        seq!['0'] + s
    } else {
        s
    }
}

/// Division that rounds toward zero, as Rust's integer `/` does.
pub open spec fn div_trunc(a: int, b: int) -> int {
    if a >= 0 {
        a / b
    } else {
        -((-a) / b)
    }
}

/// The remainder that goes with [`div_trunc`], as Rust's `%`.
pub open spec fn rem_trunc(a: int, b: int) -> int {
    a - b * div_trunc(a, b)
}

/// A duration of `secs` seconds as `h:mm:ss`.
pub open spec fn duration_text(secs: int) -> Seq<char> {
    decimal(div_trunc(secs, 3600)) + seq![':'] + pad2(decimal(rem_trunc(div_trunc(secs, 60), 60)))
        + seq![':'] + pad2(decimal(rem_trunc(secs, 60)))
}

fn digit(d: u64) -> (c: char)
    requires
        d < 10,
    ensures
        c == digit_char(d as nat),
{
    let table = ['0', '1', '2', '3', '4', '5', '6', '7', '8', '9'];
    proof {
        assert(table@ =~= seq!['0', '1', '2', '3', '4', '5', '6', '7', '8', '9']);
    }
    table[d as usize]
}

fn push_digits(out: &mut String, n: u64)
    ensures
        final(out)@ == old(out)@ + digits(n as nat),
    decreases n,
{
    if n >= 10 {
        push_digits(out, n / 10);
    }
    push_char(out, digit(n % 10));
    assert(final(out)@ =~= old(out)@ + digits(n as nat));
}

/// `n` in decimal.
pub fn decimal_string(n: i128) -> (r: String)
    requires
        -0x1_0000_0000_0000_0000 < n < 0x1_0000_0000_0000_0000,
    ensures
        r@ == decimal(n as int),
{
    let mut out = String::new();
    if n < 0 {
        push_char(&mut out, '-');
        push_digits(&mut out, (-n) as u64);
    } else {
        push_digits(&mut out, n as u64);
    }
    assert(out@ =~= decimal(n as int));
    out
}

fn padded2(s: String) -> (r: String)
    ensures
        r@ == pad2(s@),
{
    if s.unicode_len() < 2 {
        let mut out = String::new();
        push_char(&mut out, '0');
        out.append(s.as_str());
        assert(out@ =~= pad2(s@));
        out
    } else {
        s
    }
}

fn div_toward_zero(a: i128, b: i128) -> (r: i128)
    requires
        b > 0,
        -0x1_0000_0000_0000_0000 < a < 0x1_0000_0000_0000_0000,
    ensures
        r == div_trunc(a as int, b as int),
        -0x1_0000_0000_0000_0000 < r < 0x1_0000_0000_0000_0000,
{
    if a >= 0 {
        proof {
            assert((a as int) / (b as int) <= a as int) by (nonlinear_arith)
                requires
                    a >= 0,
                    b > 0,
            ;
        }
        a / b
    } else {
        proof {
            let na: int = -(a as int);
            assert(na / (b as int) <= na) by (nonlinear_arith)
                requires
                    na >= 0,
                    b > 0,
            ;
        }
        -((-a) / b)
    }
}

/// A duration of `secs` seconds as `h:mm:ss`: whole hours, then minutes and
/// seconds of the hour and minute, each at least two digits.
pub fn session_duration_to_string(secs: i128) -> (r: String)
    requires
        -0x1_0000_0000_0000_0000 < secs < 0x1_0000_0000_0000_0000,
    ensures
        r@ == duration_text(secs as int),
{
    let s = secs;
    let hours = div_toward_zero(s, 3600);
    let minutes_total = div_toward_zero(s, 60);
    let minutes = minutes_total - 60 * div_toward_zero(minutes_total, 60);
    let seconds = s - 60 * div_toward_zero(s, 60);
    proof {
        assert(-60 < rem_trunc(minutes_total as int, 60) < 60) by (nonlinear_arith)
            requires
                minutes_total as int - 60 * div_trunc(minutes_total as int, 60) == rem_trunc(minutes_total as int, 60),
        {
        }
    }
    let mut out = decimal_string(hours);
    out.append(":");
    let m = padded2(decimal_string(minutes));
    out.append(m.as_str());
    out.append(":");
    let sec = padded2(decimal_string(seconds));
    out.append(sec.as_str());
    proof {
        reveal_strlit(":");
        assert(":"@ =~= seq![':']);
    }
    assert(out@ =~= duration_text(secs as int));
    out
}

/// The feedback lines of the summary: each comment on a line of its own,
/// in backquotes.
pub open spec fn comment_lines(comments: Seq<Seq<char>>) -> Seq<char>
    decreases comments.len(),
{
    if comments.len() == 0 {
        Seq::empty()
    } else {
        comment_lines(comments.drop_last()) + "\n`"@ + comments.last() + "`"@
    }
}

/// The first lines of the summary.
pub open spec fn head_text(
    steam: bool,
    net: Seq<char>,
    code: Seq<char>,
    name: Seq<char>,
    kind: Seq<char>,
    duration: Seq<char>,
) -> Seq<char> {
    let body = "\n("@ + code + "/"@ + name + ")\nPlayed a "@ + kind + " for "@ + duration;
    if steam {
        "https://steamcommunity.com/profiles/"@ + net + body
    } else {
        net + body
    }
}

/// The feedback block of the summary; empty without comments.
pub open spec fn feedback_block(comments: Seq<Seq<char>>) -> Seq<char> {
    if comments.len() > 0 {
        "\n\nFeedback comments:"@ + comment_lines(comments)
    } else {
        Seq::empty()
    }
}

/// The summary posted about an upload, or the message of what it lacks.
pub open spec fn content_text(session: Json) -> Result<Seq<char>, Seq<char>> {
    match net_id(session) {
        None => Err("Unable to find Net ID in session data"@),
        Some(net) => match (collector_time(session, "StartTime"@), collector_time(session, "EndTime"@)) {
            (None, _) => Err("Unable to find StartTime in session data"@),
            (_, None) => Err("Unable to find EndTime in session data"@),
            (Some(start), Some(end)) => match (
                collector_text(session, "CountryCode"@),
                collector_text(session, "CountryName"@),
            ) {
                (Some(code), Some(name)) => Ok(
                    head_text(
                        first_player(session).unwrap().get("SteamAnalyticsData"@) is Some,
                        net,
                        code,
                        name,
                        if editor_session(session) == Some(true) {
                            "PIE game"@
                        } else {
                            "game"@
                        },
                        duration_text(end - start),
                    ) + feedback_block(
                        match feedback_comments(session) {
                            Some(c) => c,
                            None => Seq::empty(),
                        },
                    ),
                ),
                _ => Err("Unable to find country data"@),
            },
        },
    }
}

fn summary_head(steam: bool, net: &str, code: &str, name: &str, kind: &str, duration: &str) -> (r: String)
    ensures
        r@ == head_text(steam, net@, code@, name@, kind@, duration@),
{
    let mut out = String::new();
    if steam {
        out.append("https://steamcommunity.com/profiles/");
    }
    out.append(net);
    out.append("\n(");
    out.append(code);
    out.append("/");
    out.append(name);
    out.append(")\nPlayed a ");
    out.append(kind);
    out.append(" for ");
    out.append(duration);
    assert(out@ =~= head_text(steam, net@, code@, name@, kind@, duration@));
    out
}

fn append_feedback(out: &mut String, comments: &Vec<String>)
    ensures
        final(out)@ == old(out)@ + feedback_block(comments@.map_values(|s: String| s@)),
{
    let ghost cs = comments@.map_values(|s: String| s@);
    if comments.len() == 0 {
        assert(old(out)@ + feedback_block(cs) =~= old(out)@);
        return;
    }
    out.append("\n\nFeedback comments:");
    let ghost base = out@;
    let n = comments.len();
    let mut i: usize = 0;
    while i < n
        invariant
            n == comments@.len(),
            cs == comments@.map_values(|s: String| s@),
            i <= n,
            out@ == base + comment_lines(cs.subrange(0, i as int)),
        decreases n - i,
    {
        assert(cs.subrange(0, i as int + 1).drop_last() =~= cs.subrange(0, i as int));
        out.append("\n`");
        out.append(comments[i].as_str());
        out.append("`");
        assert(out@ =~= base + comment_lines(cs.subrange(0, i as int + 1)));
        i = i + 1;
    }
    assert(cs.subrange(0, n as int) =~= cs);
    assert(out@ =~= old(out)@ + feedback_block(cs));
}

/// Builds the summary posted about an upload: who played (a Steam profile
/// link for Steam players), from where, what kind of game and for how long,
/// then any feedback comments.
pub fn build_content_string(session: &JsonValue) -> (r: Result<String, String>)
    ensures
        match r {
            Ok(s) => content_text(session@) == Ok::<Seq<char>, Seq<char>>(s@),
            Err(e) => content_text(session@) == Err::<Seq<char>, Seq<char>>(e@),
        },
{
    let net_id = match get_net_id(session) {
        Some(n) => n,
        None => return Err(String::from_str("Unable to find Net ID in session data")),
    };
    let is_steam_session = match is_steam_session(session) {
        Some(b) => b,
        None => return Err(String::from_str("Unable to find SteamAnalyticsData in session data")),
    };
    let comments = match get_feedback_comments(session) {
        Some(c) => c,
        None => Vec::new(),
    };
    let start_time = match parse_start_time(session) {
        Some(t) => t,
        None => return Err(String::from_str("Unable to find StartTime in session data")),
    };
    let end_time = match parse_end_time(session) {
        Some(t) => t,
        None => return Err(String::from_str("Unable to find EndTime in session data")),
    };
    let session_duration = session_duration_to_string((end_time as i128) - (start_time as i128));
    let (country_code, country_name) = match get_country_data(session) {
        Some(d) => d,
        None => return Err(String::from_str("Unable to find country data")),
    };
    let game_name_type_string = match is_editor_session(session) {
        Some(true) => "PIE game",
        _ => "game",
    };
    let mut content_str = summary_head(
        is_steam_session,
        net_id,
        country_code,
        country_name,
        game_name_type_string,
        session_duration.as_str(),
    );
    append_feedback(&mut content_str, &comments);
    proof {
        assert(comments@.map_values(|s: String| s@) =~= match feedback_comments(session@) {
            Some(c) => c,
            None => Seq::empty(),
        });
    }
    Ok(content_str)
}

/// Whether an upload is announced: messages are on, and an editor session
/// only where editor sessions are to be announced too.
pub fn should_send_discord_message(config: &DiscordConfig, session: &JsonValue) -> (r: bool)
    ensures
        r == (config.send_messages && !(editor_session(session@) == Some(true)
            && !config.notify_editor_sessions)),
{
    if !config.send_messages {
        return false;
    }
    let editor = match is_editor_session(session) {
        Some(b) => b,
        None => false,
    };
    !(editor && !config.notify_editor_sessions)
}

} // verus!
