//! The configuration of a role link: what RoleLogic is told of it, and what an admin may save.

use vstd::prelude::*;
use crate::error;
use crate::error::{AppError, Failure};
use crate::json;
use crate::json::{Doc, Value};
use crate::lookup::Lookup;
use crate::models::condition;
use crate::models::condition::{Condition, ConditionField, ConditionOperator, Rule};
use crate::text;

verus! {

/// Placeholder echoed for a stored publisher key instead of the key itself
/// — the real key never leaves the plugin. A save carrying this exact
/// value means "keep the stored key".
pub const SECRET_MASK: &'static str = "••••••••";

/// Where the page that configures a role link stands.
pub open spec fn embed_url(base_url: Seq<char>, guild_id: Seq<char>, role_id: Seq<char>) -> Seq<
    char,
> {
    base_url + "/admin/"@ + guild_id + "/role/"@ + role_id
}

/// What RoleLogic is told of a role link.
pub open spec fn iframe_doc(base_url: Seq<char>, guild_id: Seq<char>, role_id: Seq<char>) -> Doc {
    Doc::Object(
        seq![
            ("version"@, Doc::Int(1)),
            ("ui_mode"@, Doc::Text("iframe"@)),
            ("name"@, Doc::Text("Steam Player Roles"@)),
            (
                "description"@,
                Doc::Text(
                    "Assign a Discord role based on a member's Steam account — games owned, playtime, achievements, level, account status, and more."@,
                ),
            ),
            ("embed_url"@, Doc::Text(embed_url(base_url, guild_id, role_id))),
            // Read-only impersonation tokens are honored (writes are blocked), so RoleLogic
            // may hand one out for viewing.
            ("supports_impersonation_readonly"@, Doc::Bool(true)),
        ],
    )
}

/// RoleLogic is told to show a page, and finds the page of this role link.
pub proof fn law_config_leads_to_the_page(base_url: Seq<char>, guild_id: Seq<char>, role_id: Seq<char>)
    ensures
        iframe_doc(base_url, guild_id, role_id).text_member("ui_mode"@) == Some("iframe"@),
        iframe_doc(base_url, guild_id, role_id).text_member("embed_url"@) == Some(
            embed_url(base_url, guild_id, role_id),
        ),
        iframe_doc(base_url, guild_id, role_id).bool_member("supports_impersonation_readonly"@)
            == Some(true),
        iframe_doc(base_url, guild_id, role_id).int_member("version"@) == Some(1int),
        iframe_doc(base_url, guild_id, role_id).text_member("name"@) == Some("Steam Player Roles"@),
{
    reveal_strlit("version");
    reveal_strlit("ui_mode");
    reveal_strlit("name");
    reveal_strlit("description");
    reveal_strlit("embed_url");
    reveal_strlit("supports_impersonation_readonly");
    let e6 = iframe_doc(base_url, guild_id, role_id)->Object_0;
    let e5 = e6.drop_last();
    let e4 = e5.drop_last();
    let e3 = e4.drop_last();
    let e2 = e3.drop_last();
    assert(e5.last() == e6[4] && e4.last() == e6[3] && e3.last() == e6[2] && e2.last() == e6[1]);
    assert("ui_mode"@.len() == 7 && "name"@.len() == 4 && "description"@.len() == 11
        && "embed_url"@.len() == 9 && "supports_impersonation_readonly"@.len() == 31);
    assert("version"@[0] != "ui_mode"@[0]);
    json::lemma_entry_of_last(e6, "version"@, 0);
    reveal_with_fuel(json::entry_of, 6);
}

/// Build the iframe-mode response returned by GET /config. RoleLogic
/// appends `?rl_token=<jwt>` to `embed_url` before rendering the iframe;
/// the admin page verifies that token locally to authenticate the admin.
pub fn build_iframe_config(base_url: &str, guild_id: &str, role_id: &str) -> (r: Value)
    ensures
        r@ == iframe_doc(base_url@, guild_id@, role_id@),
{
    let mut url = text::owned(base_url);
    url.append("/admin/");
    url.append(guild_id);
    url.append("/role/");
    url.append(role_id);
    let entries = vec![
        json::entry("version", Value::Int(1)),
        json::entry("ui_mode", json::string("iframe")),
        json::entry("name", json::string("Steam Player Roles")),
        json::entry(
            "description",
            json::string(
                "Assign a Discord role based on a member's Steam account — games owned, playtime, achievements, level, account status, and more.",
            ),
        ),
        json::entry("embed_url", Value::Text(url)),
        json::entry("supports_impersonation_readonly", Value::Bool(true)),
    ];
    assert(json::doc_entries(entries@) =~= iframe_doc(
        base_url@,
        guild_id@,
        role_id@,
    )->Object_0);
    json::object(entries)
}

/// POST /config is unreachable in iframe mode — the RoleLogic backend
/// rejects it before forwarding — but the contract still expects 200 on the
/// off chance an older backend forwards a call. The token is verified before
/// this is answered.
pub fn accept_empty_config() -> (r: Value)
    ensures
        r@ == Doc::Object(seq![("success"@, Doc::Bool(true))]),
{
    let entries = vec![json::entry("success", Value::Bool(true))];
    assert(json::doc_entries(entries@) =~= seq![("success"@, Doc::Bool(true))]);
    json::object(entries)
}

/// The text that a configuration holds under the key, if it holds one.
pub open spec fn text_at(config: Map<Seq<char>, Value>, key: Seq<char>) -> Option<Seq<char>> {
    if config.contains_key(key) {
        config[key]@.as_text()
    } else {
        None
    }
}

/// The text that a configuration holds under the key, or none.
pub open spec fn text_or_none_at(config: Map<Seq<char>, Value>, key: Seq<char>) -> Seq<char> {
    match text_at(config, key) {
        Some(t) => t,
        None => Seq::empty(),
    }
}

/// The number that a configuration holds under the key: as a number, or as a text that is one.
pub open spec fn number_at(config: Map<Seq<char>, Value>, key: Seq<char>) -> Option<int> {
    if config.contains_key(key) {
        match config[key]@ {
            Doc::Int(n) => Some(n),
            Doc::Text(t) => text::signed_number(t, i64::MIN as int, i64::MAX as int),
            _ => None,
        }
    } else {
        None
    }
}

/// The key under which a configuration holds the value of a text field.
pub open spec fn value_key(field: ConditionField) -> Seq<char> {
    match field {
        ConditionField::HasAchievement => "value_achievement"@,
        ConditionField::InGroup => "value_group"@,
        _ => "value_country"@,
    }
}

/// The app id of a configuration: its text without surrounding white space, unless that is empty.
pub open spec fn app_id_in(config: Map<Seq<char>, Value>) -> Option<Seq<char>> {
    match text_at(config, "app_id"@) {
        Some(t) => if text::trimmed(t).len() > 0 {
            Some(text::trimmed(t))
        } else {
            None
        },
        None => None,
    }
}

/// The operator of a condition on the field: equality, unless the field is a number.
pub open spec fn operator_in(field: ConditionField, key: Seq<char>) -> Result<
    ConditionOperator,
    Failure,
> {
    if !condition::numeric_field(field) {
        Ok(ConditionOperator::Eq)
    } else if key.len() == 0 {
        Err(Failure::BadRequest("Pick a comparison (>=, =, between, …)"@))
    } else {
        match condition::operator_named(key) {
            Some(o) => Ok(o),
            None => Err(Failure::BadRequest("Invalid operator '"@ + key + "'"@)),
        }
    }
}

/// The value of a condition on the field. A country code is stored in capitals.
pub open spec fn value_in(
    config: Map<Seq<char>, Value>,
    field: ConditionField,
    num_key: Seq<char>,
    bool_key: Seq<char>,
) -> Result<Doc, Failure> {
    if condition::boolean_field(field) {
        Ok(Doc::Bool(text_at(config, bool_key) is None || text_at(config, bool_key)->0 == "true"@))
    } else if condition::text_field(field) {
        let t = text::trimmed(text_or_none_at(config, value_key(field)));
        if t.len() == 0 {
            Err(Failure::BadRequest("Value is required"@))
        } else if field is CountryCode {
            Ok(Doc::Text(text::uppercased(t)))
        } else {
            Ok(Doc::Text(t))
        }
    } else {
        match number_at(config, num_key) {
            Some(n) => Ok(Doc::Int(n)),
            None => Err(Failure::BadRequest("Numeric value is required"@)),
        }
    }
}

/// The end of the range of a condition.
pub open spec fn end_in(
    config: Map<Seq<char>, Value>,
    operator: ConditionOperator,
    start: Doc,
    end_key: Seq<char>,
) -> Result<Option<Doc>, Failure> {
    if operator is Between {
        match number_at(config, end_key) {
            Some(n) => if start.as_int() is Some && start.as_int()->0 > n {
                Err(
                    Failure::BadRequest("Start value must be less than or equal to end value"@),
                )
            } else {
                Ok(Some(Doc::Int(n)))
            },
            None => Err(Failure::BadRequest("End value is required for the between operator"@)),
        }
    } else {
        Ok(None)
    }
}

/// The condition on a field that is known and stands in the right category.
pub open spec fn rule_on(
    config: Map<Seq<char>, Value>,
    field: ConditionField,
    op_key: Seq<char>,
    num_key: Seq<char>,
    end_key: Seq<char>,
    bool_key: Seq<char>,
) -> Result<Rule, Failure> {
    let app_id = app_id_in(config);
    if condition::game_field(field) && app_id is None {
        Err(
            Failure::BadRequest(
                "Steam App ID is required for '"@ + condition::field_key(field) + "'"@,
            ),
        )
    } else {
        match operator_in(field, op_key) {
            Err(e) => Err(e),
            Ok(operator) => match value_in(config, field, num_key, bool_key) {
                Err(e) => Err(e),
                Ok(value) => match end_in(config, operator, value, end_key) {
                    Err(e) => Err(e),
                    Ok(value_end) => Ok(Rule { field, operator, value, value_end, app_id }),
                },
            },
        }
    }
}

/// The condition that a configuration describes, or why it describes none.
pub open spec fn rule_in(config: Map<Seq<char>, Value>) -> Result<Rule, Failure> {
    let category = text_or_none_at(config, "condition_category"@);
    let game = category == "game"@;
    let key = text_or_none_at(
        config,
        if game {
            "condition_field_game"@
        } else {
            "condition_field_account"@
        },
    );
    if !game && category != "account"@ {
        Err(Failure::BadRequest("Pick a category (Game-specific or Account-level)"@))
    } else if key.len() == 0 {
        Err(Failure::BadRequest("Pick a condition type"@))
    } else {
        match condition::field_named(key) {
            None => Err(Failure::BadRequest("Invalid condition field '"@ + key + "'"@)),
            Some(field) => if game && !condition::game_field(field) {
                Err(
                    Failure::BadRequest(
                        "That condition is account-level — switch the category to Account."@,
                    ),
                )
            } else if !game && condition::game_field(field) {
                Err(
                    Failure::BadRequest(
                        "That condition is game-specific — switch the category to Game."@,
                    ),
                )
            } else if game {
                rule_on(
                    config,
                    field,
                    text_or_none_at(config, "operator_game"@),
                    "value_num_game"@,
                    "value_end_game"@,
                    "value_bool_game"@,
                )
            } else {
                rule_on(
                    config,
                    field,
                    text_or_none_at(config, "operator_account"@),
                    "value_num_account"@,
                    "value_end_account"@,
                    "value_bool_account"@,
                )
            },
        }
    }
}

fn config_text<'a>(config: &'a Lookup<String, Value>, key: &str) -> (r: Option<&'a str>)
    ensures
        match r {
            Some(s) => text_at(config@, key@) == Some(s@),
            None => text_at(config@, key@) is None,
        },
{
    match config.get_str(key) {
        Some(v) => v.as_str(),
        None => None,
    }
}

fn config_text_or_none<'a>(config: &'a Lookup<String, Value>, key: &str) -> (r: &'a str)
    ensures
        r@ == text_or_none_at(config@, key@),
{
    match config_text(config, key) {
        Some(s) => s,
        None => {
            proof {
                reveal_strlit("");
            }
            ""
        },
    }
}

fn config_number(config: &Lookup<String, Value>, key: &str) -> (r: Option<i64>)
    ensures
        match r {
            Some(n) => number_at(config@, key@) == Some(n as int),
            None => number_at(config@, key@) is None,
        },
{
    match config.get_str(key) {
        Some(Value::Int(n)) => Some(*n),
        Some(Value::Text(s)) => text::parse_i64(s.as_str()),
        _ => None,
    }
}

fn quoted(before: &str, name: &str) -> (r: AppError)
    ensures
        r@ == Failure::BadRequest(before@ + name@ + "'"@),
{
    let mut m = text::owned(before);
    m.append(name);
    m.append("'");
    AppError::BadRequest(m)
}

fn config_app_id(config: &Lookup<String, Value>) -> (r: Option<String>)
    ensures
        condition::text_of(r) == app_id_in(config@),
{
    match config_text(config, "app_id") {
        Some(s) => {
            let t = text::trim(s);
            if t.as_str().is_empty() {
                None
            } else {
                Some(t)
            }
        },
        None => None,
    }
}

fn config_value(
    config: &Lookup<String, Value>,
    field: ConditionField,
    num_key: &str,
    bool_key: &str,
) -> (r: Result<Value, AppError>)
    ensures
        match r {
            Ok(v) => value_in(config@, field, num_key@, bool_key@) == Ok::<Doc, Failure>(v@),
            Err(e) => value_in(config@, field, num_key@, bool_key@) == Err::<Doc, Failure>(e@),
        },
        field is CountryCode && r is Ok ==> {
            let t = text::trimmed(text_or_none_at(config@, "value_country"@));
            vstd::utf8::is_ascii_chars(t) ==> r->Ok_0@ == Doc::Text(
                Seq::new(t.len(), |i: int| text::capital(t[i])),
            )
        },
{
    if field.is_boolean() {
        let on = match config_text(config, bool_key) {
            Some(s) => text::same(s, "true"),
            None => true,
        };
        Ok(Value::Bool(on))
    } else if field.is_string_exact() {
        let key: &str = match field {
            ConditionField::HasAchievement => "value_achievement",
            ConditionField::InGroup => "value_group",
            _ => "value_country",
        };
        let t = text::trim(config_text_or_none(config, key));
        if t.as_str().is_empty() {
            return Err(error::bad_request("Value is required"));
        }
        if field == ConditionField::CountryCode {
            Ok(Value::Text(text::to_uppercase(t.as_str())))
        } else {
            Ok(Value::Text(t))
        }
    } else {
        match config_number(config, num_key) {
            Some(n) => Ok(Value::Int(n)),
            None => Err(error::bad_request("Numeric value is required")),
        }
    }
}

fn config_operator(field: ConditionField, key: &str) -> (r: Result<ConditionOperator, AppError>)
    ensures
        match r {
            Ok(o) => operator_in(field, key@) == Ok::<ConditionOperator, Failure>(o),
            Err(e) => operator_in(field, key@) == Err::<ConditionOperator, Failure>(e@),
        },
{
    if field.is_boolean() || field.is_string_exact() {
        return Ok(ConditionOperator::Eq);
    }
    if key.is_empty() {
        return Err(error::bad_request("Pick a comparison (>=, =, between, …)"));
    }
    match ConditionOperator::from_key(key) {
        Some(o) => Ok(o),
        None => Err(quoted("Invalid operator '", key)),
    }
}

fn config_end(
    config: &Lookup<String, Value>,
    operator: ConditionOperator,
    start: &Value,
    end_key: &str,
) -> (r: Result<Option<Value>, AppError>)
    ensures
        match r {
            Ok(None) => end_in(config@, operator, start@, end_key@) == Ok::<Option<Doc>, Failure>(
                None,
            ),
            Ok(Some(v)) => end_in(config@, operator, start@, end_key@) == Ok::<
                Option<Doc>,
                Failure,
            >(Some(v@)),
            Err(e) => end_in(config@, operator, start@, end_key@) == Err::<Option<Doc>, Failure>(
                e@,
            ),
        },
{
    if operator != ConditionOperator::Between {
        return Ok(None);
    }
    match config_number(config, end_key) {
        None => Err(error::bad_request("End value is required for the between operator")),
        Some(n) => {
            if let Some(first) = start.as_i64() {
                if first > n {
                    return Err(
                        error::bad_request("Start value must be less than or equal to end value"),
                    );
                }
            }
            Ok(Some(Value::Int(n)))
        },
    }
}

/// The condition that an admin's form describes, as a list of one, or what is wrong with the form.
pub fn parse_config(config: &Lookup<String, Value>) -> (r: Result<Vec<Condition>, AppError>)
    ensures
        match r {
            Ok(v) => rule_in(config@) is Ok && condition::rules(v@) == seq![rule_in(config@)->Ok_0],
            Err(e) => rule_in(config@) == Err::<Rule, Failure>(e@),
        },
        r is Ok && r->Ok_0@[0].field is CountryCode ==> {
            let t = text::trimmed(text_or_none_at(config@, "value_country"@));
            vstd::utf8::is_ascii_chars(t) ==> r->Ok_0@[0].value@ == Doc::Text(
                Seq::new(t.len(), |i: int| text::capital(t[i])),
            )
        },
{
    let category = config_text_or_none(config, "condition_category");
    let game = text::same(category, "game");
    if !game && !text::same(category, "account") {
        return Err(error::bad_request("Pick a category (Game-specific or Account-level)"));
    }
    let (field_entry, operator_entry, num_key, end_key, bool_key) = if game {
        (
            "condition_field_game",
            "operator_game",
            "value_num_game",
            "value_end_game",
            "value_bool_game",
        )
    } else {
        (
            "condition_field_account",
            "operator_account",
            "value_num_account",
            "value_end_account",
            "value_bool_account",
        )
    };
    let field_key = config_text_or_none(config, field_entry);
    if field_key.is_empty() {
        return Err(error::bad_request("Pick a condition type"));
    }
    let field = match ConditionField::from_key(field_key) {
        Some(f) => f,
        None => return Err(quoted("Invalid condition field '", field_key)),
    };
    if game && !field.requires_app_id() {
        return Err(
            error::bad_request("That condition is account-level — switch the category to Account."),
        );
    }
    if !game && field.requires_app_id() {
        return Err(
            error::bad_request("That condition is game-specific — switch the category to Game."),
        );
    }
    let app_id = config_app_id(config);
    if field.requires_app_id() && app_id.is_none() {
        return Err(quoted("Steam App ID is required for '", field_key));
    }
    let operator_key = config_text_or_none(config, operator_entry);
    let operator = match config_operator(field, operator_key) {
        Ok(o) => o,
        Err(e) => return Err(e),
    };
    let value = match config_value(config, field, num_key, bool_key) {
        Ok(v) => v,
        Err(e) => return Err(e),
    };
    let value_end = match config_end(config, operator, &value, end_key) {
        Ok(v) => v,
        Err(e) => return Err(e),
    };
    let list = vec![Condition { field, operator, value, value_end, app_id }];
    assert(condition::rules(list@) =~= seq![rule_in(config@)->Ok_0]);
    Ok(list)
}

/// What POST /config should do with the stored publisher key.
#[derive(Debug, PartialEq)]
pub enum PublisherKeyAction {
    Keep,
    Clear,
    SetKey(String),
}

/// Is the character a hexadecimal digit?
pub open spec fn is_hex_digit(c: char) -> bool {
    ||| '0' <= c <= '9'
    ||| 'a' <= c <= 'f'
    ||| 'A' <= c <= 'F'
}

/// Is the text a publisher key: 32 hexadecimal digits?
pub open spec fn is_publisher_key(s: Seq<char>) -> bool {
    s.len() == 32 && forall|i: int| 0 <= i < s.len() ==> is_hex_digit(#[trigger] s[i])
}

fn looks_like_a_publisher_key(s: &str) -> (r: bool)
    ensures
        r == is_publisher_key(s@),
{
    let v = text::chars_of(s);
    if v.len() != 32 {
        return false;
    }
    let mut i: usize = 0;
    while i < 32
        invariant
            i <= 32,
            v@ == s@,
            s@.len() == 32,
            forall|j: int| 0 <= j < i ==> is_hex_digit(#[trigger] s@[j]),
        decreases 32 - i,
    {
        let c = v[i];
        let hex = ('0' <= c && c <= '9') || ('a' <= c && c <= 'f') || ('A' <= c && c <= 'F');
        assert(hex == is_hex_digit(s@[i as int]));
        if !hex {
            return false;
        }
        i += 1;
    }
    true
}

/// What a form says of the publisher key. Without the field (which is hidden for account-level
/// conditions) and with the mask, a stored key stays; an empty field clears it; a key replaces it.
pub fn parse_publisher_key(config: &Lookup<String, Value>) -> (r: Result<
    PublisherKeyAction,
    AppError,
>)
    ensures
        match text_at(config@, "publisher_key"@) {
            None => r == Ok::<PublisherKeyAction, AppError>(PublisherKeyAction::Keep),
            Some(s) => {
                let t = text::trimmed(s);
                if t == SECRET_MASK@ {
                    r == Ok::<PublisherKeyAction, AppError>(PublisherKeyAction::Keep)
                } else if t.len() == 0 {
                    r == Ok::<PublisherKeyAction, AppError>(PublisherKeyAction::Clear)
                } else if is_publisher_key(t) {
                    r matches Ok(PublisherKeyAction::SetKey(k)) && k@ == t
                } else {
                    r matches Err(e) && e@ == Failure::BadRequest(
                        "Publisher key must be the 32-character hexadecimal Web API key from the Steamworks partner site"@,
                    )
                }
            },
        },
{
    let raw = match config_text(config, "publisher_key") {
        // Field absent (e.g. hidden for account-level conditions) —
        // leave any stored key alone.
        None => return Ok(PublisherKeyAction::Keep),
        Some(s) => text::trim(s),
    };
    if text::same(raw.as_str(), SECRET_MASK) {
        return Ok(PublisherKeyAction::Keep);
    }
    if raw.as_str().is_empty() {
        return Ok(PublisherKeyAction::Clear);
    }
    if !looks_like_a_publisher_key(raw.as_str()) {
        return Err(
            error::bad_request(
                "Publisher key must be the 32-character hexadecimal Web API key from the Steamworks partner site",
            ),
        );
    }
    Ok(PublisherKeyAction::SetKey(raw))
}

/// A condition that can be saved is complete: one on a game names the game; one on a yes or no or
/// on a text asks for equality and has such a value; one on a number has a number; a range, and
/// nothing else, has an end, which is not before its start.
pub proof fn law_saved_conditions_are_complete(config: Map<Seq<char>, Value>)
    requires
        rule_in(config) is Ok,
    ensures
        ({
            let rule = rule_in(config)->Ok_0;
            &&& condition::game_field(rule.field) ==> rule.app_id is Some && rule.app_id->0.len() > 0
            &&& condition::boolean_field(rule.field) ==> rule.operator is Eq && rule.value is Bool
            &&& condition::text_field(rule.field) ==> rule.operator is Eq && rule.value is Text
            &&& condition::numeric_field(rule.field) ==> rule.value is Int
            &&& rule.operator is Between <==> rule.value_end is Some
            &&& rule.operator is Between ==> {
                &&& rule.value is Int
                &&& rule.value_end->0 is Int
                &&& rule.value->Int_0 <= rule.value_end->0->Int_0
            }
        }),
{
}

/// The mask is no publisher key, so a key can never be mistaken for it.
pub proof fn law_mask_is_no_key()
    ensures
        !is_publisher_key(SECRET_MASK@),
        SECRET_MASK@.len() > 0,
{
    reveal_strlit("••••••••");
}

// ── What is filled in is what is saved ─────────────────────────────────────

/// Does the form hold this text under the key?
pub open spec fn filled_in(config: Map<Seq<char>, Value>, key: Seq<char>, t: Seq<char>) -> bool {
    config.contains_key(key) && config[key]@ == Doc::Text(t)
}

/// A form on a number of the account is saved as it is filled in: the field, the comparison, the
/// number, and the end of a range that does not end before it starts.
pub proof fn law_account_numbers_are_saved_as_filled_in(
    config: Map<Seq<char>, Value>,
    field: ConditionField,
    operator: ConditionOperator,
    n: int,
    last: int,
)
    requires
        field is SteamLevel || field is AccountAgeDays || field is TotalGamesOwned,
        filled_in(config, "condition_category"@, "account"@),
        filled_in(config, "condition_field_account"@, condition::field_key(field)),
        filled_in(config, "operator_account"@, condition::operator_key(operator)),
        config.contains_key("value_num_account"@),
        config["value_num_account"@]@ == Doc::Int(n),
        operator is Between ==> config.contains_key("value_end_account"@)
            && config["value_end_account"@]@ == Doc::Int(last),
    ensures
        operator is Between && n > last ==> rule_in(config) is Err,
        !(operator is Between && n > last) ==> rule_in(config) is Ok && ({
            let rule = rule_in(config)->Ok_0;
            &&& rule.field == field
            &&& rule.operator == operator
            &&& rule.value == Doc::Int(n)
            &&& rule.value_end == if operator is Between {
                Some(Doc::Int(last))
            } else {
                None
            }
        }),
{
    reveal_strlit("account");
    reveal_strlit("game");
    assert("account"@.len() == 7 && "game"@.len() == 4);
    condition::law_names_lead_back(field, operator);
    condition::law_field_keys_differ(field, field);
    condition::law_operator_keys_differ(operator, operator);
}

/// A form on a number in a game is saved as it is filled in, with the app without the white space
/// around it; without an app it is not saved.
pub proof fn law_game_numbers_are_saved_as_filled_in(
    config: Map<Seq<char>, Value>,
    field: ConditionField,
    operator: ConditionOperator,
    n: int,
    last: int,
    app: Seq<char>,
)
    requires
        field is GamePlaytime || field is RecentPlaytime || field is AchievementCount
            || field is AchievementPercent,
        filled_in(config, "condition_category"@, "game"@),
        filled_in(config, "condition_field_game"@, condition::field_key(field)),
        filled_in(config, "operator_game"@, condition::operator_key(operator)),
        filled_in(config, "app_id"@, app),
        config.contains_key("value_num_game"@),
        config["value_num_game"@]@ == Doc::Int(n),
        operator is Between ==> config.contains_key("value_end_game"@)
            && config["value_end_game"@]@ == Doc::Int(last),
    ensures
        text::trimmed(app).len() == 0 ==> rule_in(config) is Err,
        operator is Between && n > last ==> rule_in(config) is Err,
        text::trimmed(app).len() > 0 && !(operator is Between && n > last) ==> rule_in(config) is Ok
            && ({
            let rule = rule_in(config)->Ok_0;
            &&& rule.field == field
            &&& rule.operator == operator
            &&& rule.value == Doc::Int(n)
            &&& rule.value_end == if operator is Between {
                Some(Doc::Int(last))
            } else {
                None
            }
            &&& rule.app_id == Some(text::trimmed(app))
        }),
{
    condition::law_names_lead_back(field, operator);
    condition::law_field_keys_differ(field, field);
    condition::law_operator_keys_differ(operator, operator);
}

/// A form on a yes or no is saved as it is filled in: "true" is yes, every other text is no, and
/// without one it is yes.
pub proof fn law_yes_and_no_are_saved_as_filled_in(
    config: Map<Seq<char>, Value>,
    field: ConditionField,
    answer: Option<Seq<char>>,
    app: Seq<char>,
)
    requires
        field is OwnsGame || field is IsVACBanned || field is IsGameBanned,
        ({
            let category = if field is OwnsGame {
                "game"@
            } else {
                "account"@
            };
            let (field_entry, bool_entry) = if field is OwnsGame {
                ("condition_field_game"@, "value_bool_game"@)
            } else {
                ("condition_field_account"@, "value_bool_account"@)
            };
            &&& filled_in(config, "condition_category"@, category)
            &&& filled_in(config, field_entry, condition::field_key(field))
            &&& answer matches Some(t) ==> filled_in(config, bool_entry, t)
            &&& answer is None ==> !config.contains_key(bool_entry)
        }),
        field is OwnsGame ==> filled_in(config, "app_id"@, app) && text::trimmed(app).len() > 0,
    ensures
        rule_in(config) is Ok,
        rule_in(config)->Ok_0.field == field,
        rule_in(config)->Ok_0.operator is Eq,
        rule_in(config)->Ok_0.value == Doc::Bool(answer is None || answer == Some("true"@)),
        rule_in(config)->Ok_0.value_end is None,
        field is OwnsGame ==> rule_in(config)->Ok_0.app_id == Some(text::trimmed(app)),
{
    reveal_strlit("account");
    reveal_strlit("game");
    assert("account"@.len() == 7 && "game"@.len() == 4);
    condition::law_names_lead_back(field, ConditionOperator::Eq);
    condition::law_field_keys_differ(field, field);
}

/// A form on a text is saved as it is filled in, without the white space around it; a blank one is
/// not saved.
pub proof fn law_texts_are_saved_as_filled_in(
    config: Map<Seq<char>, Value>,
    field: ConditionField,
    t: Seq<char>,
    app: Seq<char>,
)
    requires
        field is HasAchievement || field is InGroup || field is CountryCode,
        field is HasAchievement ==> {
            &&& filled_in(config, "condition_category"@, "game"@)
            &&& filled_in(config, "condition_field_game"@, condition::field_key(field))
            &&& filled_in(config, "value_achievement"@, t)
            &&& filled_in(config, "app_id"@, app) && text::trimmed(app).len() > 0
        },
        !(field is HasAchievement) ==> {
            &&& filled_in(config, "condition_category"@, "account"@)
            &&& filled_in(config, "condition_field_account"@, condition::field_key(field))
        },
        field is InGroup ==> filled_in(config, "value_group"@, t),
        field is CountryCode ==> filled_in(config, "value_country"@, t),
    ensures
        text::trimmed(t).len() == 0 ==> rule_in(config) is Err,
        text::trimmed(t).len() > 0 ==> {
            &&& rule_in(config) is Ok
            &&& rule_in(config)->Ok_0.field == field
            &&& rule_in(config)->Ok_0.operator is Eq
            &&& rule_in(config)->Ok_0.value_end is None
            &&& field is HasAchievement || field is InGroup ==> rule_in(config)->Ok_0.value
                == Doc::Text(text::trimmed(t))
            &&& field is CountryCode ==> rule_in(config)->Ok_0.value == Doc::Text(
                text::uppercased(text::trimmed(t)),
            )
            &&& field is HasAchievement ==> rule_in(config)->Ok_0.app_id == Some(
                text::trimmed(app),
            )
        },
{
    reveal_strlit("account");
    reveal_strlit("game");
    assert("account"@.len() == 7 && "game"@.len() == 4);
    condition::law_names_lead_back(field, ConditionOperator::Eq);
    condition::law_field_keys_differ(field, field);
}

/// A number may be filled in as a number or as a text that is one.
pub proof fn law_numbers_may_be_filled_in_as_texts(
    config: Map<Seq<char>, Value>,
    key: Seq<char>,
    n: i64,
)
    requires
        config.contains_key(key),
        config[key]@ == Doc::Int(n as int) || config[key]@ == Doc::Text(text::decimal(n as int)),
    ensures
        number_at(config, key) == Some(n as int),
{
    text::law_decimal_round_trip(n);
}

/// A form is refused when its condition stands in the wrong category.
pub proof fn law_conditions_stand_in_their_category(
    config: Map<Seq<char>, Value>,
    field: ConditionField,
)
    requires
        ({
            let about_a_game = field is OwnsGame || field is GamePlaytime || field
                is RecentPlaytime || field is AchievementCount || field is AchievementPercent
                || field is HasAchievement;
            if about_a_game {
                &&& filled_in(config, "condition_category"@, "account"@)
                &&& filled_in(config, "condition_field_account"@, condition::field_key(field))
            } else {
                &&& filled_in(config, "condition_category"@, "game"@)
                &&& filled_in(config, "condition_field_game"@, condition::field_key(field))
            }
        }),
    ensures
        rule_in(config) is Err,
        rule_in(config)->Err_0 is BadRequest,
{
    reveal_strlit("account");
    reveal_strlit("game");
    assert("account"@.len() == 7 && "game"@.len() == 4);
    condition::law_names_lead_back(field, ConditionOperator::Eq);
    condition::law_field_keys_differ(field, field);
}

/// A publisher key is 32 characters long, and each of them is a digit or one of the first six
/// letters.
pub proof fn law_a_publisher_key_is_32_hexadecimal_digits(s: Seq<char>)
    ensures
        is_publisher_key(s) <==> s.len() == 32 && forall|i: int|
            0 <= i < s.len() ==> {
                ||| '0' <= (#[trigger] s[i]) <= '9'
                ||| 'a' <= s[i] <= 'f'
                ||| 'A' <= s[i] <= 'F'
            },
{
    if is_publisher_key(s) {
        assert forall|i: int| 0 <= i < s.len() implies {
            ||| '0' <= (#[trigger] s[i]) <= '9'
            ||| 'a' <= s[i] <= 'f'
            ||| 'A' <= s[i] <= 'F'
        } by {
            assert(is_hex_digit(s[i]));
        }
    }
}

} // verus!
