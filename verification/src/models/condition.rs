//! Conditions on a player's Steam data.

use vstd::prelude::*;
use crate::json::{Doc, Value};
use crate::text;

verus! {

/// What a condition looks at.
#[derive(Debug, Clone, Copy, PartialEq, Eq, Structural)]
pub enum ConditionField {
    // Game-specific (require app_id)
    OwnsGame,
    GamePlaytime,
    RecentPlaytime,
    AchievementCount,
    AchievementPercent,
    HasAchievement,
    // Account-level
    SteamLevel,
    AccountAgeDays,
    TotalGamesOwned,
    IsVACBanned,
    IsGameBanned,
    InGroup,
    CountryCode,
}

/// How a condition compares.
#[derive(Debug, Clone, Copy, PartialEq, Eq, Structural)]
pub enum ConditionOperator {
    Eq,
    Gt,
    Gte,
    Lt,
    Lte,
    Between,
}

/// The name of a field in a configuration.
pub open spec fn field_key(f: ConditionField) -> Seq<char> {
    match f {
        ConditionField::OwnsGame => "ownsGame"@,
        ConditionField::GamePlaytime => "gamePlaytime"@,
        ConditionField::RecentPlaytime => "recentPlaytime"@,
        ConditionField::AchievementCount => "achievementCount"@,
        ConditionField::AchievementPercent => "achievementPercent"@,
        ConditionField::HasAchievement => "hasAchievement"@,
        ConditionField::SteamLevel => "steamLevel"@,
        ConditionField::AccountAgeDays => "accountAgeDays"@,
        ConditionField::TotalGamesOwned => "totalGamesOwned"@,
        ConditionField::IsVACBanned => "isVACBanned"@,
        ConditionField::IsGameBanned => "isGameBanned"@,
        ConditionField::InGroup => "inGroup"@,
        ConditionField::CountryCode => "countryCode"@,
    }
}

/// The column in which a field is stored for itself, if there is one.
pub open spec fn field_column(f: ConditionField) -> Option<Seq<char>> {
    match f {
        ConditionField::SteamLevel => Some("uc.steam_level"@),
        ConditionField::TotalGamesOwned => Some("uc.total_games_owned"@),
        ConditionField::IsVACBanned => Some("uc.is_vac_banned"@),
        ConditionField::IsGameBanned => Some("uc.is_game_banned"@),
        ConditionField::CountryCode => Some("uc.country_code"@),
        _ => None,
    }
}

/// The name of an operator in a configuration.
pub open spec fn operator_key(o: ConditionOperator) -> Seq<char> {
    match o {
        ConditionOperator::Eq => "eq"@,
        ConditionOperator::Gt => "gt"@,
        ConditionOperator::Gte => "gte"@,
        ConditionOperator::Lt => "lt"@,
        ConditionOperator::Lte => "lte"@,
        ConditionOperator::Between => "between"@,
    }
}

/// The operator as SQL writes it.
pub open spec fn operator_sql(o: ConditionOperator) -> Seq<char> {
    match o {
        ConditionOperator::Eq => "="@,
        ConditionOperator::Gt => ">"@,
        ConditionOperator::Gte => ">="@,
        ConditionOperator::Lt => "<"@,
        ConditionOperator::Lte => "<="@,
        ConditionOperator::Between => "BETWEEN"@,
    }
}

/// The field with this name, if there is one.
pub open spec fn field_named(key: Seq<char>) -> Option<ConditionField> {
    if exists|f: ConditionField| field_key(f) == key {
        Some(choose|f: ConditionField| field_key(f) == key)
    } else {
        None
    }
}

/// The operator with this name, if there is one.
pub open spec fn operator_named(key: Seq<char>) -> Option<ConditionOperator> {
    if exists|o: ConditionOperator| operator_key(o) == key {
        Some(choose|o: ConditionOperator| operator_key(o) == key)
    } else {
        None
    }
}

/// Is the field a yes or no?
pub open spec fn boolean_field(f: ConditionField) -> bool {
    f is OwnsGame || f is IsVACBanned || f is IsGameBanned
}

/// Is the field a text that is met exactly or not at all?
pub open spec fn text_field(f: ConditionField) -> bool {
    f is HasAchievement || f is InGroup || f is CountryCode
}

/// Is the field a number?
pub open spec fn numeric_field(f: ConditionField) -> bool {
    ||| f is GamePlaytime
    ||| f is RecentPlaytime
    ||| f is AchievementCount
    ||| f is AchievementPercent
    ||| f is SteamLevel
    ||| f is AccountAgeDays
    ||| f is TotalGamesOwned
}

/// Is the field about one game?
pub open spec fn game_field(f: ConditionField) -> bool {
    ||| f is OwnsGame
    ||| f is GamePlaytime
    ||| f is RecentPlaytime
    ||| f is AchievementCount
    ||| f is AchievementPercent
    ||| f is HasAchievement
}

/// The names of different fields differ.
pub proof fn law_field_keys_differ(a: ConditionField, b: ConditionField)
    ensures
        field_key(a) == field_key(b) ==> a == b,
        field_key(a).len() > 0,
{
    reveal_strlit("ownsGame");
    reveal_strlit("gamePlaytime");
    reveal_strlit("recentPlaytime");
    reveal_strlit("achievementCount");
    reveal_strlit("achievementPercent");
    reveal_strlit("hasAchievement");
    reveal_strlit("steamLevel");
    reveal_strlit("accountAgeDays");
    reveal_strlit("totalGamesOwned");
    reveal_strlit("isVACBanned");
    reveal_strlit("isGameBanned");
    reveal_strlit("inGroup");
    reveal_strlit("countryCode");
    assert(field_key(a) == field_key(b) ==> field_key(a).len() == field_key(b).len());
    assert(field_key(a) == field_key(b) ==> field_key(a)[0] == field_key(b)[0] && field_key(a)[1]
        == field_key(b)[1]);
}

/// The names of different operators differ.
pub proof fn law_operator_keys_differ(a: ConditionOperator, b: ConditionOperator)
    ensures
        operator_key(a) == operator_key(b) ==> a == b,
        operator_key(a).len() > 0,
{
    reveal_strlit("eq");
    reveal_strlit("gt");
    reveal_strlit("gte");
    reveal_strlit("lt");
    reveal_strlit("lte");
    reveal_strlit("between");
    assert(operator_key(a) == operator_key(b) ==> operator_key(a).len() == operator_key(b).len());
    assert(operator_key(a) == operator_key(b) ==> operator_key(a)[0] == operator_key(b)[0]);
}

/// A field is found again by its name, and an operator by its own.
pub proof fn law_names_lead_back(f: ConditionField, o: ConditionOperator)
    ensures
        field_named(field_key(f)) == Some(f),
        operator_named(operator_key(o)) == Some(o),
{
    law_field_keys_differ(field_named(field_key(f))->0, f);
    law_operator_keys_differ(operator_named(operator_key(o))->0, o);
}

/// Every field is of exactly one class: a yes or no, a text, or a number.
pub proof fn law_field_classes_partition(f: ConditionField)
    ensures
        boolean_field(f) ==> !text_field(f) && !numeric_field(f),
        text_field(f) ==> !numeric_field(f),
        boolean_field(f) || text_field(f) || numeric_field(f),
{
}

impl ConditionField {
    /// Is the field a yes or no?
    pub fn is_boolean(&self) -> (r: bool)
        ensures
            r == boolean_field(*self),
    {
        matches!(self, Self::OwnsGame | Self::IsVACBanned | Self::IsGameBanned)
    }

    /// Is the field a text that is met exactly or not at all?
    pub fn is_string_exact(&self) -> (r: bool)
        ensures
            r == text_field(*self),
    {
        matches!(self, Self::HasAchievement | Self::InGroup | Self::CountryCode)
    }

    /// Is the field a number?
    pub fn is_numeric(&self) -> (r: bool)
        ensures
            r == numeric_field(*self),
    {
        !self.is_boolean() && !self.is_string_exact()
    }

    /// Does a condition on the field need a Steam app id?
    pub fn requires_app_id(&self) -> (r: bool)
        ensures
            r == game_field(*self),
    {
        matches!(
            self,
            Self::OwnsGame
                | Self::GamePlaytime
                | Self::RecentPlaytime
                | Self::AchievementCount
                | Self::AchievementPercent
                | Self::HasAchievement
        )
    }

    /// The name of the field in a configuration.
    pub fn json_key(&self) -> (r: &'static str)
        ensures
            r@ == field_key(*self),
    {
        match self {
            Self::OwnsGame => "ownsGame",
            Self::GamePlaytime => "gamePlaytime",
            Self::RecentPlaytime => "recentPlaytime",
            Self::AchievementCount => "achievementCount",
            Self::AchievementPercent => "achievementPercent",
            Self::HasAchievement => "hasAchievement",
            Self::SteamLevel => "steamLevel",
            Self::AccountAgeDays => "accountAgeDays",
            Self::TotalGamesOwned => "totalGamesOwned",
            Self::IsVACBanned => "isVACBanned",
            Self::IsGameBanned => "isGameBanned",
            Self::InGroup => "inGroup",
            Self::CountryCode => "countryCode",
        }
    }

    /// Returns the PostgreSQL column name for denormalized fields,
    /// or None for fields that require JSONB/achievement queries.
    pub fn sql_column(&self) -> (r: Option<&'static str>)
        ensures
            match r {
                Some(c) => field_column(*self) == Some(c@),
                None => field_column(*self) is None,
            },
    {
        match self {
            Self::SteamLevel => Some("uc.steam_level"),
            Self::TotalGamesOwned => Some("uc.total_games_owned"),
            Self::IsVACBanned => Some("uc.is_vac_banned"),
            Self::IsGameBanned => Some("uc.is_game_banned"),
            Self::CountryCode => Some("uc.country_code"),
            // AccountAgeDays computed from account_created
            // Game-specific fields require JSONB or achievement table
            _ => None,
        }
    }

    /// The field with this name.
    pub fn from_key(key: &str) -> (r: Option<Self>)
        ensures
            r == field_named(key@),
            forall|f: ConditionField| (r == Some(f)) == (#[trigger] field_key(f) == key@),
    {
        proof {
            assert forall|f: ConditionField, g: ConditionField|
                #[trigger] field_key(f) == #[trigger] field_key(g) implies f == g by {
                law_field_keys_differ(f, g);
            }
        }
        let r = if text::same(key, "ownsGame") {
            Some(Self::OwnsGame)
        } else if text::same(key, "gamePlaytime") {
            Some(Self::GamePlaytime)
        } else if text::same(key, "recentPlaytime") {
            Some(Self::RecentPlaytime)
        } else if text::same(key, "achievementCount") {
            Some(Self::AchievementCount)
        } else if text::same(key, "achievementPercent") {
            Some(Self::AchievementPercent)
        } else if text::same(key, "hasAchievement") {
            Some(Self::HasAchievement)
        } else if text::same(key, "steamLevel") {
            Some(Self::SteamLevel)
        } else if text::same(key, "accountAgeDays") {
            Some(Self::AccountAgeDays)
        } else if text::same(key, "totalGamesOwned") {
            Some(Self::TotalGamesOwned)
        } else if text::same(key, "isVACBanned") {
            Some(Self::IsVACBanned)
        } else if text::same(key, "isGameBanned") {
            Some(Self::IsGameBanned)
        } else if text::same(key, "inGroup") {
            Some(Self::InGroup)
        } else if text::same(key, "countryCode") {
            Some(Self::CountryCode)
        } else {
            None
        };
        proof {
            if let Some(x) = r {
                assert(field_key(x) == key@);
            }
        }
        r
    }
}

impl ConditionOperator {
    /// The operator with this name.
    pub fn from_key(key: &str) -> (r: Option<Self>)
        ensures
            r == operator_named(key@),
            forall|o: ConditionOperator| (r == Some(o)) == (#[trigger] operator_key(o) == key@),
    {
        proof {
            assert forall|o: ConditionOperator, p: ConditionOperator|
                #[trigger] operator_key(o) == #[trigger] operator_key(p) implies o == p by {
                law_operator_keys_differ(o, p);
            }
        }
        let r = if text::same(key, "eq") {
            Some(Self::Eq)
        } else if text::same(key, "gt") {
            Some(Self::Gt)
        } else if text::same(key, "gte") {
            Some(Self::Gte)
        } else if text::same(key, "lt") {
            Some(Self::Lt)
        } else if text::same(key, "lte") {
            Some(Self::Lte)
        } else if text::same(key, "between") {
            Some(Self::Between)
        } else {
            None
        };
        proof {
            if let Some(x) = r {
                assert(operator_key(x) == key@);
            }
        }
        r
    }

    /// The name of the operator in a configuration.
    pub fn key(&self) -> (r: &'static str)
        ensures
            r@ == operator_key(*self),
    {
        match self {
            Self::Eq => "eq",
            Self::Gt => "gt",
            Self::Gte => "gte",
            Self::Lt => "lt",
            Self::Lte => "lte",
            Self::Between => "between",
        }
    }

    /// The operator as SQL writes it.
    pub fn sql_operator(&self) -> (r: &'static str)
        ensures
            r@ == operator_sql(*self),
    {
        match self {
            Self::Eq => "=",
            Self::Gt => ">",
            Self::Gte => ">=",
            Self::Lt => "<",
            Self::Lte => "<=",
            Self::Between => "BETWEEN",
        }
    }
}

/// A condition on a player's data.
#[derive(Debug)]
pub struct Condition {
    pub field: ConditionField,
    pub operator: ConditionOperator,
    pub value: Value,
    pub value_end: Option<Value>,
    /// Steam App ID for game-specific conditions
    pub app_id: Option<String>,
}

/// What a condition says.
pub struct Rule {
    pub field: ConditionField,
    pub operator: ConditionOperator,
    pub value: Doc,
    pub value_end: Option<Doc>,
    pub app_id: Option<Seq<char>>,
}

/// The text in an optional `String`.
pub open spec fn text_of(s: Option<String>) -> Option<Seq<char>> {
    match s {
        Some(t) => Some(t@),
        None => None,
    }
}

impl View for Condition {
    type V = Rule;

    open spec fn view(&self) -> Rule {
        Rule {
            field: self.field,
            operator: self.operator,
            value: self.value@,
            value_end: match self.value_end {
                Some(v) => Some(v@),
                None => None,
            },
            app_id: text_of(self.app_id),
        }
    }
}

/// What a list of conditions says.
pub open spec fn rules(v: Seq<Condition>) -> Seq<Rule> {
    Seq::new(v.len(), |i: int| v[i]@)
}

/// A field is known by its own name, in small letters at the start, and by no other.
pub proof fn law_fields_go_by_their_names(key: Seq<char>)
    ensures
        field_named(key) == Some(ConditionField::OwnsGame) <==> key == "ownsGame"@,
        field_named(key) == Some(ConditionField::GamePlaytime) <==> key == "gamePlaytime"@,
        field_named(key) == Some(ConditionField::RecentPlaytime) <==> key == "recentPlaytime"@,
        field_named(key) == Some(ConditionField::AchievementCount) <==> key == "achievementCount"@,
        field_named(key) == Some(ConditionField::AchievementPercent) <==> key == "achievementPercent"@,
        field_named(key) == Some(ConditionField::HasAchievement) <==> key == "hasAchievement"@,
        field_named(key) == Some(ConditionField::SteamLevel) <==> key == "steamLevel"@,
        field_named(key) == Some(ConditionField::AccountAgeDays) <==> key == "accountAgeDays"@,
        field_named(key) == Some(ConditionField::TotalGamesOwned) <==> key == "totalGamesOwned"@,
        field_named(key) == Some(ConditionField::IsVACBanned) <==> key == "isVACBanned"@,
        field_named(key) == Some(ConditionField::IsGameBanned) <==> key == "isGameBanned"@,
        field_named(key) == Some(ConditionField::InGroup) <==> key == "inGroup"@,
        field_named(key) == Some(ConditionField::CountryCode) <==> key == "countryCode"@,
{
    law_names_lead_back(ConditionField::OwnsGame, ConditionOperator::Eq);
    law_names_lead_back(ConditionField::GamePlaytime, ConditionOperator::Eq);
    law_names_lead_back(ConditionField::RecentPlaytime, ConditionOperator::Eq);
    law_names_lead_back(ConditionField::AchievementCount, ConditionOperator::Eq);
    law_names_lead_back(ConditionField::AchievementPercent, ConditionOperator::Eq);
    law_names_lead_back(ConditionField::HasAchievement, ConditionOperator::Eq);
    law_names_lead_back(ConditionField::SteamLevel, ConditionOperator::Eq);
    law_names_lead_back(ConditionField::AccountAgeDays, ConditionOperator::Eq);
    law_names_lead_back(ConditionField::TotalGamesOwned, ConditionOperator::Eq);
    law_names_lead_back(ConditionField::IsVACBanned, ConditionOperator::Eq);
    law_names_lead_back(ConditionField::IsGameBanned, ConditionOperator::Eq);
    law_names_lead_back(ConditionField::InGroup, ConditionOperator::Eq);
    law_names_lead_back(ConditionField::CountryCode, ConditionOperator::Eq);
}

/// A comparison is known by its own name, in small letters, and by no other.
pub proof fn law_comparisons_go_by_their_names(key: Seq<char>)
    ensures
        operator_named(key) == Some(ConditionOperator::Eq) <==> key == "eq"@,
        operator_named(key) == Some(ConditionOperator::Gt) <==> key == "gt"@,
        operator_named(key) == Some(ConditionOperator::Gte) <==> key == "gte"@,
        operator_named(key) == Some(ConditionOperator::Lt) <==> key == "lt"@,
        operator_named(key) == Some(ConditionOperator::Lte) <==> key == "lte"@,
        operator_named(key) == Some(ConditionOperator::Between) <==> key == "between"@,
{
    law_names_lead_back(ConditionField::OwnsGame, ConditionOperator::Eq);
    law_names_lead_back(ConditionField::OwnsGame, ConditionOperator::Gt);
    law_names_lead_back(ConditionField::OwnsGame, ConditionOperator::Gte);
    law_names_lead_back(ConditionField::OwnsGame, ConditionOperator::Lt);
    law_names_lead_back(ConditionField::OwnsGame, ConditionOperator::Lte);
    law_names_lead_back(ConditionField::OwnsGame, ConditionOperator::Between);
}

/// No two fields share a column, and a field has one exactly where the cache holds it as it is.
pub proof fn law_columns_differ(a: ConditionField, b: ConditionField)
    ensures
        field_column(a) is Some && field_column(a) == field_column(b) ==> a == b,
        field_column(a) is Some <==> a is SteamLevel || a is TotalGamesOwned || a is IsVACBanned
            || a is IsGameBanned || a is CountryCode,
        field_column(a) == Some("uc.is_vac_banned"@) <==> a is IsVACBanned,
        field_column(a) == Some("uc.is_game_banned"@) <==> a is IsGameBanned,
        field_column(a) == Some("uc.steam_level"@) <==> a is SteamLevel,
        field_column(a) == Some("uc.total_games_owned"@) <==> a is TotalGamesOwned,
        field_column(a) == Some("uc.country_code"@) <==> a is CountryCode,
{
    reveal_strlit("uc.steam_level");
    reveal_strlit("uc.total_games_owned");
    reveal_strlit("uc.is_vac_banned");
    reveal_strlit("uc.is_game_banned");
    reveal_strlit("uc.country_code");
    assert("uc.steam_level"@.len() == 14 && "uc.total_games_owned"@.len() == 20
        && "uc.is_vac_banned"@.len() == 16 && "uc.is_game_banned"@.len() == 17
        && "uc.country_code"@.len() == 15);
}

/// A comparison is written in SQL by its own sign, and no two share one.
pub proof fn law_signs_differ(o: ConditionOperator)
    ensures
        operator_sql(o) == "="@ <==> o is Eq,
        operator_sql(o) == ">"@ <==> o is Gt,
        operator_sql(o) == ">="@ <==> o is Gte,
        operator_sql(o) == "<"@ <==> o is Lt,
        operator_sql(o) == "<="@ <==> o is Lte,
        operator_sql(o) == "BETWEEN"@ <==> o is Between,
{
    reveal_strlit("=");
    reveal_strlit(">");
    reveal_strlit(">=");
    reveal_strlit("<");
    reveal_strlit("<=");
    reveal_strlit("BETWEEN");
    assert("="@.len() == 1 && ">"@.len() == 1 && "<"@.len() == 1);
    assert(">="@.len() == 2 && "<="@.len() == 2 && "BETWEEN"@.len() == 7);
    assert("="@[0] == '=' && ">"@[0] == '>' && "<"@[0] == '<');
    assert(">="@[0] == '>' && "<="@[0] == '<');
}

} // verus!
