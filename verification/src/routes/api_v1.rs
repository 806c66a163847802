//! The API by which other services read a guild's linked users.
//!
//! The guild is the key's: no request names one. A page is cut where a row more than it holds
//! shows that there is another, and the next one begins behind the last identifier of this one.

use vstd::prelude::*;
use vstd::string::*;

use crate::error::{AppError, ErrorView};
use crate::json::{array_view, object_view, string_opt, text_opt, text_or_null, Json, JsonView};
use crate::services::api_key::{ApiKeyContext, RATE_BURST, RATE_PER_MINUTE, SCOPE_USERS_READ};
use crate::text::{decimal, decimal_of, str_eq, texts};
use crate::time::{format_rfc3339, parse_rfc3339, rfc3339, rfc3339_text, valid_opt, Timestamp};

verus! {

/// How many users a page holds where the caller does not say.
pub const DEFAULT_LIMIT: i64 = 100;

/// How many users a page holds at most.
pub const MAX_LIMIT: i64 = 500;

/// What a request for a page asks.
#[derive(Debug)]
pub struct ListQuery {
    /// How many users the page is to hold.
    pub limit: Option<i64>,
    /// Where the last page ended.
    pub cursor: Option<String>,
    /// Only users whose record changed at this time or later.
    pub updated_since: Option<String>,
    /// Only users with this relation.
    pub relation: Option<String>,
}

/// A page's size: at least one, at most the largest.
pub open spec fn page_size(asked: Option<i64>) -> i64 {
    match asked {
        None => DEFAULT_LIMIT,
        Some(n) => if n < 1 {
            1
        } else if n > MAX_LIMIT {
            MAX_LIMIT
        } else {
            n
        },
    }
}

/// A page's size.
pub fn clamp_limit(asked: Option<i64>) -> (r: i64)
    ensures
        r == page_size(asked),
        1 <= r <= MAX_LIMIT,
{
    match asked {
        None => DEFAULT_LIMIT,
        Some(n) => if n < 1 {
            1
        } else if n > MAX_LIMIT {
            MAX_LIMIT
        } else {
            n
        },
    }
}

/// The instant that a caller gave, given what its text was read as; or the refusal.
pub open spec fn since_given(raw: Option<Seq<char>>, read: Option<Timestamp>) -> Result<
    Option<Timestamp>,
    ErrorView,
> {
    match raw {
        None => Ok(None),
        Some(s) => match read {
            Some(t) => Ok(Some(t)),
            None => Err(
                ErrorView::BadRequest(
                    "`updated_since` must be an RFC 3339 timestamp (e.g. 2026-07-27T00:00:00Z); got `"@ + s + "`."@,
                ),
            ),
        },
    }
}

/// The instant that a caller's text writes.
pub open spec fn since_read(raw: Option<Seq<char>>) -> Option<Timestamp> {
    match raw {
        Some(s) => rfc3339(s),
        None => None,
    }
}

/// Whether a result is the given one.
pub open spec fn is_since(
    r: Result<Option<Timestamp>, AppError>,
    wanted: Result<Option<Timestamp>, ErrorView>,
) -> bool {
    match wanted {
        Ok(t) => r is Ok && r->Ok_0 == t,
        Err(e) => r is Err && r->Err_0@ == e,
    }
}

/// The instant that a caller gave, given what its text was read as.
pub fn updated_since_given(raw: Option<&str>, read: Option<Timestamp>) -> (r: Result<Option<Timestamp>, AppError>)
    ensures
        is_since(r, since_given(text_opt(raw), read)),
{
    match raw {
        None => Ok(None),
        Some(s) => match read {
            Some(t) => Ok(Some(t)),
            None => Err(
                AppError::BadRequest(
                    "`updated_since` must be an RFC 3339 timestamp (e.g. 2026-07-27T00:00:00Z); got `".to_owned().concat(
                        s,
                    ).concat("`."),
                ),
            ),
        },
    }
}

/// The instant that a caller gave.
pub fn parse_updated_since(raw: Option<&str>) -> (r: Result<Option<Timestamp>, AppError>)
    ensures
        is_since(r, since_given(text_opt(raw), since_read(text_opt(raw)))),
{
    let read = match raw {
        Some(s) => parse_rfc3339(s),
        None => None,
    };
    updated_since_given(raw, read)
}

/// The column of a relation.
pub open spec fn relation_column(name: Seq<char>) -> Option<Seq<char>> {
    if name == "follower"@ {
        Some("is_follower"@)
    } else if name == "subscriber"@ {
        Some("is_subscriber"@)
    } else if name == "vip"@ {
        Some("is_vip"@)
    } else if name == "og"@ {
        Some("is_og"@)
    } else if name == "moderator"@ {
        Some("is_moderator"@)
    } else {
        None
    }
}

/// The column to filter by, or the refusal.
pub open spec fn filter_column(raw: Option<Seq<char>>) -> Result<Option<Seq<char>>, ErrorView> {
    match raw {
        None => Ok(None),
        Some(s) => match relation_column(s) {
            Some(column) => Ok(Some(column)),
            None => Err(
                ErrorView::BadRequest(
                    "Unknown `relation` filter `"@ + s
                        + "` (expected follower, subscriber, vip, og, or moderator)."@,
                ),
            ),
        },
    }
}

/// The column to filter by. What the caller wrote is only ever compared: the column is one of
/// five that stand here.
pub fn parse_relation(raw: Option<&str>) -> (r: Result<Option<&'static str>, AppError>)
    ensures
        match filter_column(text_opt(raw)) {
            Ok(column) => r is Ok && text_opt(r->Ok_0) == column,
            Err(e) => r is Err && r->Err_0@ == e,
        },
{
    let s = match raw {
        Some(s) => s,
        None => return Ok(None),
    };
    if str_eq(s, "follower") {
        Ok(Some("is_follower"))
    } else if str_eq(s, "subscriber") {
        Ok(Some("is_subscriber"))
    } else if str_eq(s, "vip") {
        Ok(Some("is_vip"))
    } else if str_eq(s, "og") {
        Ok(Some("is_og"))
    } else if str_eq(s, "moderator") {
        Ok(Some("is_moderator"))
    } else {
        Err(
            AppError::BadRequest(
                "Unknown `relation` filter `".to_owned().concat(s).concat(
                    "` (expected follower, subscriber, vip, og, or moderator).",
                ),
            ),
        )
    }
}

/// When a user's record last changed.
pub const UPDATED_AT: &'static str = "GREATEST(ku.refreshed_at, COALESCE(max(cr.last_synced_at), ku.refreshed_at))";

/// The statement's text up to the expression for when a record changed.
pub const USERS_SELECT: &'static str = "SELECT ku.discord_id, \
    ku.discord_name, \
    ku.kick_username, \
    ku.kick_user_id, \
    COALESCE(bool_or(cr.is_follower),   false) AS is_follower, \
    COALESCE(bool_or(cr.is_subscriber), false) AS is_subscriber, \
    COALESCE(bool_or(cr.is_vip),        false) AS is_vip, \
    COALESCE(bool_or(cr.is_og),         false) AS is_og, \
    COALESCE(bool_or(cr.is_moderator),  false) AS is_moderator, \
    COALESCE(max(cr.sub_months_cumulative), 0) AS sub_months_cumulative, \
    COALESCE(max(cr.sub_streak_months),    0) AS sub_streak_months, \
    COALESCE(sum(cr.gifted_subs_given),    0)::int AS gifted_subs_given, \
    min(cr.followed_at)  AS followed_at, \
    max(cr.last_seen_at) AS last_seen_at, \
    ku.linked_at, ";

/// The statement's text between the two.
pub const USERS_FROM: &'static str = " AS updated_at \
    FROM kick_users ku \
    LEFT JOIN guild_broadcasters gb ON gb.guild_id = $1 \
    LEFT JOIN channel_relations cr \
    ON cr.kick_user_id = ku.kick_user_id \
    AND cr.kick_channel_id = gb.kick_channel_id \
    WHERE ku.discord_id = ANY($2) \
    AND ($3::text IS NULL OR ku.discord_id > $3) \
    AND ($6::text IS NULL OR ku.discord_id = $6) \
    GROUP BY ku.discord_id, ku.discord_name, ku.kick_username, \
    ku.kick_user_id, ku.linked_at, ku.refreshed_at \
    HAVING ($4::timestamptz IS NULL OR ";

/// The statement's text behind the filter by relation.
pub const USERS_ORDER: &'static str = " ORDER BY ku.discord_id ASC LIMIT $5";

/// The filter by a column.
pub open spec fn having(column: Option<Seq<char>>) -> Seq<char> {
    match column {
        Some(c) => " AND COALESCE(bool_or(cr."@ + c + "), false)"@,
        None => seq![],
    }
}

/// The statement that reads users: one row per linked member, with the member's relations to all
/// the guild's channels taken together, in the order of their identifiers.
pub open spec fn users_statement(column: Option<Seq<char>>) -> Seq<char> {
    USERS_SELECT@ + UPDATED_AT@ + USERS_FROM@ + UPDATED_AT@ + " >= $4)"@ + having(column) + USERS_ORDER@
}

/// The statement that reads users. Its parameters are the guild, the members, the cursor, the
/// earliest change, the number of rows and the one identifier asked for.
pub fn users_sql(column: Option<&str>) -> (r: String)
    ensures
        r@ == users_statement(text_opt(column)),
{
    let filter = match column {
        Some(c) => " AND COALESCE(bool_or(cr.".to_owned().concat(c).concat("), false)"),
        None => {
            let r = String::new();
            assert(r@ =~= having(text_opt(column)));
            r
        },
    };
    USERS_SELECT.to_owned().concat(UPDATED_AT).concat(USERS_FROM).concat(UPDATED_AT).concat(" >= $4)").concat(
        filter.as_str(),
    ).concat(USERS_ORDER)
}

/// Which users are read.
#[derive(Debug)]
pub struct UserFilter {
    pub after: Option<String>,
    pub updated_since: Option<Timestamp>,
    pub relation: Option<&'static str>,
    pub only_discord_id: Option<String>,
    pub limit: i64,
}

/// What a filter is.
pub struct FilterView {
    pub after: Option<Seq<char>>,
    pub updated_since: Option<Timestamp>,
    pub relation: Option<Seq<char>>,
    pub only_discord_id: Option<Seq<char>>,
    pub limit: int,
}

impl View for UserFilter {
    type V = FilterView;

    open spec fn view(&self) -> FilterView {
        FilterView {
            after: string_opt(self.after),
            updated_since: self.updated_since,
            relation: text_opt(self.relation),
            only_discord_id: string_opt(self.only_discord_id),
            limit: self.limit as int,
        }
    }
}

/// What a request for a page has read, or why it is refused: the time is looked at before the
/// relation, and one row more than the page holds is asked for.
pub open spec fn list_filter(
    limit: Option<i64>,
    cursor: Option<Seq<char>>,
    since: Option<Seq<char>>,
    read: Option<Timestamp>,
    relation: Option<Seq<char>>,
) -> Result<FilterView, ErrorView> {
    match since_given(since, read) {
        Err(e) => Err(e),
        Ok(updated_since) => match filter_column(relation) {
            Err(e) => Err(e),
            Ok(column) => Ok(
                FilterView {
                    after: cursor,
                    updated_since,
                    relation: column,
                    only_discord_id: None,
                    limit: page_size(limit) + 1,
                },
            ),
        },
    }
}

/// What a request for a page has read.
pub fn read_query(q: ListQuery) -> (r: Result<UserFilter, AppError>)
    ensures
        match list_filter(
            q.limit,
            string_opt(q.cursor),
            string_opt(q.updated_since),
            since_read(string_opt(q.updated_since)),
            string_opt(q.relation),
        ) {
            Ok(f) => r is Ok && r->Ok_0@ == f,
            Err(e) => r is Err && r->Err_0@ == e,
        },
{
    let limit: i64 = clamp_limit(q.limit);
    let since = match &q.updated_since {
        Some(s) => parse_updated_since(Some(s.as_str())),
        None => parse_updated_since(None),
    };
    let updated_since = match since {
        Ok(t) => t,
        Err(e) => return Err(e),
    };
    let column = match &q.relation {
        Some(s) => parse_relation(Some(s.as_str())),
        None => parse_relation(None),
    };
    let relation = match column {
        Ok(c) => c,
        Err(e) => return Err(e),
    };
    Ok(UserFilter { after: q.cursor, updated_since, relation, only_discord_id: None, limit: limit + 1 })
}

/// What a request for one user has read.
pub fn single_filter(discord_id: &str) -> (r: UserFilter)
    ensures
        r@ == (FilterView {
            after: None,
            updated_since: None,
            relation: None,
            only_discord_id: Some(discord_id@),
            limit: 1,
        }),
{
    UserFilter {
        after: None,
        updated_since: None,
        relation: None,
        only_discord_id: Some(discord_id.to_owned()),
        limit: 1,
    }
}

/// A linked member.
#[derive(Debug)]
pub struct UserRow {
    pub discord_id: String,
    pub discord_name: Option<String>,
    pub kick_username: String,
    pub kick_user_id: i64,
    pub is_follower: bool,
    pub is_subscriber: bool,
    pub is_vip: bool,
    pub is_og: bool,
    pub is_moderator: bool,
    pub sub_months_cumulative: i32,
    pub sub_streak_months: i32,
    pub gifted_subs_given: i32,
    pub followed_at: Option<Timestamp>,
    pub last_seen_at: Option<Timestamp>,
    pub linked_at: Timestamp,
    pub updated_at: Timestamp,
}

/// An instant as RFC 3339 writes it.
pub open spec fn time_json(t: Timestamp) -> JsonView {
    JsonView::Str(rfc3339_text(t.secs, t.nanos))
}

/// An instant as RFC 3339 writes it, or null.
pub open spec fn time_or_null(t: Option<Timestamp>) -> JsonView {
    match t {
        Some(t) => time_json(t),
        None => JsonView::Null,
    }
}

/// An instant as RFC 3339 writes it.
pub(crate) fn json_time(t: Timestamp) -> (r: Json)
    requires
        t.valid(),
    ensures
        r@ == time_json(t),
{
    Json::Str(format_rfc3339(t))
}

/// An instant as RFC 3339 writes it, or null.
pub(crate) fn json_time_or_null(t: Option<Timestamp>) -> (r: Json)
    requires
        valid_opt(t),
    ensures
        r@ == time_or_null(t),
{
    match t {
        Some(t) => json_time(t),
        None => Json::Null,
    }
}

impl UserRow {
    /// Whether the row's instants are in the calendar.
    pub open spec fn valid(self) -> bool {
        &&& valid_opt(self.followed_at)
        &&& valid_opt(self.last_seen_at)
        &&& self.linked_at.valid()
        &&& self.updated_at.valid()
    }

    /// What a caller is told of the member's relation.
    pub open spec fn relation_json(self) -> JsonView {
        object_view().with("is_follower"@, JsonView::Bool(self.is_follower)).with(
            "is_subscriber"@,
            JsonView::Bool(self.is_subscriber),
        ).with("is_vip"@, JsonView::Bool(self.is_vip)).with("is_og"@, JsonView::Bool(self.is_og)).with(
            "is_moderator"@,
            JsonView::Bool(self.is_moderator),
        ).with("sub_months_cumulative"@, JsonView::Int(self.sub_months_cumulative as i64)).with(
            "sub_streak_months"@,
            JsonView::Int(self.sub_streak_months as i64),
        ).with("gifted_subs_given"@, JsonView::Int(self.gifted_subs_given as i64)).with(
            "followed_at"@,
            time_or_null(self.followed_at),
        ).with("last_seen_at"@, time_or_null(self.last_seen_at))
    }

    /// What a caller is told of the member.
    pub open spec fn json(self) -> JsonView {
        object_view().with("discord_id"@, JsonView::Str(self.discord_id@)).with(
            "discord_name"@,
            text_or_null(string_opt(self.discord_name)),
        ).with("kick_user_id"@, JsonView::Int(self.kick_user_id)).with(
            "kick_username"@,
            JsonView::Str(self.kick_username@),
        ).with("linked_at"@, time_json(self.linked_at)).with("updated_at"@, time_json(self.updated_at)).with(
            "relation"@,
            self.relation_json(),
        )
    }

    /// What a caller is told of the member.
    pub fn to_json(&self) -> (r: Json)
        requires
            self.valid(),
        ensures
            r@ == self.json(),
    {
        let relation = Json::object().with("is_follower", Json::Bool(self.is_follower)).with(
            "is_subscriber",
            Json::Bool(self.is_subscriber),
        ).with("is_vip", Json::Bool(self.is_vip)).with("is_og", Json::Bool(self.is_og)).with(
            "is_moderator",
            Json::Bool(self.is_moderator),
        ).with("sub_months_cumulative", Json::Int(self.sub_months_cumulative as i64)).with(
            "sub_streak_months",
            Json::Int(self.sub_streak_months as i64),
        ).with("gifted_subs_given", Json::Int(self.gifted_subs_given as i64)).with(
            "followed_at",
            json_time_or_null(self.followed_at),
        ).with("last_seen_at", json_time_or_null(self.last_seen_at));
        Json::object().with("discord_id", Json::text(self.discord_id.as_str())).with(
            "discord_name",
            Json::text_or_null(&self.discord_name),
        ).with("kick_user_id", Json::Int(self.kick_user_id)).with(
            "kick_username",
            Json::text(self.kick_username.as_str()),
        ).with("linked_at", json_time(self.linked_at)).with("updated_at", json_time(self.updated_at)).with(
            "relation",
            relation,
        )
    }
}

/// A page.
#[derive(Debug)]
pub struct Page {
    pub rows: Vec<UserRow>,
    pub has_more: bool,
    /// Where the next page begins.
    pub next_cursor: Option<String>,
}

/// The page of at most `limit` of the rows that were read.
pub fn paginate(rows: Vec<UserRow>, limit: i64) -> (r: Page)
    requires
        1 <= limit,
    ensures
        r.has_more == (rows.len() > limit),
        r.rows@ == (if rows.len() > limit {
            rows@.take(limit as int)
        } else {
            rows@
        }),
        string_opt(r.next_cursor) == (if rows.len() > limit {
            Some(rows@[limit - 1].discord_id@)
        } else {
            None
        }),
{
    let mut rows = rows;
    let has_more = rows.len() as u64 > limit as u64;
    if !has_more {
        return Page { rows, has_more, next_cursor: None };
    }
    rows.truncate(limit as usize);
    let next_cursor = Some(rows[rows.len() - 1].discord_id.clone());
    Page { rows, has_more, next_cursor }
}

/// The guild that an answer is about.
pub open spec fn guild_json(id: Seq<char>, name: Option<Seq<char>>) -> JsonView {
    object_view().with("id"@, JsonView::Str(id)).with("name"@, text_or_null(name))
}

/// The guild that an answer is about.
fn guild(id: &str, name: &Option<String>) -> (r: Json)
    ensures
        r@ == guild_json(id@, string_opt(*name)),
{
    Json::object().with("id", Json::text(id)).with("name", Json::text_or_null(name))
}

/// What a caller is told of the members.
pub open spec fn users_json(rows: Seq<UserRow>) -> JsonView
    decreases rows.len(),
{
    if rows.len() == 0 {
        array_view()
    } else {
        users_json(rows.drop_last()).and(rows.last().json())
    }
}

/// The answer to a request for a page.
pub open spec fn list_json(guild_id: Seq<char>, guild_name: Option<Seq<char>>, page: Page, limit: i64) -> JsonView {
    object_view().with("guild"@, guild_json(guild_id, guild_name)).with("users"@, users_json(page.rows@)).with(
        "page"@,
        object_view().with("limit"@, JsonView::Int(limit)).with(
            "count"@,
            JsonView::Int(page.rows@.len() as i64),
        ).with("has_more"@, JsonView::Bool(page.has_more)).with(
            "next_cursor"@,
            text_or_null(string_opt(page.next_cursor)),
        ),
    )
}

/// The answer to a request for a page.
pub fn list_body(guild_id: &str, guild_name: &Option<String>, page: &Page, limit: i64) -> (r: Json)
    requires
        forall|i: int| 0 <= i < page.rows.len() ==> (#[trigger] page.rows@[i]).valid(),
    ensures
        r@ == list_json(guild_id@, string_opt(*guild_name), *page, limit),
{
    let mut users = Json::list();
    let mut i: usize = 0;
    assert(page.rows@.take(0) =~= seq![]);
    while i < page.rows.len()
        invariant
            i <= page.rows.len(),
            forall|j: int| 0 <= j < page.rows.len() ==> (#[trigger] page.rows@[j]).valid(),
            users@ == users_json(page.rows@.take(i as int)),
        decreases page.rows.len() - i,
    {
        assert(page.rows@.take(i + 1).drop_last() =~= page.rows@.take(i as int));
        assert(page.rows@.take(i + 1).last() == page.rows@[i as int]);
        users = users.and(page.rows[i].to_json());
        i = i + 1;
    }
    assert(page.rows@.take(i as int) =~= page.rows@);
    let info = Json::object().with("limit", Json::Int(limit)).with(
        "count",
        Json::Int(page.rows.len() as i64),
    ).with("has_more", Json::Bool(page.has_more)).with("next_cursor", Json::text_or_null(&page.next_cursor));
    Json::object().with("guild", guild(guild_id, guild_name)).with("users", users).with("page", info)
}

/// The answer to a request for one user.
pub open spec fn single_json(guild_id: Seq<char>, guild_name: Option<Seq<char>>, row: UserRow) -> JsonView {
    object_view().with("guild"@, guild_json(guild_id, guild_name)).with("user"@, row.json())
}

/// The answer to a request for one user: of someone who is not there, never linked or opted out,
/// nothing is told, not even which.
pub fn single_body(guild_id: &str, guild_name: &Option<String>, rows: &Vec<UserRow>) -> (r: Result<Json, AppError>)
    requires
        forall|i: int| 0 <= i < rows.len() ==> (#[trigger] rows@[i]).valid(),
    ensures
        if rows.len() > 0 {
            r is Ok && r->Ok_0@ == single_json(guild_id@, string_opt(*guild_name), rows@[0])
        } else {
            r is Err && r->Err_0@ == ErrorView::NotFound("No linked user with that Discord ID in this server."@)
        },
{
    if rows.len() == 0 {
        return Err(AppError::NotFound("No linked user with that Discord ID in this server.".to_owned()));
    }
    let user = rows[0].to_json();
    Ok(Json::object().with("guild", guild(guild_id, guild_name)).with("user", user))
}

/// The strings of a list.
pub open spec fn strings_json(list: Seq<Seq<char>>) -> JsonView
    decreases list.len(),
{
    if list.len() == 0 {
        array_view()
    } else {
        strings_json(list.drop_last()).and(JsonView::Str(list.last()))
    }
}

/// The strings of a list.
pub(crate) fn json_strings(list: &Vec<String>) -> (r: Json)
    ensures
        r@ == strings_json(texts(list@)),
{
    let ghost all = texts(list@);
    let mut r = Json::list();
    let mut i: usize = 0;
    assert(all.take(0) =~= seq![]);
    while i < list.len()
        invariant
            i <= list.len(),
            all == texts(list@),
            r@ == strings_json(all.take(i as int)),
        decreases list.len() - i,
    {
        assert(all.take(i + 1).drop_last() =~= all.take(i as int));
        assert(all.take(i + 1).last() == list@[i as int]@);
        r = r.and(Json::text(list[i].as_str()));
        i = i + 1;
    }
    assert(all.take(i as int) =~= all);
    r
}

/// What a key's holder is told of it.
pub open spec fn whoami_json(ctx: ApiKeyContext, guild_name: Option<Seq<char>>) -> JsonView {
    object_view().with("guild"@, guild_json(ctx.guild_id@, guild_name)).with(
        "key"@,
        object_view().with("label"@, JsonView::Str(ctx.label@)).with(
            "scopes"@,
            strings_json(texts(ctx.scopes@)),
        ),
    )
}

/// What a key's holder is told of it.
pub fn whoami_body(ctx: &ApiKeyContext, guild_name: &Option<String>) -> (r: Json)
    ensures
        r@ == whoami_json(*ctx, string_opt(*guild_name)),
{
    let key = Json::object().with("label", Json::text(ctx.label.as_str())).with(
        "scopes",
        json_strings(&ctx.scopes),
    );
    Json::object().with("guild", guild(ctx.guild_id.as_str(), guild_name)).with("key", key)
}

/// An endpoint as the discovery document lists it.
pub open spec fn endpoint_json(path: Seq<char>, description: Seq<char>) -> JsonView {
    object_view().with("method"@, JsonView::Str("GET"@)).with("path"@, JsonView::Str(path)).with(
        "description"@,
        JsonView::Str(description),
    )
}

/// An endpoint as the discovery document lists it.
fn endpoint(path: String, description: &str) -> (r: Json)
    ensures
        r@ == endpoint_json(path@, description@),
{
    Json::object().with("method", Json::text("GET")).with("path", Json::Str(path)).with(
        "description",
        Json::text(description),
    )
}

/// The parameters of a request for a page, as the discovery document describes them.
pub open spec fn query_json() -> JsonView {
    object_view().with(
        "limit"@,
        JsonView::Str("1–"@ + decimal(MAX_LIMIT as nat) + ", default "@ + decimal(DEFAULT_LIMIT as nat)),
    ).with("cursor"@, JsonView::Str("opaque; pass back page.next_cursor"@)).with(
        "updated_since"@,
        JsonView::Str("RFC 3339; only records changed at or after it"@),
    ).with("relation"@, JsonView::Str("follower | subscriber | vip | og | moderator"@))
}

/// The parameters of a request for a page, as the discovery document describes them.
fn query_doc() -> (r: Json)
    ensures
        r@ == query_json(),
{
    let most = decimal_of(MAX_LIMIT as u64);
    let usual = decimal_of(DEFAULT_LIMIT as u64);
    let limit = "1–".to_owned().concat(most.as_str()).concat(", default ").concat(usual.as_str());
    Json::object().with("limit", Json::Str(limit)).with("cursor", Json::text("opaque; pass back page.next_cursor")).with(
        "updated_since",
        Json::text("RFC 3339; only records changed at or after it"),
    ).with("relation", Json::text("follower | subscriber | vip | og | moderator"))
}

/// How requests are authenticated, as the discovery document describes it.
pub open spec fn auth_json() -> JsonView {
    object_view().with("scheme"@, JsonView::Str("Authorization: Bearer kck_…"@)).with(
        "note"@,
        JsonView::Str(
            "Keys are guild-scoped and minted by a server manager from the plugin's role settings in the RoleLogic dashboard. No endpoint takes a guild id — the key carries it."@,
        ),
    ).with("scopes"@, array_view().and(JsonView::Str(SCOPE_USERS_READ@)))
}

/// How often requests may be made, as the discovery document describes it.
pub open spec fn limits_json() -> JsonView {
    object_view().with("requests_per_minute"@, JsonView::Int(RATE_PER_MINUTE as i64)).with(
        "burst"@,
        JsonView::Int(RATE_BURST as i64),
    ).with("note"@, JsonView::Str("429 responses carry Retry-After (seconds)."@))
}

/// The discovery document.
pub open spec fn index_json(base: Seq<char>) -> JsonView {
    object_view().with("service"@, JsonView::Str("kick-channel-role"@)).with(
        "version"@,
        JsonView::Str("v1"@),
    ).with("auth"@, auth_json()).with(
        "endpoints"@,
        array_view().and(
            endpoint_json(base + "/api/v1/whoami"@, "Confirm a key and see which server it points at."@),
        ).and(
            endpoint_json(
                base + "/api/v1/users"@,
                "Linked members of the server, newest schema in `relation`."@,
            ).with("query"@, query_json()),
        ).and(
            endpoint_json(
                base + "/api/v1/users/{discord_id}"@,
                "One member. 404 if not a member, not linked, or opted out."@,
            ),
        ),
    ).with("limits"@, limits_json())
}

/// The discovery document: what the API offers, for whoever knows only its address.
pub fn index_body(base: &str) -> (r: Json)
    ensures
        r@ == index_json(base@),
{
    let auth = Json::object().with("scheme", Json::text("Authorization: Bearer kck_…")).with(
        "note",
        Json::text(
            "Keys are guild-scoped and minted by a server manager from the plugin's role settings in the RoleLogic dashboard. No endpoint takes a guild id — the key carries it.",
        ),
    ).with("scopes", Json::list().and(Json::text(SCOPE_USERS_READ)));
    let whoami = endpoint(
        base.to_owned().concat("/api/v1/whoami"),
        "Confirm a key and see which server it points at.",
    );
    let users = endpoint(
        base.to_owned().concat("/api/v1/users"),
        "Linked members of the server, newest schema in `relation`.",
    ).with("query", query_doc());
    let user = endpoint(
        base.to_owned().concat("/api/v1/users/{discord_id}"),
        "One member. 404 if not a member, not linked, or opted out.",
    );
    let limits = Json::object().with("requests_per_minute", Json::Int(RATE_PER_MINUTE as i64)).with(
        "burst",
        Json::Int(RATE_BURST as i64),
    ).with("note", Json::text("429 responses carry Retry-After (seconds)."));
    Json::object().with("service", Json::text("kick-channel-role")).with("version", Json::text("v1")).with(
        "auth",
        auth,
    ).with("endpoints", Json::list().and(whoami).and(users).and(user)).with("limits", limits)
}

/// Whether the identifiers stand in the order that the database keeps them in, each once.
pub open spec fn in_order(ids: Seq<Seq<char>>, less: spec_fn(Seq<char>, Seq<char>) -> bool) -> bool {
    forall|i: int, j: int|
        #![trigger ids[i], ids[j]]
        0 <= i < ids.len() && 0 <= j < ids.len() ==> (less(ids[i], ids[j]) == (i < j))
}

/// The identifiers behind a cursor.
pub open spec fn behind(
    ids: Seq<Seq<char>>,
    less: spec_fn(Seq<char>, Seq<char>) -> bool,
    cursor: Option<Seq<char>>,
) -> Seq<Seq<char>> {
    match cursor {
        Some(c) => ids.filter(|id: Seq<char>| less(c, id)),
        None => ids,
    }
}

/// The identifiers that are read for a page: one more than it holds, where there are so many.
pub open spec fn read_ids(
    ids: Seq<Seq<char>>,
    less: spec_fn(Seq<char>, Seq<char>) -> bool,
    cursor: Option<Seq<char>>,
    limit: nat,
) -> Seq<Seq<char>> {
    let left = behind(ids, less, cursor);
    if left.len() > limit + 1 {
        left.take(limit as int + 1)
    } else {
        left
    }
}

/// The identifiers on all the pages from a cursor on, read one page after the other for at most
/// `pages` pages.
pub open spec fn walked(
    ids: Seq<Seq<char>>,
    less: spec_fn(Seq<char>, Seq<char>) -> bool,
    cursor: Option<Seq<char>>,
    limit: nat,
    pages: nat,
) -> Seq<Seq<char>>
    decreases pages,
{
    if pages == 0 {
        seq![]
    } else {
        let rows = read_ids(ids, less, cursor, limit);
        if rows.len() > limit {
            let page = rows.take(limit as int);
            page + walked(ids, less, Some(page.last()), limit, (pages - 1) as nat)
        } else {
            rows
        }
    }
}

proof fn lemma_filter_suffix(
    ids: Seq<Seq<char>>,
    less: spec_fn(Seq<char>, Seq<char>) -> bool,
    c: Seq<char>,
    n: int,
    k: int,
)
    requires
        in_order(ids, less),
        0 <= k < ids.len(),
        c == ids[k],
        0 <= n <= ids.len(),
    ensures
        ids.take(n).filter(|id: Seq<char>| less(c, id)) == (if n > k {
            ids.subrange(k + 1, n)
        } else {
            seq![]
        }),
    decreases n,
{
    let keep = |id: Seq<char>| less(c, id);
    reveal(Seq::filter);
    if n > 0 {
        lemma_filter_suffix(ids, less, c, n - 1, k);
        assert(ids.take(n).drop_last() =~= ids.take(n - 1));
        assert(ids.take(n).last() == ids[n - 1]);
        assert(keep(ids[n - 1]) == (k < n - 1));
        if n - 1 > k {
            assert(ids.subrange(k + 1, n) =~= ids.subrange(k + 1, n - 1).push(ids[n - 1]));
        } else if n - 1 == k {
            assert(ids.subrange(k + 1, n) =~= seq![]);
        }
    }
}

proof fn lemma_behind(ids: Seq<Seq<char>>, less: spec_fn(Seq<char>, Seq<char>) -> bool, k: int)
    requires
        in_order(ids, less),
        0 <= k < ids.len(),
    ensures
        behind(ids, less, Some(ids[k])) == ids.skip(k + 1),
{
    lemma_filter_suffix(ids, less, ids[k], ids.len() as int, k);
    assert(ids.take(ids.len() as int) =~= ids);
    assert(ids.subrange(k + 1, ids.len() as int) =~= ids.skip(k + 1));
}

proof fn lemma_walk(
    ids: Seq<Seq<char>>,
    less: spec_fn(Seq<char>, Seq<char>) -> bool,
    cursor: Option<Seq<char>>,
    from: int,
    limit: nat,
    pages: nat,
)
    requires
        in_order(ids, less),
        limit >= 1,
        0 <= from <= ids.len(),
        from == 0 ==> cursor is None,
        from > 0 ==> cursor == Some(ids[from - 1]),
        pages >= ids.len() - from + 1,
    ensures
        walked(ids, less, cursor, limit, pages) == ids.skip(from),
    decreases pages,
{
    if from > 0 {
        lemma_behind(ids, less, from - 1);
    } else {
        assert(ids.skip(0) =~= ids);
    }
    let left = behind(ids, less, cursor);
    assert(left == ids.skip(from));
    let rows = read_ids(ids, less, cursor, limit);
    if rows.len() > limit {
        let page = rows.take(limit as int);
        assert(page =~= ids.subrange(from, from + limit));
        assert(page.last() == ids[from + limit - 1]);
        lemma_walk(ids, less, Some(page.last()), from + limit, limit, (pages - 1) as nat);
        assert(page + ids.skip(from + limit) =~= ids.skip(from));
    } else {
        assert(rows =~= ids.skip(from));
    }
}

/// Whoever follows the cursors from the first page on sees every user once, in order, whatever
/// the size of the pages.
pub proof fn law_pages_show_every_user_once(
    ids: Seq<Seq<char>>,
    less: spec_fn(Seq<char>, Seq<char>) -> bool,
    limit: nat,
    pages: nat,
)
    requires
        in_order(ids, less),
        limit >= 1,
        pages > ids.len(),
    ensures
        walked(ids, less, None, limit, pages) == ids,
{
    lemma_walk(ids, less, None, 0, limit, pages);
    assert(ids.skip(0) =~= ids);
}

} // verus!
