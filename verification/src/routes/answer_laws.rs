//! What the pages and a guild's managers are told, name by name.

use vstd::prelude::*;
use vstd::string::*;
use vstd::utf8::*;

use crate::error::{AppError, ErrorView};
use crate::json::{Json, JsonView};
use crate::routes::api_keys::{
    check_quota, created_body, key_list, label_of, list_body, revoked, KeyRow,
};
use crate::routes::api_v1::{strings_json, time_json, time_or_null};
use crate::routes::health::{health, ready};
use crate::routes::users::{
    check_enabled, is_permission, permission_body, permission_of, set_view_permission, user_list, users_body,
    users_page, ListedUser, ViewPermBody,
};
use crate::routes::verify::{
    asked_guild, authorize_body, channel_list, channels_body, is_guild_id, login_url, refresh_body, status_json,
    success_body, unlinked, verify_page, ChannelsQuery, VerifyChannel, VerifyStatus,
};
use crate::services::api_key::Minted;
use crate::text::{replaced, texts, trimmed};
use crate::time::Timestamp;
use crate::url::{path_of, percent_encoded};

verus! {

/// A text, or null where there is none.
pub open spec fn told(s: Option<String>) -> JsonView {
    match s {
        Some(t) => JsonView::Str(t@),
        None => JsonView::Null,
    }
}

/// A manager is told of a key under the names of what is kept of it, which is all but the key.
pub proof fn law_keys_are_told_by_name(row: KeyRow)
    ensures
        row.json() is Object,
        row.json()->Object_0 == seq![
            ("id"@, JsonView::Int(row.id)),
            ("label"@, JsonView::Str(row.label@)),
            ("prefix"@, JsonView::Str(row.prefix@)),
            ("scopes"@, strings_json(texts(row.scopes@))),
            ("created_by"@, JsonView::Str(row.created_by@)),
            ("created_at"@, time_json(row.created_at)),
            ("last_used_at"@, time_or_null(row.last_used_at)),
        ],
{
}

proof fn lemma_keys(rows: Seq<KeyRow>)
    ensures
        key_list(rows) is Array,
        key_list(rows)->Array_0.len() == rows.len(),
        forall|i: int| 0 <= i < rows.len() ==> #[trigger] key_list(rows)->Array_0[i] == rows[i].json(),
    decreases rows.len(),
{
    if rows.len() > 0 {
        lemma_keys(rows.drop_last());
    }
}

/// A list of keys has them in their order, how many there may be, which is ten, and where the API is
/// described.
pub proof fn law_a_list_of_keys_has_each(rows: Vec<KeyRow>, base_url: &str, r: Json)
    requires
        call_ensures(list_body, (&rows, base_url), r),
    ensures
        r@ is Object,
        r@->Object_0.len() == 3,
        r@->Object_0[0].0 == "keys"@,
        r@->Object_0[0].1->Array_0.len() == rows@.len(),
        forall|i: int| 0 <= i < rows@.len() ==> #[trigger] r@->Object_0[0].1->Array_0[i] == rows@[i].json(),
        r@->Object_0[1] == ("max_keys"@, JsonView::Int(10)),
        r@->Object_0[2] == ("docs_url"@, JsonView::Str(base_url@ + "/api/v1"@)),
{
    lemma_keys(rows@);
}

/// A new key is shown under `token`, and what is kept of it beside it.
pub proof fn law_a_new_key_is_shown(id: i64, label: &str, minted: Minted, r: Json)
    requires
        call_ensures(created_body, (id, label, &minted), r),
    ensures
        r@ is Object,
        r@->Object_0.len() == 6,
        r@->Object_0[0] == ("id"@, JsonView::Int(id)),
        r@->Object_0[1] == ("label"@, JsonView::Str(label@)),
        r@->Object_0[2] == ("prefix"@, JsonView::Str(minted.prefix@)),
        r@->Object_0[3] == ("scopes"@, JsonView::Array(seq![JsonView::Str("users:read"@)])),
        r@->Object_0[4] == ("token"@, JsonView::Str(minted.raw@)),
        r@->Object_0[5].0 == "warning"@,
{
    assert(r@->Object_0[3].1->Array_0 =~= seq![JsonView::Str("users:read"@)]);
}

/// A key gets its label without the space around it; a label that is empty then, or longer than
/// sixty characters, is refused.
pub proof fn law_labels_are_trimmed_and_bounded(label: Seq<char>)
    ensures
        1 <= trimmed(label).len() <= 60 ==> label_of(label) == Ok::<Seq<char>, ErrorView>(trimmed(label)),
        trimmed(label).len() == 0 || trimmed(label).len() > 60 ==> label_of(label) is Err && label_of(
            label,
        )->Err_0 is BadRequest,
{
}

/// A guild has ten keys at most: one more is refused from the tenth on.
pub proof fn law_a_guild_has_ten_keys_at_most(live: i64, r: Result<(), AppError>)
    requires
        call_ensures(check_quota, (live,), r),
    ensures
        r is Ok <==> live < 10,
        r is Err ==> r->Err_0 is BadRequest,
{
}

/// A key is revoked where one was changed, and else there was none.
pub proof fn law_a_key_is_revoked_where_there_was_one(affected: u64, r: Result<(), AppError>)
    requires
        call_ensures(revoked, (affected,), r),
    ensures
        r is Ok <==> affected > 0,
        r is Err ==> r->Err_0 is NotFound,
{
}

/// The service is well while its database is up, and says so in its status, its words, the instant
/// and how long it took.
pub proof fn law_health_is_the_databases(db_ok: bool, now: Timestamp, latency_ms: i64, r: (u16, Json))
    requires
        call_ensures(health, (db_ok, now, latency_ms), r),
    ensures
        r.0 == 200 <==> db_ok,
        r.0 == 503 <==> !db_ok,
        r.1@ is Object,
        r.1@->Object_0.len() == 3,
        r.1@->Object_0[0].0 == "status"@,
        r.1@->Object_0[0].1 == JsonView::Str("healthy"@) <==> db_ok,
        r.1@->Object_0[0].1 == JsonView::Str("unhealthy"@) <==> !db_ok,
        r.1@->Object_0[1] == ("timestamp"@, time_json(now)),
        r.1@->Object_0[2].0 == "checks"@,
        r.1@->Object_0[2].1->Object_0.len() == 1,
        r.1@->Object_0[2].1->Object_0[0].0 == "database"@,
        r.1@->Object_0[2].1->Object_0[0].1->Object_0.len() == 2,
        r.1@->Object_0[2].1->Object_0[0].1->Object_0[0].0 == "status"@,
        r.1@->Object_0[2].1->Object_0[0].1->Object_0[0].1 == JsonView::Str("up"@) <==> db_ok,
        r.1@->Object_0[2].1->Object_0[0].1->Object_0[0].1 == JsonView::Str("down"@) <==> !db_ok,
        r.1@->Object_0[2].1->Object_0[0].1->Object_0[1] == ("latency_ms"@, JsonView::Int(latency_ms)),
{
    reveal_strlit("healthy");
    reveal_strlit("unhealthy");
    reveal_strlit("up");
    reveal_strlit("down");
    assert("healthy"@.len() == 7 && "unhealthy"@.len() == 9 && "up"@.len() == 2 && "down"@.len() == 4);
}

/// The service takes requests unless it is about to end.
pub proof fn law_requests_are_taken_until_the_end(draining: bool, r: (u16, Json))
    requires
        call_ensures(ready, (draining,), r),
    ensures
        r.0 == 200 <==> !draining,
        r.0 == 503 <==> draining,
        r.1@->Object_0.len() == 1,
        r.1@->Object_0[0].0 == "status"@,
        r.1@->Object_0[0].1 == JsonView::Str("ready"@) <==> !draining,
        r.1@->Object_0[0].1 == JsonView::Str("draining"@) <==> draining,
{
    reveal_strlit("ready");
    reveal_strlit("draining");
    assert("ready"@.len() == 5 && "draining"@.len() == 8);
}

/// The page of a guild's users is told of each under the names of what is known of them.
pub proof fn law_listed_users_are_told_by_name(row: ListedUser)
    ensures
        row.json() is Object,
        row.json()->Object_0 == seq![
            ("discord_id"@, JsonView::Str(row.discord_id@)),
            ("discord_name"@, told(row.discord_name)),
            ("username"@, JsonView::Str(row.username@)),
            ("kick_user_id"@, JsonView::Int(row.kick_user_id)),
            ("is_follower"@, JsonView::Bool(row.is_follower)),
            ("is_subscriber"@, JsonView::Bool(row.is_subscriber)),
            ("is_vip"@, JsonView::Bool(row.is_vip)),
            ("is_moderator"@, JsonView::Bool(row.is_moderator)),
            ("sub_months"@, JsonView::Int(row.sub_months as i64)),
            ("sub_streak"@, JsonView::Int(row.sub_streak as i64)),
            ("gifted"@, JsonView::Int(row.gifted as i64)),
            ("followed_at"@, time_or_null(row.followed_at)),
            ("last_seen_at"@, time_or_null(row.last_seen_at)),
            ("linked_at"@, time_json(row.linked_at)),
        ],
{
}

proof fn lemma_listed(rows: Seq<ListedUser>)
    ensures
        user_list(rows) is Array,
        user_list(rows)->Array_0.len() == rows.len(),
        forall|i: int| 0 <= i < rows.len() ==> #[trigger] user_list(rows)->Array_0[i] == rows[i].json(),
    decreases rows.len(),
{
    if rows.len() > 0 {
        lemma_listed(rows.drop_last());
    }
}

/// The page of a guild's users has the guild, how many users there are, and each in its order.
pub proof fn law_a_guilds_page_has_each_user(
    guild_id: &str,
    guild_name: Option<String>,
    rows: Vec<ListedUser>,
    r: Json,
)
    requires
        call_ensures(users_body, (guild_id, &guild_name, &rows), r),
    ensures
        r@ is Object,
        r@->Object_0.len() == 4,
        r@->Object_0[0] == ("guild_id"@, JsonView::Str(guild_id@)),
        r@->Object_0[1] == ("guild_name"@, told(guild_name)),
        r@->Object_0[2] == ("count"@, JsonView::Int(rows@.len() as i64)),
        r@->Object_0[3].0 == "users"@,
        r@->Object_0[3].1->Array_0.len() == rows@.len(),
        forall|i: int| 0 <= i < rows@.len() ==> #[trigger] r@->Object_0[3].1->Array_0[i] == rows@[i].json(),
{
    lemma_listed(rows@);
}

/// A guild's list is its managers' until the guild says otherwise. It can say `disabled`, `managers`
/// or `members`; anything else is refused, and the answer to what is not has what was said.
pub proof fn law_a_list_is_the_managers_until_said(
    p: Seq<char>,
    body: ViewPermBody,
    set: Result<String, AppError>,
    answer: Json,
    enabled: Result<(), AppError>,
    said: &str,
)
    requires
        call_ensures(set_view_permission, (body,), set),
        call_ensures(permission_body, (said,), answer),
        call_ensures(check_enabled, (said,), enabled),
    ensures
        permission_of(None) == "managers"@,
        permission_of(Some(p)) == p,
        set is Ok <==> {
            ||| body.view_permission@ == "disabled"@
            ||| body.view_permission@ == "managers"@
            ||| body.view_permission@ == "members"@
        },
        set is Ok ==> set->Ok_0@ == body.view_permission@,
        set is Err ==> set->Err_0 is BadRequest,
        answer@->Object_0 == seq![
            ("success"@, JsonView::Bool(true)),
            ("view_permission"@, JsonView::Str(said@)),
        ],
        enabled is Err <==> said@ == "disabled"@,
        enabled is Err ==> enabled->Err_0 is Forbidden,
        is_permission("members"@),
{
}

/// The page of a visitor's status says whether the visitor is signed in and as whom, and whether an
/// account is linked and which.
pub proof fn law_a_visitor_is_told_of_the_own_link(status: VerifyStatus)
    ensures
        status_json(status) is Object,
        status_json(status)->Object_0 == seq![
            ("signed_in_discord"@, JsonView::Bool(status.discord_username is Some)),
            ("discord_username"@, told(status.discord_username)),
            ("linked_kick"@, JsonView::Bool(status.kick_link is Some)),
            (
                "kick_user_id"@,
                match status.kick_link {
                    Some(link) => JsonView::Int(link.0),
                    None => JsonView::Null,
                },
            ),
            (
                "kick_username"@,
                match status.kick_link {
                    Some(link) => JsonView::Str(link.1@),
                    None => JsonView::Null,
                },
            ),
        ],
{
}

proof fn lemma_channels(rows: Seq<VerifyChannel>)
    ensures
        channel_list(rows) is Array,
        channel_list(rows)->Array_0.len() == rows.len(),
        forall|i: int| 0 <= i < rows.len() ==> #[trigger] channel_list(rows)->Array_0[i] == rows[i].json(),
    decreases rows.len(),
{
    if rows.len() > 0 {
        lemma_channels(rows.drop_last());
    }
}

/// A guild's channels are listed in their order, each under the names of what is known of it.
pub proof fn law_channels_are_told_by_name(rows: Vec<VerifyChannel>, r: Json, row: VerifyChannel)
    requires
        call_ensures(channels_body, (&rows,), r),
    ensures
        r@ is Object,
        r@->Object_0.len() == 1,
        r@->Object_0[0].0 == "channels"@,
        r@->Object_0[0].1->Array_0.len() == rows@.len(),
        forall|i: int| 0 <= i < rows@.len() ==> #[trigger] r@->Object_0[0].1->Array_0[i] == rows@[i].json(),
        row.json()->Object_0 == seq![
            ("kick_channel_id"@, JsonView::Int(row.kick_channel_id)),
            ("kick_slug"@, JsonView::Str(row.kick_slug@)),
            ("display_name"@, JsonView::Str(row.display_name@)),
            ("is_live"@, JsonView::Bool(row.is_live)),
            ("current_category"@, told(row.current_category)),
        ],
{
    lemma_channels(rows@);
}

/// A guild is looked up where the query names one by five to twenty-five digits.
pub proof fn law_guilds_are_named_by_digits(q: ChannelsQuery, r: Option<String>)
    requires
        call_ensures(asked_guild, (q,), r),
    ensures
        r is Some <==> q.guild is Some && 5 <= q.guild->0@.len() <= 25 && forall|i: int|
            0 <= i < q.guild->0@.len() ==> '0' <= #[trigger] q.guild->0@[i] <= '9',
        r is Some ==> r->0@ == q.guild->0@,
{
    if q.guild is Some {
        let s = q.guild->0@;
        assert(is_guild_id(s) == (5 <= s.len() <= 25 && forall|i: int|
            0 <= i < s.len() ==> crate::text::is_digit(#[trigger] s[i])));
    }
}

/// What was done is answered by what it came to: an account was unlinked or there was none; a new
/// look was begun for a linked account with a channel to look at; a viewer is sent where they are to
/// go.
pub proof fn law_deeds_are_answered(
    removed: Option<i64>,
    gone: Result<i64, AppError>,
    done: Json,
    is_linked: bool,
    channels: usize,
    refreshed: Json,
    address: &str,
    sent: Json,
)
    requires
        call_ensures(unlinked, (removed,), gone),
        call_ensures(success_body, (), done),
        call_ensures(refresh_body, (is_linked, channels), refreshed),
        call_ensures(authorize_body, (address,), sent),
    ensures
        gone is Ok <==> removed is Some,
        removed matches Some(id) ==> gone->Ok_0 == id,
        removed is None ==> gone->Err_0 is NotFound,
        done@->Object_0 == seq![("success"@, JsonView::Bool(true))],
        refreshed@->Object_0 == seq![("refreshed"@, JsonView::Bool(is_linked && channels >= 1))],
        sent@->Object_0 == seq![("authorize_url"@, JsonView::Str(address@))],
{
}

/// A visitor signs in with Discord at the gateway and comes back to the page, by its path.
pub proof fn law_a_visitor_comes_back_to_the_page(gateway: &str, base_url: &str, r: String)
    requires
        call_ensures(login_url, (gateway, base_url), r),
    ensures
        r@ == gateway@ + "/auth/login?return_to="@ + percent_encoded(encode_utf8(path_of(base_url@) + "/verify"@)),
{
}

/// The pages have the service's address, and a guild's page its guild, where their templates say so.
pub proof fn law_pages_are_filled_in(
    template: &str,
    base_url: &str,
    guild_id: &str,
    verify: String,
    users: String,
)
    requires
        call_ensures(verify_page, (template, base_url), verify),
        call_ensures(users_page, (template, base_url, guild_id), users),
    ensures
        verify@ == replaced(template@, "{{BASE_URL}}"@, base_url@),
        users@ == replaced(verify@, "{{GUILD_ID}}"@, guild_id@),
{
}

} // verus!
