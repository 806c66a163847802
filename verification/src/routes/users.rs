//! The list of a guild's linked users: who may see it, and what it shows.

use vstd::prelude::*;
use vstd::string::*;

use crate::error::{AppError, ErrorView};
use crate::json::{array_view, object_view, string_opt, text_or_null, Json, JsonView};
use crate::routes::api_v1::{json_time, json_time_or_null, time_json, time_or_null};
use crate::text::{replace, replaced, str_eq};
use crate::time::{valid_opt, Timestamp};

verus! {

/// The page, from its template.
pub fn users_page(template: &str, base_url: &str, guild_id: &str) -> (r: String)
    ensures
        r@ == replaced(replaced(template@, "{{BASE_URL}}"@, base_url@), "{{GUILD_ID}}"@, guild_id@),
{
    proof {
        reveal_strlit("{{BASE_URL}}");
        reveal_strlit("{{GUILD_ID}}");
        assert("{{BASE_URL}}"@.len() == 12 && "{{GUILD_ID}}"@.len() == 12);
    }
    let page = replace(template, "{{BASE_URL}}", base_url);
    replace(page.as_str(), "{{GUILD_ID}}", guild_id)
}

/// Who may see a guild's list, where the guild has not said: its managers.
pub open spec fn permission_of(stored: Option<Seq<char>>) -> Seq<char> {
    match stored {
        Some(p) => p,
        None => "managers"@,
    }
}

/// Who may see a guild's list.
pub fn view_permission(stored: Option<String>) -> (r: String)
    ensures
        r@ == permission_of(string_opt(stored)),
{
    match stored {
        Some(p) => p,
        None => "managers".to_owned(),
    }
}

/// Why nobody may see the list; none where someone may.
pub fn check_enabled(permission: &str) -> (r: Result<(), AppError>)
    ensures
        if permission@ == "disabled"@ {
            r is Err && r->Err_0@ == ErrorView::Forbidden("The user list is disabled for this server."@)
        } else {
            r is Ok
        },
{
    if str_eq(permission, "disabled") {
        return Err(AppError::Forbidden("The user list is disabled for this server.".to_owned()));
    }
    Ok(())
}

/// Why a visitor may not see the list; none where the visitor may.
pub open spec fn viewing_refused(permission: Seq<char>, is_member: bool, is_manager: bool) -> Option<ErrorView> {
    if permission == "disabled"@ {
        Some(ErrorView::Forbidden("The user list is disabled for this server."@))
    } else if !is_member {
        Some(ErrorView::Forbidden("You're not a member of this server."@))
    } else if permission == "managers"@ && !is_manager {
        Some(ErrorView::Forbidden("This list is visible to server managers only."@))
    } else {
        None
    }
}

/// Whether a visitor may see the list.
pub fn check_viewer(permission: &str, is_member: bool, is_manager: bool) -> (r: Result<(), AppError>)
    ensures
        match viewing_refused(permission@, is_member, is_manager) {
            None => r is Ok,
            Some(e) => r is Err && r->Err_0@ == e,
        },
{
    if let Err(e) = check_enabled(permission) {
        return Err(e);
    }
    if !is_member {
        return Err(AppError::Forbidden("You're not a member of this server.".to_owned()));
    }
    if str_eq(permission, "managers") && !is_manager {
        return Err(AppError::Forbidden("This list is visible to server managers only.".to_owned()));
    }
    Ok(())
}

/// Nobody sees a list that is switched off; a list for managers is seen by those members who manage
/// the guild, and one for members by every member; whoever is not a member sees none.
pub proof fn law_lists_are_for_members(permission: Seq<char>, is_member: bool, is_manager: bool)
    ensures
        viewing_refused("disabled"@, is_member, is_manager) is Some,
        viewing_refused("managers"@, is_member, is_manager) is None <==> is_member && is_manager,
        viewing_refused("members"@, is_member, is_manager) is None <==> is_member,
        !is_member ==> viewing_refused(permission, is_member, is_manager) is Some,
{
    reveal_strlit("disabled");
    reveal_strlit("managers");
    reveal_strlit("members");
    assert("disabled"@[0] != "managers"@[0]);
    assert("disabled"@.len() != "members"@.len());
    assert("managers"@.len() != "members"@.len());
}

/// A linked member.
#[derive(Debug)]
pub struct ListedUser {
    pub discord_id: String,
    pub discord_name: Option<String>,
    pub username: String,
    pub kick_user_id: i64,
    pub is_follower: bool,
    pub is_subscriber: bool,
    pub is_vip: bool,
    pub is_moderator: bool,
    pub sub_months: i32,
    pub sub_streak: i32,
    pub gifted: i32,
    pub followed_at: Option<Timestamp>,
    pub last_seen_at: Option<Timestamp>,
    pub linked_at: Timestamp,
}

impl ListedUser {
    /// Whether the row's instants are in the calendar.
    pub open spec fn valid(self) -> bool {
        valid_opt(self.followed_at) && valid_opt(self.last_seen_at) && self.linked_at.valid()
    }

    /// What the page is told of the member.
    pub open spec fn json(self) -> JsonView {
        object_view().with("discord_id"@, JsonView::Str(self.discord_id@)).with(
            "discord_name"@,
            text_or_null(string_opt(self.discord_name)),
        ).with("username"@, JsonView::Str(self.username@)).with(
            "kick_user_id"@,
            JsonView::Int(self.kick_user_id),
        ).with("is_follower"@, JsonView::Bool(self.is_follower)).with(
            "is_subscriber"@,
            JsonView::Bool(self.is_subscriber),
        ).with("is_vip"@, JsonView::Bool(self.is_vip)).with(
            "is_moderator"@,
            JsonView::Bool(self.is_moderator),
        ).with("sub_months"@, JsonView::Int(self.sub_months as i64)).with(
            "sub_streak"@,
            JsonView::Int(self.sub_streak as i64),
        ).with("gifted"@, JsonView::Int(self.gifted as i64)).with(
            "followed_at"@,
            time_or_null(self.followed_at),
        ).with("last_seen_at"@, time_or_null(self.last_seen_at)).with("linked_at"@, time_json(self.linked_at))
    }

    /// What the page is told of the member.
    fn to_json(&self) -> (r: Json)
        requires
            self.valid(),
        ensures
            r@ == self.json(),
    {
        Json::object().with("discord_id", Json::text(self.discord_id.as_str())).with(
            "discord_name",
            Json::text_or_null(&self.discord_name),
        ).with("username", Json::text(self.username.as_str())).with(
            "kick_user_id",
            Json::Int(self.kick_user_id),
        ).with("is_follower", Json::Bool(self.is_follower)).with(
            "is_subscriber",
            Json::Bool(self.is_subscriber),
        ).with("is_vip", Json::Bool(self.is_vip)).with("is_moderator", Json::Bool(self.is_moderator)).with(
            "sub_months",
            Json::Int(self.sub_months as i64),
        ).with("sub_streak", Json::Int(self.sub_streak as i64)).with("gifted", Json::Int(self.gifted as i64)).with(
            "followed_at",
            json_time_or_null(self.followed_at),
        ).with("last_seen_at", json_time_or_null(self.last_seen_at)).with("linked_at", json_time(self.linked_at))
    }
}

/// What the page is told of the members.
pub open spec fn user_list(rows: Seq<ListedUser>) -> JsonView
    decreases rows.len(),
{
    if rows.len() == 0 {
        array_view()
    } else {
        user_list(rows.drop_last()).and(rows.last().json())
    }
}

/// What the page is told of a guild.
pub fn users_body(guild_id: &str, guild_name: &Option<String>, rows: &Vec<ListedUser>) -> (r: Json)
    requires
        forall|i: int| 0 <= i < rows.len() ==> (#[trigger] rows@[i]).valid(),
    ensures
        r@ == object_view().with("guild_id"@, JsonView::Str(guild_id@)).with(
            "guild_name"@,
            text_or_null(string_opt(*guild_name)),
        ).with("count"@, JsonView::Int(rows@.len() as i64)).with("users"@, user_list(rows@)),
{
    let mut users = Json::list();
    let mut i: usize = 0;
    assert(rows@.take(0) =~= seq![]);
    while i < rows.len()
        invariant
            i <= rows.len(),
            forall|j: int| 0 <= j < rows.len() ==> (#[trigger] rows@[j]).valid(),
            users@ == user_list(rows@.take(i as int)),
        decreases rows.len() - i,
    {
        assert(rows@.take(i + 1).drop_last() =~= rows@.take(i as int));
        assert(rows@.take(i + 1).last() == rows@[i as int]);
        users = users.and(rows[i].to_json());
        i = i + 1;
    }
    assert(rows@.take(i as int) =~= rows@);
    Json::object().with("guild_id", Json::text(guild_id)).with("guild_name", Json::text_or_null(guild_name)).with(
        "count",
        Json::Int(rows.len() as i64),
    ).with("users", users)
}

/// Who is to see a guild's list from now on.
#[derive(Debug)]
pub struct ViewPermBody {
    pub view_permission: String,
}

/// Whether this is something that a guild can say.
pub open spec fn is_permission(p: Seq<char>) -> bool {
    p == "disabled"@ || p == "managers"@ || p == "members"@
}

/// Who is to see a guild's list from now on, where the guild can say so.
pub fn set_view_permission(body: ViewPermBody) -> (r: Result<String, AppError>)
    ensures
        if is_permission(body.view_permission@) {
            r is Ok && r->Ok_0@ == body.view_permission@
        } else {
            r is Err && r->Err_0@ == ErrorView::BadRequest(
                "Unknown view_permission '"@ + body.view_permission@
                    + "' (expected disabled|managers|members)."@,
            )
        },
{
    let p = body.view_permission;
    if str_eq(p.as_str(), "disabled") || str_eq(p.as_str(), "managers") || str_eq(p.as_str(), "members") {
        return Ok(p);
    }
    Err(
        AppError::BadRequest(
            "Unknown view_permission '".to_owned().concat(p.as_str()).concat(
                "' (expected disabled|managers|members).",
            ),
        ),
    )
}

/// The answer to a new setting.
pub fn permission_body(view_permission: &str) -> (r: Json)
    ensures
        r@ == object_view().with("success"@, JsonView::Bool(true)).with(
            "view_permission"@,
            JsonView::Str(view_permission@),
        ),
{
    Json::object().with("success", Json::Bool(true)).with("view_permission", Json::text(view_permission))
}

} // verus!
