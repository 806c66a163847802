//! A member's way to a linked account: what the page shows, and where it leads.

use vstd::prelude::*;
use vstd::string::*;
use vstd::utf8::*;

use crate::crypto::{base64url, is_url_safe};
use crate::error::{AppError, ErrorView};
use crate::json::{array_view, object_view, string_opt, text_or_null, Json, JsonView};
use crate::routes::oauth::{viewer_redirect_uri, VIEWER_SCOPES};
use crate::services::kick::{authorize_fields, build_authorize, new_code_verifier, AUTHORIZE_URL, VERIFIER_BYTES};
use crate::text::{all_digits, chars_of, replace, replaced};
use crate::url::{encode_segment, form, path_of, path_only, percent_encoded};

verus! {

/// The page, from its template.
pub fn verify_page(template: &str, base_url: &str) -> (r: String)
    ensures
        r@ == replaced(template@, "{{BASE_URL}}"@, base_url@),
{
    proof {
        reveal_strlit("{{BASE_URL}}");
        assert("{{BASE_URL}}"@.len() == 12);
    }
    replace(template, "{{BASE_URL}}", base_url)
}

/// What is known of a visitor.
#[derive(Debug)]
pub struct VerifyStatus {
    /// The visitor's name on Discord, where the visitor is signed in.
    pub discord_username: Option<String>,
    /// The number and the name of the linked account.
    pub kick_link: Option<(i64, String)>,
}

/// What the page is told of a visitor.
pub open spec fn status_json(status: VerifyStatus) -> JsonView {
    object_view().with("signed_in_discord"@, JsonView::Bool(status.discord_username is Some)).with(
        "discord_username"@,
        text_or_null(string_opt(status.discord_username)),
    ).with("linked_kick"@, JsonView::Bool(status.kick_link is Some)).with(
        "kick_user_id"@,
        match status.kick_link {
            Some(link) => JsonView::Int(link.0),
            None => JsonView::Null,
        },
    ).with(
        "kick_username"@,
        match status.kick_link {
            Some(link) => JsonView::Str(link.1@),
            None => JsonView::Null,
        },
    )
}

/// What the page is told of a visitor.
pub fn status_body(status: &VerifyStatus) -> (r: Json)
    ensures
        r@ == status_json(*status),
{
    let user_id = match &status.kick_link {
        Some(link) => Json::Int(link.0),
        None => Json::Null,
    };
    let username = match &status.kick_link {
        Some(link) => Json::text(link.1.as_str()),
        None => Json::Null,
    };
    Json::object().with("signed_in_discord", Json::Bool(status.discord_username.is_some())).with(
        "discord_username",
        Json::text_or_null(&status.discord_username),
    ).with("linked_kick", Json::Bool(status.kick_link.is_some())).with("kick_user_id", user_id).with(
        "kick_username",
        username,
    )
}

/// Which guild's channels are asked for.
#[derive(Debug)]
pub struct ChannelsQuery {
    pub guild: Option<String>,
}

/// Whether a text has the shape of a guild's identifier: 5 to 25 digits.
pub open spec fn is_guild_id(s: Seq<char>) -> bool {
    5 <= s.len() <= 25 && all_digits(s)
}

/// Whether a text has the shape of a guild's identifier.
pub fn valid_guild_id(s: &str) -> (r: bool)
    ensures
        r == is_guild_id(s@),
{
    let chars = chars_of(s);
    if chars.len() < 5 || chars.len() > 25 {
        return false;
    }
    let mut i: usize = 0;
    while i < chars.len()
        invariant
            i <= chars.len(),
            chars@ == s@,
            5 <= chars.len() <= 25,
            forall|j: int| 0 <= j < i ==> crate::text::is_digit(#[trigger] s@[j]),
        decreases chars.len() - i,
    {
        let c = chars[i];
        if !('0' <= c && c <= '9') {
            assert(!crate::text::is_digit(s@[i as int]));
            return false;
        }
        i = i + 1;
    }
    true
}

/// The guild to look up; none where the query names none, or nothing that could be one.
pub fn asked_guild(q: ChannelsQuery) -> (r: Option<String>)
    ensures
        string_opt(r) == (match string_opt(q.guild) {
            Some(g) => if is_guild_id(g) {
                Some(g)
            } else {
                None
            },
            None => None,
        }),
{
    match q.guild {
        Some(g) => if valid_guild_id(g.as_str()) {
            Some(g)
        } else {
            None
        },
        None => None,
    }
}

/// A channel that a guild watches.
#[derive(Debug)]
pub struct VerifyChannel {
    pub kick_channel_id: i64,
    pub kick_slug: String,
    pub display_name: String,
    pub is_live: bool,
    pub current_category: Option<String>,
}

impl VerifyChannel {
    /// What the page is told of a channel.
    pub open spec fn json(self) -> JsonView {
        object_view().with("kick_channel_id"@, JsonView::Int(self.kick_channel_id)).with(
            "kick_slug"@,
            JsonView::Str(self.kick_slug@),
        ).with("display_name"@, JsonView::Str(self.display_name@)).with(
            "is_live"@,
            JsonView::Bool(self.is_live),
        ).with("current_category"@, text_or_null(string_opt(self.current_category)))
    }

    /// What the page is told of a channel.
    fn to_json(&self) -> (r: Json)
        ensures
            r@ == self.json(),
    {
        Json::object().with("kick_channel_id", Json::Int(self.kick_channel_id)).with(
            "kick_slug",
            Json::text(self.kick_slug.as_str()),
        ).with("display_name", Json::text(self.display_name.as_str())).with(
            "is_live",
            Json::Bool(self.is_live),
        ).with("current_category", Json::text_or_null(&self.current_category))
    }
}

/// What the page is told of the channels.
pub open spec fn channel_list(channels: Seq<VerifyChannel>) -> JsonView
    decreases channels.len(),
{
    if channels.len() == 0 {
        array_view()
    } else {
        channel_list(channels.drop_last()).and(channels.last().json())
    }
}

/// What the page is told of a guild's channels.
pub fn channels_body(channels: &Vec<VerifyChannel>) -> (r: Json)
    ensures
        r@ == object_view().with("channels"@, channel_list(channels@)),
{
    let mut list = Json::list();
    let mut i: usize = 0;
    assert(channels@.take(0) =~= seq![]);
    while i < channels.len()
        invariant
            i <= channels.len(),
            list@ == channel_list(channels@.take(i as int)),
        decreases channels.len() - i,
    {
        assert(channels@.take(i + 1).drop_last() =~= channels@.take(i as int));
        assert(channels@.take(i + 1).last() == channels@[i as int]);
        list = list.and(channels[i].to_json());
        i = i + 1;
    }
    assert(channels@.take(i as int) =~= channels@);
    Json::object().with("channels", list)
}

/// The account that was unlinked, or that there was none.
pub fn unlinked(removed: Option<i64>) -> (r: Result<i64, AppError>)
    ensures
        match removed {
            Some(id) => r is Ok && r->Ok_0 == id,
            None => r is Err && r->Err_0@ == ErrorView::NotFound("No linked Kick account to unlink."@),
        },
{
    match removed {
        Some(id) => Ok(id),
        None => Err(AppError::NotFound("No linked Kick account to unlink.".to_owned())),
    }
}

/// The answer to what was done.
pub fn success_body() -> (r: Json)
    ensures
        r@ == object_view().with("success"@, JsonView::Bool(true)),
{
    Json::object().with("success", Json::Bool(true))
}

/// The answer to a wish for a new look: whether one was begun on any channel. Nobody looks for
/// someone who has linked no account.
pub fn refresh_body(is_linked: bool, channels: usize) -> (r: Json)
    ensures
        r@ == object_view().with("refreshed"@, JsonView::Bool(is_linked && channels > 0)),
{
    Json::object().with("refreshed", Json::Bool(is_linked && channels > 0))
}

/// Where a visitor signs in with Discord, to come back to the page: by its path alone.
pub fn login_url(auth_gateway_url: &str, base_url: &str) -> (r: String)
    ensures
        r@ == auth_gateway_url@ + "/auth/login?return_to="@ + percent_encoded(
            encode_utf8(path_of(base_url@) + "/verify"@),
        ),
{
    let path = path_only(base_url).concat("/verify");
    let path = encode_segment(path.as_str());
    auth_gateway_url.to_owned().concat("/auth/login?return_to=").concat(path.as_str())
}

/// A hexadecimal digit, in lower case.
pub open spec fn is_hex_lower(c: char) -> bool {
    ('0' <= c && c <= '9') || ('a' <= c && c <= 'f')
}

/// A random identifier as it is written: 32 hexadecimal digits in five parts with hyphens between
/// them. The first digit of the third part is `4`, and that of the fourth is one of `8`, `9`, `a`
/// and `b`.
pub open spec fn is_uuid_v4(s: Seq<char>) -> bool {
    &&& s.len() == 36
    &&& s[14] == '4'
    &&& s[19] == '8' || s[19] == '9' || s[19] == 'a' || s[19] == 'b'
    &&& forall|i: int|
        0 <= i < 36 ==> if i == 8 || i == 13 || i == 18 || i == 23 {
            #[trigger] s[i] == '-'
        } else {
            is_hex_lower(s[i])
        }
}

/// `uuid::Uuid::new_v4`, written out: an identifier of the fourth version. Which one, is left to
/// chance.
#[verifier::external_body]
fn new_uuid() -> (r: String)
    ensures
        is_uuid_v4(r@),
{
    uuid::Uuid::new_v4().to_string()
}

/// A viewer's sign-in with Kick, begun.
pub struct LinkStart {
    /// By which the sign-in is known when the viewer comes back.
    pub state: String,
    pub code_verifier: String,
    /// Where the viewer is sent.
    pub authorize_url: String,
}

/// Where a viewer is sent to sign in.
pub open spec fn viewer_authorize_url(
    client_id: Seq<char>,
    base_url: Seq<char>,
    state: Seq<char>,
    code_verifier: Seq<char>,
) -> Seq<char> {
    AUTHORIZE_URL@ + "?"@ + form(
        authorize_fields(
            client_id,
            base_url + "/oauth/kick/viewer/callback"@,
            VIEWER_SCOPES@,
            state,
            code_verifier,
        ),
    )
}

/// A viewer's sign-in with Kick, begun with this state and this verifier.
pub fn link_start(client_id: &str, base_url: &str, state: String, code_verifier: String) -> (r: LinkStart)
    ensures
        r.state@ == state@,
        r.code_verifier@ == code_verifier@,
        r.authorize_url@ == viewer_authorize_url(client_id@, base_url@, state@, code_verifier@),
{
    let redirect_uri = viewer_redirect_uri(base_url);
    let authorize_url = build_authorize(
        client_id,
        redirect_uri.as_str(),
        VIEWER_SCOPES,
        state.as_str(),
        code_verifier.as_str(),
    );
    LinkStart { state, code_verifier, authorize_url }
}

/// Begins a viewer's sign-in with Kick. The state is a random identifier, and the verifier is made
/// of bytes of chance: 96 characters that can stand in a URL as they are.
pub fn start_link(client_id: &Option<String>, base_url: &str) -> (r: Result<LinkStart, AppError>)
    ensures
        match *client_id {
            None => r is Err && r->Err_0@ == ErrorView::Internal(
                "KICK_CLIENT_ID is not configured on this server."@,
            ),
            Some(id) => r is Ok && {
                &&& is_uuid_v4(r->Ok_0.state@)
                &&& exists|bytes: Seq<u8>|
                    bytes.len() == VERIFIER_BYTES && r->Ok_0.code_verifier@ == #[trigger] base64url(bytes)
                &&& r->Ok_0.code_verifier@.len() == 96
                &&& forall|i: int|
                    0 <= i < r->Ok_0.code_verifier@.len() ==> is_url_safe(#[trigger] r->Ok_0.code_verifier@[i])
                &&& r->Ok_0.authorize_url@ == viewer_authorize_url(
                    id@,
                    base_url@,
                    r->Ok_0.state@,
                    r->Ok_0.code_verifier@,
                )
            },
        },
{
    match client_id {
        Some(id) => Ok(link_start(id.as_str(), base_url, new_uuid(), new_code_verifier())),
        None => Err(AppError::Internal("KICK_CLIENT_ID is not configured on this server.".to_owned())),
    }
}

/// The answer that sends a viewer to Kick.
pub fn authorize_body(authorize_url: &str) -> (r: Json)
    ensures
        r@ == object_view().with("authorize_url"@, JsonView::Str(authorize_url@)),
{
    Json::object().with("authorize_url", Json::text(authorize_url))
}

} // verus!
