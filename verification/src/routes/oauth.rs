//! What becomes of a user who comes back from Kick: a broadcaster is connected to a guild, a viewer
//! is linked to a Discord account.

use vstd::prelude::*;
use vstd::string::*;

use crate::error::{AppError, ErrorView};
use crate::json::{string_opt, text_opt};
use crate::services::kick::{KickChannel, KickClient, KickUser, TokenResponse};
use crate::text::{
    holds_text, lowered, push_signed_decimal, replace, replaced, signed_decimal, split_whitespace, str_eq, texts,
    to_ascii_lowercase, words,
};
use crate::time::{can_wait, later, seconds_after, Timestamp};

verus! {

/// Accounts with a smaller number are early ones.
pub const OG_USER_ID_THRESHOLD: i64 = 1_000_000;

/// What a broadcaster is asked to allow.
pub const BROADCASTER_SCOPES: &'static str = "user:read channel:read events:subscribe";

/// What a viewer is asked to allow.
pub const VIEWER_SCOPES: &'static str = "user:read";

/// How many seconds a sign-in may take.
pub const STATE_SECONDS: i64 = 600;

/// How many seconds a token is good for at least, whatever Kick says.
pub const MIN_TOKEN_SECONDS: i64 = 60;

/// The events that a channel is subscribed to.
pub open spec fn subscribed_events() -> Seq<Seq<char>> {
    seq![
        "channel.followed"@,
        "channel.subscription.new"@,
        "channel.subscription.renewal"@,
        "channel.subscription.gifts"@,
        "channel.subscription.cancel"@,
        "livestream.online"@,
        "livestream.offline"@,
    ]
}

/// The events that a channel is subscribed to.
pub fn event_types() -> (r: Vec<&'static str>)
    ensures
        r@.map_values(|s: &'static str| s@) == subscribed_events(),
{
    let r = vec![
        "channel.followed",
        "channel.subscription.new",
        "channel.subscription.renewal",
        "channel.subscription.gifts",
        "channel.subscription.cancel",
        "livestream.online",
        "livestream.offline",
    ];
    assert(r@.map_values(|s: &'static str| s@) =~= subscribed_events());
    r
}

/// The events among the first `n` that a channel is to be subscribed to and is not.
pub open spec fn missing_events(active: Seq<Seq<char>>, n: int) -> Seq<Seq<char>>
    decreases n,
{
    if n <= 0 {
        seq![]
    } else {
        let before = missing_events(active, n - 1);
        if active.contains(subscribed_events()[n - 1]) {
            before
        } else {
            before.push(subscribed_events()[n - 1])
        }
    }
}

/// The events that a channel is to be subscribed to and is not, where those that it is are given.
pub fn missing_event_types(active: &Vec<String>) -> (r: Vec<&'static str>)
    ensures
        r@.map_values(|s: &'static str| s@) == missing_events(texts(active@), subscribed_events().len() as int),
{
    let all = event_types();
    let ghost names = all@.map_values(|s: &'static str| s@);
    let mut r: Vec<&'static str> = Vec::new();
    let mut i: usize = 0;
    assert(r@.map_values(|s: &'static str| s@) =~= seq![]);
    while i < all.len()
        invariant
            i <= all.len(),
            names == all@.map_values(|s: &'static str| s@),
            names == subscribed_events(),
            r@.map_values(|s: &'static str| s@) == missing_events(texts(active@), i as int),
        decreases all.len() - i,
    {
        let name = all[i];
        assert(names[i as int] == name@);
        let ghost before = r@;
        if !holds_text(active, name) {
            r.push(name);
            assert(r@.map_values(|s: &'static str| s@) =~= before.map_values(|s: &'static str| s@).push(name@));
        }
        i = i + 1;
    }
    r
}

/// Where Kick sends a broadcaster back to.
pub fn broadcaster_redirect_uri(base_url: &str) -> (r: String)
    ensures
        r@ == base_url@ + "/oauth/kick/broadcaster/callback"@,
{
    base_url.to_owned().concat("/oauth/kick/broadcaster/callback")
}

/// Where Kick sends a viewer back to.
pub fn viewer_redirect_uri(base_url: &str) -> (r: String)
    ensures
        r@ == base_url@ + "/oauth/kick/viewer/callback"@,
{
    base_url.to_owned().concat("/oauth/kick/viewer/callback")
}

/// What Kick sends along.
pub struct CallbackQuery {
    pub code: Option<String>,
    pub state: Option<String>,
    pub error: Option<String>,
    pub error_description: Option<String>,
}

/// Who signs in.
#[derive(Debug, Clone, Copy, PartialEq, Eq, Structural)]
pub enum Flow {
    Broadcaster,
    Viewer,
}

impl Flow {
    /// What the flow is called where it is kept.
    pub open spec fn key(self) -> Seq<char> {
        match self {
            Flow::Broadcaster => "broadcaster"@,
            Flow::Viewer => "viewer"@,
        }
    }

    /// What the flow is called where it is kept.
    pub fn as_str(self) -> (r: &'static str)
        ensures
            r@ == self.key(),
    {
        match self {
            Flow::Broadcaster => "broadcaster",
            Flow::Viewer => "viewer",
        }
    }

    /// How the message begins where Kick reports an error.
    pub open spec fn kick_error(self) -> Seq<char> {
        match self {
            Flow::Broadcaster => "Kick returned an error during authorization: "@,
            Flow::Viewer => "Kick returned an error: "@,
        }
    }

    /// What is said of a sign-in that is not known, or no longer.
    pub open spec fn expired(self) -> Seq<char> {
        match self {
            Flow::Broadcaster => "OAuth state expired or unknown — start the connect flow again."@,
            Flow::Viewer => "OAuth state expired or unknown — start the link flow again."@,
        }
    }
}

/// The text, empty where there is none.
pub open spec fn or_empty(s: Option<Seq<char>>) -> Seq<char> {
    match s {
        Some(t) => t,
        None => seq![],
    }
}

/// The code and the state that Kick sends along, or why there are none.
pub open spec fn callback_of(
    flow: Flow,
    code: Option<Seq<char>>,
    state: Option<Seq<char>>,
    error: Option<Seq<char>>,
    description: Option<Seq<char>>,
) -> Result<(Seq<char>, Seq<char>), ErrorView> {
    match error {
        Some(e) => Err(
            ErrorView::BadRequest(flow.kick_error() + e + " ("@ + or_empty(description) + ")"@),
        ),
        None => match code {
            None => Err(ErrorView::BadRequest("Missing `code` from Kick callback."@)),
            Some(code) => match state {
                None => Err(ErrorView::BadRequest("Missing `state` from Kick callback."@)),
                Some(state) => Ok((code, state)),
            },
        },
    }
}

/// The code and the state that Kick sends along. An error that Kick reports comes before anything
/// that is missing.
pub fn read_callback(flow: Flow, q: CallbackQuery) -> (r: Result<(String, String), AppError>)
    ensures
        match callback_of(
            flow,
            string_opt(q.code),
            string_opt(q.state),
            string_opt(q.error),
            string_opt(q.error_description),
        ) {
            Ok(pair) => r is Ok && (r->Ok_0.0@, r->Ok_0.1@) == pair,
            Err(e) => r is Err && r->Err_0@ == e,
        },
{
    if let Some(e) = q.error {
        let description = match q.error_description {
            Some(d) => d,
            None => {
                let d = String::new();
                assert(d@ =~= seq![]);
                d
            },
        };
        let begin = match flow {
            Flow::Broadcaster => "Kick returned an error during authorization: ",
            Flow::Viewer => "Kick returned an error: ",
        };
        return Err(
            AppError::BadRequest(
                begin.to_owned().concat(e.as_str()).concat(" (").concat(description.as_str()).concat(")"),
            ),
        );
    }
    let code = match q.code {
        Some(c) => c,
        None => return Err(AppError::BadRequest("Missing `code` from Kick callback.".to_owned())),
    };
    let state = match q.state {
        Some(s) => s,
        None => return Err(AppError::BadRequest("Missing `state` from Kick callback.".to_owned())),
    };
    Ok((code, state))
}

/// What was kept of a sign-in.
pub struct OauthState {
    pub code_verifier: String,
    pub flow: String,
    pub discord_id: String,
    pub guild_id: Option<String>,
}

/// Why a sign-in cannot go on; none where it can.
pub open spec fn state_error(flow: Flow, row: Option<OauthState>) -> Option<ErrorView> {
    match row {
        None => Some(ErrorView::BadRequest(flow.expired())),
        Some(s) => if s.flow@ != flow.key() {
            Some(ErrorView::BadRequest("OAuth state was issued for a different flow."@))
        } else if flow is Broadcaster && s.guild_id is None {
            Some(ErrorView::BadRequest("Broadcaster flow missing guild_id."@))
        } else {
            None
        },
    }
}

/// What was kept of a sign-in, where it can go on: it is known, of this flow, and a broadcaster's
/// names a guild.
pub fn check_state(flow: Flow, row: Option<OauthState>) -> (r: Result<OauthState, AppError>)
    ensures
        match state_error(flow, row) {
            None => r is Ok && r->Ok_0 == row->0,
            Some(e) => r is Err && r->Err_0@ == e,
        },
{
    let s = match row {
        Some(s) => s,
        None => {
            let message = match flow {
                Flow::Broadcaster => "OAuth state expired or unknown — start the connect flow again.",
                Flow::Viewer => "OAuth state expired or unknown — start the link flow again.",
            };
            return Err(AppError::BadRequest(message.to_owned()));
        },
    };
    if !str_eq(s.flow.as_str(), flow.as_str()) {
        return Err(AppError::BadRequest("OAuth state was issued for a different flow.".to_owned()));
    }
    if matches!(flow, Flow::Broadcaster) && s.guild_id.is_none() {
        return Err(AppError::BadRequest("Broadcaster flow missing guild_id.".to_owned()));
    }
    Ok(s)
}

/// The client with the configured credentials, or which of them is missing.
pub fn build_kick_client(client_id: &Option<String>, client_secret: &Option<String>) -> (r: Result<
    KickClient,
    AppError,
>)
    ensures
        match (*client_id, *client_secret) {
            (None, _) => r is Err && r->Err_0@ == ErrorView::Internal("KICK_CLIENT_ID is not configured."@),
            (Some(_), None) => r is Err && r->Err_0@ == ErrorView::Internal(
                "KICK_CLIENT_SECRET is not configured."@,
            ),
            (Some(id), Some(secret)) => r is Ok && r->Ok_0.id() == id@ && r->Ok_0.secret() == secret@,
        },
{
    let id = match client_id {
        Some(id) => id.clone(),
        None => return Err(AppError::Internal("KICK_CLIENT_ID is not configured.".to_owned())),
    };
    let secret = match client_secret {
        Some(secret) => secret.clone(),
        None => return Err(AppError::Internal("KICK_CLIENT_SECRET is not configured.".to_owned())),
    };
    Ok(KickClient::new(id, secret))
}

/// The token that outlives the others; without it a broadcaster cannot be connected.
pub fn require_refresh_token(tokens: &TokenResponse) -> (r: Result<String, AppError>)
    ensures
        match tokens.refresh_token {
            Some(t) => r is Ok && r->Ok_0@ == t@,
            None => r is Err && r->Err_0@ == ErrorView::KickApi(
                "Kick did not return a refresh_token — connect cannot persist."@,
            ),
        },
{
    match &tokens.refresh_token {
        Some(t) => Ok(t.clone()),
        None => Err(
            AppError::KickApi("Kick did not return a refresh_token — connect cannot persist.".to_owned()),
        ),
    }
}

/// How many seconds a token is good for.
pub open spec fn token_seconds(expires_in: i64) -> i64 {
    if expires_in < MIN_TOKEN_SECONDS {
        MIN_TOKEN_SECONDS
    } else {
        expires_in
    }
}

/// When a token that was given out at the instant `now` ends.
pub fn token_expiry(expires_in: i64, now: Timestamp) -> (r: Timestamp)
    requires
        can_wait(now, token_seconds(expires_in) as int),
    ensures
        r == later(now, token_seconds(expires_in) as int),
        r.valid(),
{
    let seconds: i64 = if expires_in < MIN_TOKEN_SECONDS {
        MIN_TOKEN_SECONDS
    } else {
        expires_in
    };
    seconds_after(now, seconds)
}

/// When a sign-in that was begun at the instant `now` is too late.
pub fn state_expiry(now: Timestamp) -> (r: Timestamp)
    requires
        can_wait(now, STATE_SECONDS as int),
    ensures
        r == later(now, STATE_SECONDS as int),
        r.valid(),
{
    seconds_after(now, STATE_SECONDS)
}

/// Whether a stream is live.
pub open spec fn stream_live(channel: Option<KickChannel>) -> bool {
    channel is Some && channel->0.stream is Some && channel->0.stream->0.is_live
}

/// How many watch a stream.
pub open spec fn stream_viewers(channel: Option<KickChannel>) -> i64 {
    if channel is Some && channel->0.stream is Some {
        channel->0.stream->0.viewer_count
    } else {
        0
    }
}

/// What is streamed.
pub open spec fn stream_category(channel: Option<KickChannel>) -> Option<Seq<char>> {
    if channel is Some && channel->0.category is Some {
        string_opt(channel->0.category->0.name)
    } else {
        None
    }
}

/// What is live on a channel.
#[derive(Debug)]
pub struct LiveState {
    pub is_live: bool,
    pub viewer_count: i64,
    pub category: Option<String>,
}

/// What is live on a channel; of one that Kick says nothing about, nothing.
pub fn live_state(channel: &Option<KickChannel>) -> (r: LiveState)
    ensures
        r.is_live == stream_live(*channel),
        r.viewer_count == stream_viewers(*channel),
        string_opt(r.category) == stream_category(*channel),
{
    let channel = match channel {
        Some(c) => c,
        None => return LiveState { is_live: false, viewer_count: 0, category: None },
    };
    let (is_live, viewer_count): (bool, i64) = match &channel.stream {
        Some(s) => (s.is_live, s.viewer_count),
        None => (false, 0),
    };
    let category = match &channel.category {
        Some(c) => c.name.clone(),
        None => None,
    };
    LiveState { is_live, viewer_count, category }
}

/// A broadcaster, as kept.
#[derive(Debug)]
pub struct BroadcasterRecord {
    pub kick_channel_id: i64,
    pub kick_slug: String,
    pub display_name: String,
    pub token_scopes: Vec<String>,
    pub live: LiveState,
}

/// The channel's name in addresses; the account's name in lower case where Kick does not give one.
pub open spec fn broadcaster_slug(name: Seq<char>, channel: Option<KickChannel>) -> Seq<char> {
    match channel {
        Some(c) => c.slug@,
        None => lowered(name),
    }
}

/// What is kept of a broadcaster.
pub fn broadcaster_record(user: &KickUser, channel: &Option<KickChannel>, tokens: &TokenResponse) -> (r: BroadcasterRecord)
    ensures
        r.kick_channel_id == user.user_id,
        r.kick_slug@ == broadcaster_slug(user.name@, *channel),
        r.display_name@ == user.name@,
        texts(r.token_scopes@) == words(or_empty(string_opt(tokens.scope))),
        r.live.is_live == stream_live(*channel),
        r.live.viewer_count == stream_viewers(*channel),
        string_opt(r.live.category) == stream_category(*channel),
{
    let kick_slug = match channel {
        Some(c) => c.slug.clone(),
        None => to_ascii_lowercase(user.name.as_str()),
    };
    let token_scopes = match &tokens.scope {
        Some(s) => split_whitespace(s.as_str()),
        None => {
            let none = String::new();
            assert(none@ =~= seq![]);
            split_whitespace(none.as_str())
        },
    };
    BroadcasterRecord {
        kick_channel_id: user.user_id,
        kick_slug,
        display_name: user.name.clone(),
        token_scopes,
        live: live_state(channel),
    }
}

/// Whether an account is an early one.
pub fn is_og(user_id: i64) -> (r: bool)
    ensures
        r == (user_id < OG_USER_ID_THRESHOLD),
{
    user_id < OG_USER_ID_THRESHOLD
}

/// The name of a viewer's page on Kick; the account's name in lower case, with hyphens for
/// underscores, where Kick does not give one.
pub open spec fn profile_slug(name: Seq<char>, channel_slug: Option<Seq<char>>) -> Seq<char> {
    match channel_slug {
        Some(s) => s,
        None => replaced(lowered(name), "_"@, "-"@),
    }
}

/// The name of a viewer's page on Kick.
pub fn viewer_slug(name: &str, channel_slug: Option<String>) -> (r: String)
    ensures
        r@ == profile_slug(name@, string_opt(channel_slug)),
{
    match channel_slug {
        Some(s) => s,
        None => {
            proof {
                reveal_strlit("_");
                assert("_"@.len() == 1);
            }
            let low = to_ascii_lowercase(name);
            replace(low.as_str(), "_", "-")
        },
    }
}

/// The code with which the database reports that a value must not occur twice.
pub const UNIQUE_VIOLATION: &'static str = "23505";

/// The constraint that an account is linked once.
pub const ACCOUNT_IS_LINKED_ONCE: &'static str = "kick_users_kick_user_id_key";

/// What is said where an account is linked to someone else.
pub open spec fn already_linked(name: Seq<char>) -> ErrorView {
    ErrorView::Forbidden(
        "Kick account "@ + name
            + " is already linked to a different Discord account. Unlink there first, then try again."@,
    )
}

/// What is said where an account is linked to someone else; none where the failure is another.
pub fn duplicate_link(code: Option<&str>, constraint: Option<&str>, name: &str) -> (r: Option<AppError>)
    ensures
        if text_opt(code) == Some(UNIQUE_VIOLATION@) && text_opt(constraint) == Some(ACCOUNT_IS_LINKED_ONCE@) {
            r is Some && r->0@ == already_linked(name@)
        } else {
            r is None
        },
{
    let unique = match code {
        Some(c) => str_eq(c, UNIQUE_VIOLATION),
        None => false,
    };
    let account = match constraint {
        Some(c) => str_eq(c, ACCOUNT_IS_LINKED_ONCE),
        None => false,
    };
    if unique && account {
        Some(
            AppError::Forbidden(
                "Kick account ".to_owned().concat(name).concat(
                    " is already linked to a different Discord account. Unlink there first, then try again.",
                ),
            ),
        )
    } else {
        None
    }
}

/// The page for a broadcaster who was connected.
pub fn success_page(template: &str, base_url: &str, username: &str, guild_id: &str) -> (r: String)
    ensures
        r@ == replaced(
            replaced(replaced(template@, "{{BASE_URL}}"@, base_url@), "{{KICK_USERNAME}}"@, username@),
            "{{GUILD_ID}}"@,
            guild_id@,
        ),
{
    proof {
        reveal_strlit("{{BASE_URL}}");
        reveal_strlit("{{KICK_USERNAME}}");
        reveal_strlit("{{GUILD_ID}}");
        assert("{{BASE_URL}}"@.len() == 12 && "{{KICK_USERNAME}}"@.len() == 17 && "{{GUILD_ID}}"@.len() == 12);
    }
    let page = replace(template, "{{BASE_URL}}", base_url);
    let page = replace(page.as_str(), "{{KICK_USERNAME}}", username);
    replace(page.as_str(), "{{GUILD_ID}}", guild_id)
}

/// The page for a viewer who was linked.
pub fn viewer_done_page(template: &str, base_url: &str, username: &str, slug: &str, user_id: i64) -> (r: String)
    ensures
        r@ == replaced(
            replaced(
                replaced(replaced(template@, "{{BASE_URL}}"@, base_url@), "{{KICK_USERNAME}}"@, username@),
                "{{KICK_SLUG}}"@,
                slug@,
            ),
            "{{KICK_USER_ID}}"@,
            signed_decimal(user_id as int),
        ),
{
    proof {
        reveal_strlit("{{BASE_URL}}");
        reveal_strlit("{{KICK_USERNAME}}");
        reveal_strlit("{{KICK_SLUG}}");
        reveal_strlit("{{KICK_USER_ID}}");
        assert("{{BASE_URL}}"@.len() == 12 && "{{KICK_USERNAME}}"@.len() == 17 && "{{KICK_SLUG}}"@.len() == 13
            && "{{KICK_USER_ID}}"@.len() == 16);
    }
    let mut number = String::new();
    push_signed_decimal(&mut number, user_id);
    assert(number@ =~= signed_decimal(user_id as int));
    let page = replace(template, "{{BASE_URL}}", base_url);
    let page = replace(page.as_str(), "{{KICK_USERNAME}}", username);
    let page = replace(page.as_str(), "{{KICK_SLUG}}", slug);
    replace(page.as_str(), "{{KICK_USER_ID}}", number.as_str())
}

/// A sign-in of one flow cannot be finished in the other.
pub proof fn law_a_state_serves_its_own_flow_only(row: OauthState)
    ensures
        state_error(Flow::Broadcaster, Some(row)) is Some || state_error(Flow::Viewer, Some(row)) is Some,
{
    reveal_strlit("broadcaster");
    reveal_strlit("viewer");
    assert("broadcaster"@.len() == 11 && "viewer"@.len() == 6);
}

} // verus!
