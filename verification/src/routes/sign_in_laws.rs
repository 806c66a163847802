//! How long a sign-in and its tokens are good, what comes back from it, and what is kept of it.

use vstd::prelude::*;
use vstd::string::*;

use crate::error::{AppError, ErrorView};
use crate::json::text_opt;
use crate::routes::oauth::{
    broadcaster_record, broadcaster_redirect_uri, build_kick_client, callback_of, duplicate_link, is_og, live_state,
    missing_events, profile_slug, require_refresh_token, state_error, state_expiry, subscribed_events, success_page,
    token_expiry, token_seconds, viewer_done_page, viewer_redirect_uri, BroadcasterRecord, Flow, LiveState,
    OauthState, BROADCASTER_SCOPES, VIEWER_SCOPES,
};
use crate::routes::sign_in::{link_of, CONSUME_STATE, LINK_VIEWER};
use crate::routes::verify::{link_start, LinkStart};
use crate::services::kick::{build_authorize, KickChannel, KickClient, KickUser, TokenResponse};
use crate::text::{contains_text, lowered, occurs_at, replaced, signed_decimal, texts, words};
use crate::time::{can_wait, Timestamp};

verus! {

/// A sign-in goes on where Kick reports no error and sends both the code and the state, each under
/// its name; else it is refused as a bad request, with what Kick said.
pub proof fn law_a_sign_in_needs_code_and_state(
    flow: Flow,
    code: Option<Seq<char>>,
    state: Option<Seq<char>>,
    error: Option<Seq<char>>,
    description: Option<Seq<char>>,
)
    ensures
        ({
            let r = callback_of(flow, code, state, error, description);
            &&& r is Ok <==> error is None && code is Some && state is Some
            &&& r matches Ok(pair) ==> pair == (code->0, state->0)
            &&& r is Err ==> r->Err_0 is BadRequest
            &&& error is Some ==> contains_text(r->Err_0->BadRequest_0, error->0)
            &&& error is Some && description is Some ==> contains_text(r->Err_0->BadRequest_0, description->0)
        }),
{
    let r = callback_of(flow, code, state, error, description);
    if error is Some {
        let text = r->Err_0->BadRequest_0;
        let front = flow.kick_error();
        assert(occurs_at(text, error->0, front.len() as int)) by {
            assert(text.subrange(front.len() as int, (front.len() + error->0.len()) as int) =~= error->0);
        }
        if description is Some {
            let middle = front + error->0 + " ("@;
            assert(occurs_at(text, description->0, middle.len() as int)) by {
                assert(text.subrange(middle.len() as int, (middle.len() + description->0.len()) as int)
                    =~= description->0);
            }
        }
    }
}

/// A state serves where it was kept for the flow that asks, under that flow's name, and where it
/// names a guild, if a broadcaster's is asked for; else the sign-in is refused as a bad request.
pub proof fn law_a_state_serves_the_flow_that_it_names(row: Option<OauthState>)
    ensures
        state_error(Flow::Viewer, row) is None <==> row is Some && row->0.flow@ == "viewer"@,
        state_error(Flow::Broadcaster, row) is None <==> row is Some && row->0.flow@ == "broadcaster"@
            && row->0.guild_id is Some,
        state_error(Flow::Viewer, row) is Some ==> state_error(Flow::Viewer, row)->0 is BadRequest,
        state_error(Flow::Broadcaster, row) is Some ==> state_error(Flow::Broadcaster, row)->0 is BadRequest,
{
}

/// Each flow comes back to its own address and asks for its own permissions.
pub proof fn law_flows_come_back_to_their_own_addresses(base_url: &str, broadcaster: String, viewer: String)
    requires
        call_ensures(broadcaster_redirect_uri, (base_url,), broadcaster),
        call_ensures(viewer_redirect_uri, (base_url,), viewer),
    ensures
        broadcaster@ == base_url@ + "/oauth/kick/broadcaster/callback"@,
        viewer@ == base_url@ + "/oauth/kick/viewer/callback"@,
        VIEWER_SCOPES@ == "user:read"@,
        BROADCASTER_SCOPES@ == "user:read channel:read events:subscribe"@,
{
}

/// A viewer's sign-in is begun with the state and the verifier that are kept of it, to come back to
/// the viewers' address, and asks to read the user alone.
pub proof fn law_a_link_is_begun_as_it_is_kept(
    client_id: &str,
    base_url: &str,
    state: String,
    code_verifier: String,
    r: LinkStart,
    redirect_uri: &str,
    scope: &str,
    kept_state: &str,
    kept_verifier: &str,
    address: String,
)
    requires
        call_ensures(link_start, (client_id, base_url, state, code_verifier), r),
        redirect_uri@ == base_url@ + "/oauth/kick/viewer/callback"@,
        scope@ == "user:read"@,
        kept_state@ == r.state@,
        kept_verifier@ == r.code_verifier@,
        call_ensures(build_authorize, (client_id, redirect_uri, scope, kept_state, kept_verifier), address),
    ensures
        r.state@ == state@,
        r.code_verifier@ == code_verifier@,
        r.authorize_url@ == address@,
{
}

/// A sign-in may take ten minutes, and a token is good for as long as Kick says, one minute at least.
pub proof fn law_sign_ins_and_tokens_end(
    expires_in: i64,
    now: Timestamp,
    token: Timestamp,
    state: Timestamp,
)
    requires
        call_ensures(token_expiry, (expires_in, now), token),
        call_ensures(state_expiry, (now,), state),
        can_wait(now, 600),
        can_wait(now, 60),
        can_wait(now, expires_in as int),
    ensures
        state.secs == now.secs + 600,
        state.nanos == now.nanos,
        expires_in >= 60 ==> token.secs == now.secs + expires_in,
        expires_in < 60 ==> token.secs == now.secs + 60,
        token.nanos == now.nanos,
        token_seconds(expires_in) >= 60,
{
}

/// The events that a channel lacks are those that it is to be subscribed to and is not, each once and
/// in their order.
pub proof fn law_what_is_missing_is_what_is_not_subscribed(active: Seq<Seq<char>>, event: Seq<char>)
    ensures
        ({
            let missing = missing_events(active, subscribed_events().len() as int);
            missing.contains(event) <==> subscribed_events().contains(event) && !active.contains(event)
        }),
        subscribed_events().contains("channel.followed"@),
        subscribed_events().contains("channel.subscription.new"@),
        subscribed_events().contains("channel.subscription.renewal"@),
        subscribed_events().contains("channel.subscription.gifts"@),
        subscribed_events().contains("channel.subscription.cancel"@),
        subscribed_events().contains("livestream.online"@),
        subscribed_events().contains("livestream.offline"@),
        subscribed_events().len() == 7,
{
    let all = subscribed_events();
    lemma_missing(active, all.len() as int, event);
    assert(all[0] == "channel.followed"@ && all[1] == "channel.subscription.new"@ && all[2]
        == "channel.subscription.renewal"@ && all[3] == "channel.subscription.gifts"@ && all[4]
        == "channel.subscription.cancel"@ && all[5] == "livestream.online"@ && all[6] == "livestream.offline"@);
    assert(all.take(all.len() as int) =~= all);
}

proof fn lemma_missing(active: Seq<Seq<char>>, n: int, event: Seq<char>)
    requires
        0 <= n <= subscribed_events().len(),
    ensures
        missing_events(active, n).contains(event) <==> subscribed_events().take(n).contains(event) && !active.contains(
            event,
        ),
    decreases n,
{
    let all = subscribed_events();
    if n > 0 {
        lemma_missing(active, n - 1, event);
        let before = missing_events(active, n - 1);
        let missing = missing_events(active, n);
        let last = all[n - 1];
        assert(all.take(n) =~= all.take(n - 1).push(last));
        if all.take(n - 1).contains(event) {
            let i = all.take(n - 1).index_of(event);
            assert(all.take(n)[i] == event);
        }
        assert(all.take(n)[n - 1] == last);
        if all.take(n).contains(event) && event != last {
            let i = all.take(n).index_of(event);
            assert(all.take(n - 1)[i] == event);
        }
        if before.contains(event) {
            let i = before.index_of(event);
            assert(missing[i] == event);
        }
        if !active.contains(last) {
            assert(missing[before.len() as int] == last);
            if missing.contains(event) && event != last {
                let i = missing.index_of(event);
                assert(before[i] == event);
            }
        }
    }
}

/// What is live on a channel is what Kick says of its stream and its category; of a channel, stream
/// or category that Kick does not name, nothing.
pub proof fn law_live_is_what_kick_says(channel: Option<KickChannel>, r: LiveState)
    requires
        call_ensures(live_state, (&channel,), r),
    ensures
        channel matches Some(c) ==> {
            &&& c.stream matches Some(s) ==> r.is_live == s.is_live && r.viewer_count == s.viewer_count
            &&& c.stream is None ==> !r.is_live && r.viewer_count == 0
            &&& c.category matches Some(g) ==> r.category is Some == g.name is Some && (r.category is Some
                ==> r.category->0@ == g.name->0@)
            &&& c.category is None ==> r.category is None
        },
        channel is None ==> !r.is_live && r.viewer_count == 0 && r.category is None,
{
}

/// A broadcaster is kept under the account's own number and name, with the channel's name in
/// addresses, the permissions that were given, one by one, and what is live.
pub proof fn law_a_broadcaster_is_kept_by_name(
    user: KickUser,
    channel: Option<KickChannel>,
    tokens: TokenResponse,
    r: BroadcasterRecord,
    live: LiveState,
)
    requires
        call_ensures(broadcaster_record, (&user, &channel, &tokens), r),
        call_ensures(live_state, (&channel,), live),
    ensures
        r.kick_channel_id == user.user_id,
        r.display_name@ == user.name@,
        channel matches Some(c) ==> r.kick_slug@ == c.slug@,
        channel is None ==> r.kick_slug@ == lowered(user.name@),
        tokens.scope matches Some(s) ==> texts(r.token_scopes@) == words(s@),
        tokens.scope is None ==> r.token_scopes@.len() == 0,
        r.live.is_live == live.is_live,
        r.live.viewer_count == live.viewer_count,
        r.live.category is Some == live.category is Some,
        r.live.category is Some ==> r.live.category->0@ == live.category->0@,
{
    if tokens.scope is None {
        assert(words(seq![]).len() == 0);
        assert(texts(r.token_scopes@).len() == 0);
    }
}

/// The client is made of both credentials, and where one is not configured it is said which; a
/// broadcaster is connected by the token that outlives the others, and not without it.
pub proof fn law_credentials_are_needed(
    id: Option<String>,
    secret: Option<String>,
    client: Result<KickClient, AppError>,
    tokens: TokenResponse,
    token: Result<String, AppError>,
)
    requires
        call_ensures(build_kick_client, (&id, &secret), client),
        call_ensures(require_refresh_token, (&tokens,), token),
    ensures
        client is Ok <==> id is Some && secret is Some,
        client is Ok ==> client->Ok_0.id() == id->0@ && client->Ok_0.secret() == secret->0@,
        id is None ==> client->Err_0@ == ErrorView::Internal("KICK_CLIENT_ID is not configured."@),
        id is Some && secret is None ==> client->Err_0@ == ErrorView::Internal(
            "KICK_CLIENT_SECRET is not configured."@,
        ),
        token is Ok <==> tokens.refresh_token is Some,
        token is Ok ==> token->Ok_0@ == tokens.refresh_token->0@,
        token is Err ==> token->Err_0 is KickApi,
{
}

/// An account is an early one where its number is below a million; a viewer is linked by the Discord
/// account that began the sign-in, with the account's own number and name.
pub proof fn law_a_viewer_is_linked_to_the_account(
    row: OauthState,
    user: KickUser,
    discord_name: Option<Seq<char>>,
    now: Timestamp,
    early: bool,
)
    requires
        call_ensures(is_og, (user.user_id,), early),
    ensures
        early == (user.user_id < 1_000_000),
        ({
            let link = link_of(row, user, discord_name, now);
            &&& link.discord_id == row.discord_id@
            &&& link.kick_user_id == user.user_id
            &&& link.kick_username == user.name@
            &&& link.kick_created_at == now
            &&& link.is_og == early
            &&& link.discord_name == discord_name
        }),
{
}

/// A viewer's page on Kick is the channel's where Kick names it; else it is the account's name in
/// lower case with hyphens for underscores.
pub proof fn law_a_page_is_named_by_its_channel(name: Seq<char>, slug: Seq<char>)
    ensures
        profile_slug(name, Some(slug)) == slug,
        profile_slug(name, None) == replaced(lowered(name), "_"@, "-"@),
{
}

/// An account that is linked to someone else is told by the database's code and constraint, and by
/// nothing else; it is forbidden, and named.
pub proof fn law_a_taken_account_is_told_by_its_constraint(
    code: Option<&str>,
    constraint: Option<&str>,
    name: &str,
    r: Option<AppError>,
)
    requires
        call_ensures(duplicate_link, (code, constraint, name), r),
    ensures
        r is Some <==> text_opt(code) == Some("23505"@) && text_opt(constraint) == Some("kick_users_kick_user_id_key"@),
        r is Some ==> r->0 is Forbidden && contains_text(r->0@->Forbidden_0, name@),
{
    if r is Some {
        let text = r->0@->Forbidden_0;
        let front = "Kick account "@;
        assert(occurs_at(text, name@, front.len() as int)) by {
            assert(text.subrange(front.len() as int, (front.len() + name@.len()) as int) =~= name@);
        }
    }
}

/// The pages that end a sign-in have what their templates ask for, each in its place.
pub proof fn law_last_pages_are_filled_in(
    template: &str,
    base_url: &str,
    username: &str,
    guild_id: &str,
    slug: &str,
    user_id: i64,
    success: String,
    done: String,
)
    requires
        call_ensures(success_page, (template, base_url, username, guild_id), success),
        call_ensures(viewer_done_page, (template, base_url, username, slug, user_id), done),
    ensures
        ({
            let named = replaced(replaced(template@, "{{BASE_URL}}"@, base_url@), "{{KICK_USERNAME}}"@, username@);
            &&& success@ == replaced(named, "{{GUILD_ID}}"@, guild_id@)
            &&& done@ == replaced(
                replaced(named, "{{KICK_SLUG}}"@, slug@),
                "{{KICK_USER_ID}}"@,
                signed_decimal(user_id as int),
            )
        }),
{
}

/// A state is taken out by its own value while it is not too late, with what was kept of it; a link is
/// written under the Discord account, column by column, and a second one in place of the first.
#[verifier::spinoff_prover]
#[verifier::rlimit(80)]
pub proof fn law_sign_ins_are_kept_by_name()
    ensures
        CONSUME_STATE@.len() == 121,
        LINK_VIEWER@.len() == 447,
        contains_text(CONSUME_STATE@, "DELETE FROM kick_oauth_states "@),
        contains_text(CONSUME_STATE@, "WHERE state = $1 AND expires_at > now() "@),
        contains_text(CONSUME_STATE@, "RETURNING code_verifier, flow, discord_id, guild_id"@),
        contains_text(LINK_VIEWER@, "INSERT INTO kick_users (discord_id, kick_user_id, kick_username, kick_created_at, is_og, discord_name, linked_at, refreshed_at)"@),
        contains_text(LINK_VIEWER@, " VALUES ($1,$2,$3,$4,$5,$6, now(), now()) "@),
        contains_text(LINK_VIEWER@, "ON CONFLICT (discord_id) DO UPDATE SET "@),
        contains_text(LINK_VIEWER@, "kick_user_id = EXCLUDED.kick_user_id, "@),
        contains_text(LINK_VIEWER@, "kick_username = EXCLUDED.kick_username, "@),
        contains_text(LINK_VIEWER@, "kick_created_at = EXCLUDED.kick_created_at, "@),
        contains_text(LINK_VIEWER@, "is_og = EXCLUDED.is_og, "@),
        contains_text(LINK_VIEWER@, "discord_name = COALESCE(EXCLUDED.discord_name, kick_users.discord_name), "@),
        contains_text(LINK_VIEWER@, "refreshed_at = now()"@),
{
    assert(CONSUME_STATE@.len() == 121) by {
        reveal_strlit("DELETE FROM kick_oauth_states WHERE state = $1 AND expires_at > now() RETURNING code_verifier, flow, discord_id, guild_id");
    }
    assert(LINK_VIEWER@.len() == 447) by {
        reveal_strlit("INSERT INTO kick_users (discord_id, kick_user_id, kick_username, kick_created_at, is_og, discord_name, linked_at, refreshed_at) VALUES ($1,$2,$3,$4,$5,$6, now(), now()) ON CONFLICT (discord_id) DO UPDATE SET kick_user_id = EXCLUDED.kick_user_id, kick_username = EXCLUDED.kick_username, kick_created_at = EXCLUDED.kick_created_at, is_og = EXCLUDED.is_og, discord_name = COALESCE(EXCLUDED.discord_name, kick_users.discord_name), refreshed_at = now()");
    }
    assert(occurs_at(CONSUME_STATE@, "DELETE FROM kick_oauth_states "@, 0)) by {
        reveal_strlit("DELETE FROM kick_oauth_states WHERE state = $1 AND expires_at > now() RETURNING code_verifier, flow, discord_id, guild_id");
        reveal_strlit("DELETE FROM kick_oauth_states ");
        assert(CONSUME_STATE@.subrange(0, 30) =~= "DELETE FROM kick_oauth_states "@);
    }
    assert(occurs_at(CONSUME_STATE@, "WHERE state = $1 AND expires_at > now() "@, 30)) by {
        reveal_strlit("DELETE FROM kick_oauth_states WHERE state = $1 AND expires_at > now() RETURNING code_verifier, flow, discord_id, guild_id");
        reveal_strlit("WHERE state = $1 AND expires_at > now() ");
        assert(CONSUME_STATE@.subrange(30, 70) =~= "WHERE state = $1 AND expires_at > now() "@);
    }
    assert(occurs_at(CONSUME_STATE@, "RETURNING code_verifier, flow, discord_id, guild_id"@, 70)) by {
        reveal_strlit("DELETE FROM kick_oauth_states WHERE state = $1 AND expires_at > now() RETURNING code_verifier, flow, discord_id, guild_id");
        reveal_strlit("RETURNING code_verifier, flow, discord_id, guild_id");
        assert(CONSUME_STATE@.subrange(70, 121) =~= "RETURNING code_verifier, flow, discord_id, guild_id"@);
    }
    assert(occurs_at(LINK_VIEWER@, "INSERT INTO kick_users (discord_id, kick_user_id, kick_username, kick_created_at, is_og, discord_name, linked_at, refreshed_at)"@, 0)) by {
        reveal_strlit("INSERT INTO kick_users (discord_id, kick_user_id, kick_username, kick_created_at, is_og, discord_name, linked_at, refreshed_at) VALUES ($1,$2,$3,$4,$5,$6, now(), now()) ON CONFLICT (discord_id) DO UPDATE SET kick_user_id = EXCLUDED.kick_user_id, kick_username = EXCLUDED.kick_username, kick_created_at = EXCLUDED.kick_created_at, is_og = EXCLUDED.is_og, discord_name = COALESCE(EXCLUDED.discord_name, kick_users.discord_name), refreshed_at = now()");
        reveal_strlit("INSERT INTO kick_users (discord_id, kick_user_id, kick_username, kick_created_at, is_og, discord_name, linked_at, refreshed_at)");
        assert(LINK_VIEWER@.subrange(0, 127) =~= "INSERT INTO kick_users (discord_id, kick_user_id, kick_username, kick_created_at, is_og, discord_name, linked_at, refreshed_at)"@);
    }
    assert(occurs_at(LINK_VIEWER@, " VALUES ($1,$2,$3,$4,$5,$6, now(), now()) "@, 127)) by {
        reveal_strlit("INSERT INTO kick_users (discord_id, kick_user_id, kick_username, kick_created_at, is_og, discord_name, linked_at, refreshed_at) VALUES ($1,$2,$3,$4,$5,$6, now(), now()) ON CONFLICT (discord_id) DO UPDATE SET kick_user_id = EXCLUDED.kick_user_id, kick_username = EXCLUDED.kick_username, kick_created_at = EXCLUDED.kick_created_at, is_og = EXCLUDED.is_og, discord_name = COALESCE(EXCLUDED.discord_name, kick_users.discord_name), refreshed_at = now()");
        reveal_strlit(" VALUES ($1,$2,$3,$4,$5,$6, now(), now()) ");
        assert(LINK_VIEWER@.subrange(127, 169) =~= " VALUES ($1,$2,$3,$4,$5,$6, now(), now()) "@);
    }
    assert(occurs_at(LINK_VIEWER@, "ON CONFLICT (discord_id) DO UPDATE SET "@, 169)) by {
        reveal_strlit("INSERT INTO kick_users (discord_id, kick_user_id, kick_username, kick_created_at, is_og, discord_name, linked_at, refreshed_at) VALUES ($1,$2,$3,$4,$5,$6, now(), now()) ON CONFLICT (discord_id) DO UPDATE SET kick_user_id = EXCLUDED.kick_user_id, kick_username = EXCLUDED.kick_username, kick_created_at = EXCLUDED.kick_created_at, is_og = EXCLUDED.is_og, discord_name = COALESCE(EXCLUDED.discord_name, kick_users.discord_name), refreshed_at = now()");
        reveal_strlit("ON CONFLICT (discord_id) DO UPDATE SET ");
        assert(LINK_VIEWER@.subrange(169, 208) =~= "ON CONFLICT (discord_id) DO UPDATE SET "@);
    }
    assert(occurs_at(LINK_VIEWER@, "kick_user_id = EXCLUDED.kick_user_id, "@, 208)) by {
        reveal_strlit("INSERT INTO kick_users (discord_id, kick_user_id, kick_username, kick_created_at, is_og, discord_name, linked_at, refreshed_at) VALUES ($1,$2,$3,$4,$5,$6, now(), now()) ON CONFLICT (discord_id) DO UPDATE SET kick_user_id = EXCLUDED.kick_user_id, kick_username = EXCLUDED.kick_username, kick_created_at = EXCLUDED.kick_created_at, is_og = EXCLUDED.is_og, discord_name = COALESCE(EXCLUDED.discord_name, kick_users.discord_name), refreshed_at = now()");
        reveal_strlit("kick_user_id = EXCLUDED.kick_user_id, ");
        assert(LINK_VIEWER@.subrange(208, 246) =~= "kick_user_id = EXCLUDED.kick_user_id, "@);
    }
    assert(occurs_at(LINK_VIEWER@, "kick_username = EXCLUDED.kick_username, "@, 246)) by {
        reveal_strlit("INSERT INTO kick_users (discord_id, kick_user_id, kick_username, kick_created_at, is_og, discord_name, linked_at, refreshed_at) VALUES ($1,$2,$3,$4,$5,$6, now(), now()) ON CONFLICT (discord_id) DO UPDATE SET kick_user_id = EXCLUDED.kick_user_id, kick_username = EXCLUDED.kick_username, kick_created_at = EXCLUDED.kick_created_at, is_og = EXCLUDED.is_og, discord_name = COALESCE(EXCLUDED.discord_name, kick_users.discord_name), refreshed_at = now()");
        reveal_strlit("kick_username = EXCLUDED.kick_username, ");
        assert(LINK_VIEWER@.subrange(246, 286) =~= "kick_username = EXCLUDED.kick_username, "@);
    }
    assert(occurs_at(LINK_VIEWER@, "kick_created_at = EXCLUDED.kick_created_at, "@, 286)) by {
        reveal_strlit("INSERT INTO kick_users (discord_id, kick_user_id, kick_username, kick_created_at, is_og, discord_name, linked_at, refreshed_at) VALUES ($1,$2,$3,$4,$5,$6, now(), now()) ON CONFLICT (discord_id) DO UPDATE SET kick_user_id = EXCLUDED.kick_user_id, kick_username = EXCLUDED.kick_username, kick_created_at = EXCLUDED.kick_created_at, is_og = EXCLUDED.is_og, discord_name = COALESCE(EXCLUDED.discord_name, kick_users.discord_name), refreshed_at = now()");
        reveal_strlit("kick_created_at = EXCLUDED.kick_created_at, ");
        assert(LINK_VIEWER@.subrange(286, 330) =~= "kick_created_at = EXCLUDED.kick_created_at, "@);
    }
    assert(occurs_at(LINK_VIEWER@, "is_og = EXCLUDED.is_og, "@, 330)) by {
        reveal_strlit("INSERT INTO kick_users (discord_id, kick_user_id, kick_username, kick_created_at, is_og, discord_name, linked_at, refreshed_at) VALUES ($1,$2,$3,$4,$5,$6, now(), now()) ON CONFLICT (discord_id) DO UPDATE SET kick_user_id = EXCLUDED.kick_user_id, kick_username = EXCLUDED.kick_username, kick_created_at = EXCLUDED.kick_created_at, is_og = EXCLUDED.is_og, discord_name = COALESCE(EXCLUDED.discord_name, kick_users.discord_name), refreshed_at = now()");
        reveal_strlit("is_og = EXCLUDED.is_og, ");
        assert(LINK_VIEWER@.subrange(330, 354) =~= "is_og = EXCLUDED.is_og, "@);
    }
    assert(occurs_at(LINK_VIEWER@, "discord_name = COALESCE(EXCLUDED.discord_name, kick_users.discord_name), "@, 354)) by {
        reveal_strlit("INSERT INTO kick_users (discord_id, kick_user_id, kick_username, kick_created_at, is_og, discord_name, linked_at, refreshed_at) VALUES ($1,$2,$3,$4,$5,$6, now(), now()) ON CONFLICT (discord_id) DO UPDATE SET kick_user_id = EXCLUDED.kick_user_id, kick_username = EXCLUDED.kick_username, kick_created_at = EXCLUDED.kick_created_at, is_og = EXCLUDED.is_og, discord_name = COALESCE(EXCLUDED.discord_name, kick_users.discord_name), refreshed_at = now()");
        reveal_strlit("discord_name = COALESCE(EXCLUDED.discord_name, kick_users.discord_name), ");
        assert(LINK_VIEWER@.subrange(354, 427) =~= "discord_name = COALESCE(EXCLUDED.discord_name, kick_users.discord_name), "@);
    }
    assert(occurs_at(LINK_VIEWER@, "refreshed_at = now()"@, 427)) by {
        reveal_strlit("INSERT INTO kick_users (discord_id, kick_user_id, kick_username, kick_created_at, is_og, discord_name, linked_at, refreshed_at) VALUES ($1,$2,$3,$4,$5,$6, now(), now()) ON CONFLICT (discord_id) DO UPDATE SET kick_user_id = EXCLUDED.kick_user_id, kick_username = EXCLUDED.kick_username, kick_created_at = EXCLUDED.kick_created_at, is_og = EXCLUDED.is_og, discord_name = COALESCE(EXCLUDED.discord_name, kick_users.discord_name), refreshed_at = now()");
        reveal_strlit("refreshed_at = now()");
        assert(LINK_VIEWER@.subrange(427, 447) =~= "refreshed_at = now()"@);
    }
}

} // verus!
