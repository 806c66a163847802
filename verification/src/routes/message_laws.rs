//! What callers are told where something does not go as they asked, word by word.

use vstd::prelude::*;
use vstd::string::*;
use vstd::utf8::*;

use crate::error::{AppError, ErrorView};
use crate::json::{json_text, Json, JsonView};
use crate::routes::api_keys::{check_quota, label_of, revoked};
use crate::routes::api_v1::{filter_column, relation_column, since_given, single_body, UserRow};
use crate::routes::oauth::{already_linked, callback_of, require_refresh_token, state_error, Flow, OauthState};
use crate::routes::users::{set_view_permission, viewing_refused, ViewPermBody};
use crate::routes::verify::{start_link, unlinked, LinkStart};
use crate::routes::webhooks::{H_EVENT_TYPE, H_MESSAGE_ID, H_SIGNATURE, H_TIMESTAMP};
use crate::services::api_key::{presented, refusal, KeyLookup};
use crate::services::broadcaster_token::{access_token, refresh_token, token_text};
use crate::services::kick::{parse_public_key, pem_in, pem_key, subscribed, ApiCall, Fetched, SigningKey, TokenResponse};
use crate::services::kick_probe::{
    card_of, outcome_given, response_outcome, CardResponse, FollowProbe, OutcomeView, ProbeOutcome,
};
use crate::text::{decimal, trimmed};
use crate::time::Timestamp;

verus! {

/// A manager is told why a key gets no label, why a guild gets no further key, and that a key to revoke
/// is not there.
pub proof fn law_managers_are_told_why(
    label: Seq<char>,
    live: i64,
    quota: Result<(), AppError>,
    gone: Result<(), AppError>,
)
    requires
        call_ensures(check_quota, (live,), quota),
        call_ensures(revoked, (0u64,), gone),
    ensures
        trimmed(label).len() == 0 ==> label_of(label) == Err::<Seq<char>, ErrorView>(
            ErrorView::BadRequest("Give the key a label so you can tell your integrations apart."@),
        ),
        trimmed(label).len() > 60 ==> label_of(label) == Err::<Seq<char>, ErrorView>(
            ErrorView::BadRequest("Label is too long (max "@ + decimal(60) + " characters)."@),
        ),
        live >= 10 ==> quota is Err && quota->Err_0@ == ErrorView::BadRequest(
            "This server already has "@ + decimal(10) + " active API keys. Revoke one before creating another."@,
        ),
        gone is Err && gone->Err_0@ == ErrorView::NotFound("No such active API key for this server."@),
{
}

/// A visitor is told why a list is not shown, and a manager what a list can be.
pub proof fn law_visitors_are_told_why(
    permission: Seq<char>,
    is_member: bool,
    is_manager: bool,
    body: ViewPermBody,
    set: Result<String, AppError>,
)
    requires
        call_ensures(set_view_permission, (body,), set),
    ensures
        permission == "disabled"@ ==> viewing_refused(permission, is_member, is_manager) == Some(
            ErrorView::Forbidden("The user list is disabled for this server."@),
        ),
        permission != "disabled"@ && !is_member ==> viewing_refused(permission, is_member, is_manager) == Some(
            ErrorView::Forbidden("You're not a member of this server."@),
        ),
        permission == "managers"@ && permission != "disabled"@ && is_member && !is_manager ==> viewing_refused(
            permission,
            is_member,
            is_manager,
        ) == Some(ErrorView::Forbidden("This list is visible to server managers only."@)),
        set is Err ==> set->Err_0@ == ErrorView::BadRequest(
            "Unknown view_permission '"@ + body.view_permission@ + "' (expected disabled|managers|members)."@,
        ),
{
}

/// A caller of the API is told which parameter is wrong and what is expected, that a user is not there,
/// and what is the matter with the key.
pub proof fn law_callers_are_told_why(
    s: Seq<char>,
    found: KeyLookup,
    scope: Seq<char>,
    guild_id: &str,
    guild_name: Option<String>,
    none: Vec<UserRow>,
    single: Result<Json, AppError>,
)
    requires
        none@.len() == 0,
        call_ensures(single_body, (guild_id, &guild_name, &none), single),
    ensures
        since_given(Some(s), None) == Err::<Option<Timestamp>, ErrorView>(
            ErrorView::BadRequest(
                "`updated_since` must be an RFC 3339 timestamp (e.g. 2026-07-27T00:00:00Z); got `"@ + s + "`."@,
            ),
        ),
        relation_column(s) is None ==> filter_column(Some(s)) == Err::<Option<Seq<char>>, ErrorView>(
            ErrorView::BadRequest(
                "Unknown `relation` filter `"@ + s + "` (expected follower, subscriber, vip, og, or moderator)."@,
            ),
        ),
        single is Err && single->Err_0@ == ErrorView::NotFound("No linked user with that Discord ID in this server."@),
        presented(None) == Err::<Seq<u8>, ErrorView>(
            ErrorView::UnauthorizedWith(
                "Missing API key. Send `Authorization: Bearer kck_…` — mint one from the plugin's role settings in the RoleLogic dashboard."@,
            ),
        ),
        found.revoked_at is None && refusal(Some(found), Ok(()), scope) is Some ==> refusal(Some(found), Ok(()), scope)
            == Some(ErrorView::Forbidden("This API key does not carry the `"@ + scope + "` scope."@)),
        refusal(None, Ok(()), scope) == Some(ErrorView::UnauthorizedWith("Invalid or revoked API key."@)),
{
}

/// Whoever signs in is told what Kick did not send, that a sign-in is over or was another's, and that an
/// account is linked to someone else.
pub proof fn law_who_signs_in_is_told_why(
    code: Seq<char>,
    error: Seq<char>,
    description: Seq<char>,
    row: OauthState,
    name: Seq<char>,
)
    ensures
        callback_of(Flow::Viewer, None, None, None, None) == Err::<(Seq<char>, Seq<char>), ErrorView>(
            ErrorView::BadRequest("Missing `code` from Kick callback."@),
        ),
        callback_of(Flow::Broadcaster, Some(code), None, None, None) == Err::<(Seq<char>, Seq<char>), ErrorView>(
            ErrorView::BadRequest("Missing `state` from Kick callback."@),
        ),
        callback_of(Flow::Viewer, None, None, Some(error), Some(description)) == Err::<
            (Seq<char>, Seq<char>),
            ErrorView,
        >(ErrorView::BadRequest("Kick returned an error: "@ + error + " ("@ + description + ")"@)),
        callback_of(Flow::Broadcaster, None, None, Some(error), Some(description)) == Err::<
            (Seq<char>, Seq<char>),
            ErrorView,
        >(
            ErrorView::BadRequest(
                "Kick returned an error during authorization: "@ + error + " ("@ + description + ")"@,
            ),
        ),
        state_error(Flow::Viewer, None) == Some(
            ErrorView::BadRequest("OAuth state expired or unknown — start the link flow again."@),
        ),
        state_error(Flow::Broadcaster, None) == Some(
            ErrorView::BadRequest("OAuth state expired or unknown — start the connect flow again."@),
        ),
        row.flow@ != "viewer"@ ==> state_error(Flow::Viewer, Some(row)) == Some(
            ErrorView::BadRequest("OAuth state was issued for a different flow."@),
        ),
        row.flow@ != "broadcaster"@ ==> state_error(Flow::Broadcaster, Some(row)) == Some(
            ErrorView::BadRequest("OAuth state was issued for a different flow."@),
        ),
        row.flow@ == "broadcaster"@ && row.guild_id is None ==> state_error(Flow::Broadcaster, Some(row)) == Some(
            ErrorView::BadRequest("Broadcaster flow missing guild_id."@),
        ),
        already_linked(name) == ErrorView::Forbidden(
            "Kick account "@ + name
                + " is already linked to a different Discord account. Unlink there first, then try again."@,
        ),
{
}

/// A viewer is told that there is nothing to unlink, or that the service is not set up; a broadcaster,
/// that Kick gave no lasting token.
pub proof fn law_viewers_are_told_why(
    base_url: &str,
    gone: Result<i64, AppError>,
    begun: Result<LinkStart, AppError>,
    tokens: TokenResponse,
    token: Result<String, AppError>,
)
    requires
        call_ensures(unlinked, (None,), gone),
        call_ensures(start_link, (&None, base_url), begun),
        call_ensures(require_refresh_token, (&tokens,), token),
        tokens.refresh_token is None,
    ensures
        gone is Err && gone->Err_0@ == ErrorView::NotFound("No linked Kick account to unlink."@),
        begun is Err && begun->Err_0@ == ErrorView::Internal("KICK_CLIENT_ID is not configured on this server."@),
        token is Err && token->Err_0@ == ErrorView::KickApi(
            "Kick did not return a refresh_token — connect cannot persist."@,
        ),
{
}

/// A failure of Kick's is told by the call that failed and by how.
pub proof fn law_failures_of_kick_are_named(call: ApiCall, e: String, event: String, r: Result<String, AppError>)
    requires
        call_ensures(ApiCall::accept, (&call, Fetched::SendFailed(e)), r),
    ensures
        r is Err && r->Err_0@ == ErrorView::KickApi(call.label() + " request failed: "@ + e@),
        ApiCall::ExchangeCode.label() == "token exchange"@,
        ApiCall::RefreshToken.label() == "refresh"@,
        ApiCall::Users.label() == "users"@,
        ApiCall::Channels.label() == "channels"@,
        ApiCall::Subscribe(event).label() == "subscribe"@,
        ApiCall::PublicKey.label() == "public-key"@,
        ApiCall::ExchangeCode.refusal() == "token exchange failed"@,
        ApiCall::RefreshToken.refusal() == "refresh failed"@,
        ApiCall::Users.refusal() == "get_authenticated_user"@,
        ApiCall::Channels.refusal() == "get_channel_by_user"@,
        ApiCall::Subscribe(event).refusal() == "subscribe "@ + event@,
        ApiCall::PublicKey.refusal() == "fetch_public_key"@,
        call.unparsed(e@, event@) == ErrorView::KickApi(call.label() + " parse: "@ + e@ + " | body: "@ + event@),
{
}

/// An answer of Kick's that does not hold what was asked for is told by what it lacks.
pub proof fn law_answers_of_kick_are_told_by_what_they_lack(
    event_type: Seq<char>,
    body: Seq<char>,
    json: JsonView,
    list: Seq<JsonView>,
    e: Seq<char>,
)
    ensures
        subscribed(event_type, Err(e), body) == Err::<Seq<char>, ErrorView>(
            ErrorView::KickApi("subscribe parse: "@ + e + " | body: "@ + body),
        ),
        json.get("data"@) == Some(JsonView::Array(list)) && list.len() > 0 && e.len() > 0 && list[0].get("error"@)
            == Some(JsonView::Str(e)) ==> subscribed(event_type, Ok(json), body) == Err::<Seq<char>, ErrorView>(
            ErrorView::KickApi("subscribe "@ + event_type + " rejected: "@ + e),
        ),
        json.get("data"@) is None ==> subscribed(event_type, Ok(json), body) == Err::<Seq<char>, ErrorView>(
            ErrorView::KickApi("subscribe response missing subscription_id"@),
        ),
        pem_in(Err(e), body) == Err::<Seq<char>, ErrorView>(
            ErrorView::KickApi("public-key parse: "@ + e + " | body: "@ + body),
        ),
        json.get("data"@) is None ==> pem_in(Ok(json), body) == Err::<Seq<char>, ErrorView>(
            ErrorView::KickApi("public-key response missing data.public_key"@),
        ),
        token_text(event_type, Err(e)) == Err::<Seq<char>, ErrorView>(
            ErrorView::Internal("decrypt "@ + event_type + ": "@ + e),
        ),
{
}

/// A card that says nothing is told by why.
pub proof fn law_cards_that_say_nothing_are_told_by_why(body: JsonView, e: String)
    ensures
        outcome_given(Err(e@), None) == OutcomeView::Unavailable("non-JSON body: "@ + e@),
        !(card_of(body) is Object) ==> outcome_given(Ok(body), None) == OutcomeView::Unavailable(
            "body was not a JSON object"@,
        ),
        card_of(body) is Object && card_of(body).get("following_since"@) is None ==> outcome_given(Ok(body), None)
            == OutcomeView::Unavailable("card missing `following_since` field"@),
        response_outcome(CardResponse::Failed(e)) == OutcomeView::Unavailable("request failed: "@ + e@),
        response_outcome(CardResponse::Refused(e)) == OutcomeView::Unavailable("http "@ + e@),
        response_outcome(CardResponse::Unreadable(e)) == OutcomeView::Unavailable("body read failed: "@ + e@),
{
}

/// A delivery's identifier, timestamp, signature and event are in the headers of these names.
pub proof fn law_deliveries_have_these_headers()
    ensures
        H_MESSAGE_ID@ == "kick-event-message-id"@,
        H_TIMESTAMP@ == "kick-event-message-timestamp"@,
        H_SIGNATURE@ == "kick-event-signature"@,
        H_EVENT_TYPE@ == "kick-event-type"@,
{
}

/// A key that cannot be read, a record that is not there, a token that is no text and a name that cannot
/// be asked for are told as such.
pub proof fn law_what_cannot_be_read_is_told_as_such(
    body: &str,
    key: Result<SigningKey, AppError>,
    none: Vec<String>,
    call: ApiCall,
    record: Result<String, AppError>,
    bytes: Vec<u8>,
    access: Result<String, AppError>,
    refresh: Result<String, AppError>,
    probe: FollowProbe,
    slug: &str,
    username: &str,
    asked: Result<String, ProbeOutcome>,
)
    requires
        call_ensures(parse_public_key, (body,), key),
        call_ensures(ApiCall::first::<String>, (&call, none), record),
        none@.len() == 0,
        call_ensures(access_token, (Ok(bytes),), access),
        call_ensures(refresh_token, (Ok(bytes),), refresh),
        !valid_utf8(bytes@),
        call_ensures(FollowProbe::request, (&probe, slug, username), asked),
    ensures
        pem_in(json_text(body@), body@) matches Ok(pem) ==> pem_key(pem) matches Err(e) ==> key is Err && key->Err_0@
            == ErrorView::KickApi("public-key PEM parse: "@ + e),
        pem_in(json_text(body@), body@) matches Ok(pem) ==> pem_key(pem) matches Ok(k) ==> key is Ok && (
            key->Ok_0.modulus@,
            key->Ok_0.exponent@,
        ) == k,
        record is Err && record->Err_0@ == ErrorView::KickApi(call.label() + " response had no data"@),
        access is Err && access->Err_0@ == ErrorView::Internal("access token"@ + " not UTF-8"@),
        refresh is Err && refresh->Err_0@ == ErrorView::Internal("refresh token"@ + " not UTF-8"@),
        asked is Err ==> asked->Err_0@ == OutcomeView::Unavailable("slug/username not URL-safe"@),
{
}

} // verus!
