//! What is sent to Kick, field by field, and what its answers and deliveries come to.

use vstd::prelude::*;
use vstd::string::*;
use vstd::utf8::*;

use crate::crypto::{base64_bytes, base64url, sha256};
use crate::error::{AppError, ErrorView};
use crate::json::{Json, JsonView};
use crate::services::kick::{
    accepted, build_authorize, challenge, channels_url, code_verifier_from, first_entry, is_fresh, new_code_verifier,
    pem_in, pkce_s256, public_key_url, rsa_verified, signed_bytes, subscribe_body, subscribed, subscriptions_url,
    users_url, ApiCall, Fetched, KickClient, SigningKey,
};
use crate::text::{contains_text, occurs_at, signed_decimal, trimmed};
use crate::time::{elapsed_nanos, rfc3339, Timestamp};
use crate::url::{fields, form};

verus! {

/// The challenge of a verifier is the digest of its bytes, in base64 for addresses.
pub proof fn law_a_challenge_is_the_verifiers_digest(verifier: Seq<char>)
    ensures
        challenge(verifier) == base64url(sha256(encode_utf8(verifier))),
{
}

/// A user is sent to Kick's page with what it asks for, each under its name: this client, where to
/// come back to, what is to be allowed, the state, and the challenge of the verifier, never the
/// verifier itself.
pub proof fn law_a_user_is_sent_with_the_challenge(
    client_id: &str,
    redirect_uri: &str,
    scope: &str,
    state: &str,
    code_verifier: &str,
    r: String,
)
    requires
        call_ensures(build_authorize, (client_id, redirect_uri, scope, state, code_verifier), r),
    ensures
        r@ == "https://id.kick.com/oauth/authorize"@ + "?"@ + form(
            seq![
                ("client_id"@, client_id@),
                ("redirect_uri"@, redirect_uri@),
                ("response_type"@, "code"@),
                ("scope"@, scope@),
                ("state"@, state@),
                ("code_challenge"@, base64url(sha256(encode_utf8(code_verifier@)))),
                ("code_challenge_method"@, "S256"@),
            ],
        ),
{
}

/// A client that was made with credentials names them as they were given, sends a user to sign in
/// as itself, and exchanges a code and refreshes a token with them, each under its name.
pub proof fn law_tokens_are_asked_for_by_name(
    id: String,
    secret: String,
    client: KickClient,
    code: &str,
    redirect_uri: &str,
    code_verifier: &str,
    refresh_token: &str,
    exchange: Vec<(String, String)>,
    refresh: Vec<(String, String)>,
)
    requires
        call_ensures(KickClient::new, (id, secret), client),
        call_ensures(KickClient::exchange_form, (&client, code, redirect_uri, code_verifier), exchange),
        call_ensures(KickClient::refresh_form, (&client, refresh_token), refresh),
    ensures
        client.id() == id@,
        client.secret() == secret@,
        fields(exchange@) == seq![
            ("grant_type"@, "authorization_code"@),
            ("client_id"@, id@),
            ("client_secret"@, secret@),
            ("redirect_uri"@, redirect_uri@),
            ("code"@, code@),
            ("code_verifier"@, code_verifier@),
        ],
        fields(refresh@) == seq![
            ("grant_type"@, "refresh_token"@),
            ("client_id"@, id@),
            ("client_secret"@, secret@),
            ("refresh_token"@, refresh_token@),
        ],
{
}

/// A client names itself, and sends a user to sign in as itself.
pub proof fn law_a_client_speaks_for_itself(
    client: KickClient,
    name: &str,
    redirect_uri: &str,
    scope: &str,
    state: &str,
    code_verifier: &str,
    own: String,
    id: &str,
    built: String,
)
    requires
        call_ensures(KickClient::client_id, (&client,), name),
        call_ensures(KickClient::authorize_url, (&client, redirect_uri, scope, state, code_verifier), own),
        call_ensures(build_authorize, (id, redirect_uri, scope, state, code_verifier), built),
        id@ == name@,
    ensures
        name@ == client.id(),
        own@ == built@,
{
}

/// The addresses of what is asked of Kick.
pub proof fn law_kick_is_asked_at_its_addresses(
    user_id: i64,
    users: String,
    channels: String,
    subscriptions: String,
    key: String,
)
    requires
        call_ensures(users_url, (), users),
        call_ensures(channels_url, (user_id,), channels),
        call_ensures(subscriptions_url, (), subscriptions),
        call_ensures(public_key_url, (), key),
    ensures
        users@ == "https://api.kick.com/public/v1"@ + "/users"@,
        channels@ == "https://api.kick.com/public/v1"@ + "/channels?broadcaster_user_id="@ + signed_decimal(
            user_id as int,
        ),
        subscriptions@ == "https://api.kick.com/public/v1"@ + "/events/subscriptions"@,
        key@ == "https://api.kick.com/public/v1"@ + "/public-key"@,
{
}

/// A subscription asks to be told of one event on one channel, by a webhook.
pub proof fn law_a_subscription_is_to_one_event(event_type: &str, channel: i64, r: Json)
    requires
        call_ensures(subscribe_body, (event_type, channel), r),
    ensures
        r@ is Object,
        r@->Object_0.len() == 3,
        r@->Object_0[0] == ("broadcaster_user_id"@, JsonView::Int(channel)),
        r@->Object_0[1].0 == "events"@,
        r@->Object_0[1].1->Array_0.len() == 1,
        r@->Object_0[1].1->Array_0[0]->Object_0 == seq![
            ("name"@, JsonView::Str(event_type@)),
            ("version"@, JsonView::Int(1)),
        ],
        r@->Object_0[2] == ("method"@, JsonView::Str("webhook"@)),
{
}

/// An answer is taken where its status is one of success, and then for its body; what could not be
/// sent, could not be read or was refused is a failure of Kick's, with what was said of it.
pub proof fn law_successes_are_taken_for_their_bodies(call: ApiCall, fetched: Fetched, r: Result<String, AppError>)
    requires
        call_ensures(ApiCall::accept, (&call, fetched), r),
    ensures
        r is Ok <==> (fetched matches Fetched::Answer { code, .. } && 200 <= code < 300),
        r is Ok ==> (fetched matches Fetched::Answer { body, .. } && r->Ok_0@ == body@),
        r is Err ==> r->Err_0 is KickApi,
        fetched matches Fetched::SendFailed(e) ==> contains_text(r->Err_0@->KickApi_0, e@),
        fetched matches Fetched::BodyFailed(e) ==> contains_text(r->Err_0@->KickApi_0, e@),
        fetched matches Fetched::Answer { status, body, .. } ==> r is Err ==> contains_text(
            r->Err_0@->KickApi_0,
            status@,
        ) && contains_text(r->Err_0@->KickApi_0, body@),
{
    match fetched {
        Fetched::SendFailed(e) => {
            let front = call.label() + " request failed: "@;
            assert(occurs_at(r->Err_0@->KickApi_0, e@, front.len() as int)) by {
                assert(r->Err_0@->KickApi_0.subrange(front.len() as int, (front.len() + e@.len()) as int) =~= e@);
            }
        },
        Fetched::BodyFailed(e) => {
            let front = call.label() + " body: "@;
            assert(occurs_at(r->Err_0@->KickApi_0, e@, front.len() as int)) by {
                assert(r->Err_0@->KickApi_0.subrange(front.len() as int, (front.len() + e@.len()) as int) =~= e@);
            }
        },
        Fetched::Answer { code, status, body } => {
            if r is Err {
                let front = call.refusal() + ": "@;
                let middle = front + status@ + " - "@;
                assert(occurs_at(r->Err_0@->KickApi_0, status@, front.len() as int)) by {
                    assert(r->Err_0@->KickApi_0.subrange(
                        front.len() as int,
                        (front.len() + status@.len()) as int,
                    ) =~= status@);
                }
                assert(occurs_at(r->Err_0@->KickApi_0, body@, middle.len() as int)) by {
                    assert(r->Err_0@->KickApi_0.subrange(
                        middle.len() as int,
                        (middle.len() + body@.len()) as int,
                    ) =~= body@);
                }
            }
        },
    }
}

/// Of the records in an answer the first is taken; where there is none, that is a failure of Kick's.
pub proof fn law_the_first_record_is_taken(call: ApiCall, data: Vec<String>, r: Result<String, AppError>)
    requires
        call_ensures(ApiCall::first::<String>, (&call, data), r),
    ensures
        r is Ok <==> data@.len() > 0,
        r is Ok ==> r->Ok_0 == data@[0],
        r is Err ==> r->Err_0 is KickApi,
{
}

/// A subscription was made where the first record under `data` has a `subscription_id` and no
/// message under `error`, and then it is that; else it failed.
pub proof fn law_a_subscription_is_read_from_its_record(
    event_type: Seq<char>,
    json: JsonView,
    body: Seq<char>,
    list: Seq<JsonView>,
    e: Seq<char>,
    id: Seq<char>,
)
    requires
        json.get("data"@) == Some(JsonView::Array(list)),
        list.len() > 0,
    ensures
        list[0].get("error"@) == Some(JsonView::Str(e)) && e.len() > 0 ==> subscribed(event_type, Ok(json), body) is Err,
        !(list[0].get("error"@) matches Some(JsonView::Str(m)) && m.len() > 0) && list[0].get("subscription_id"@) == Some(
            JsonView::Str(id),
        ) ==> subscribed(event_type, Ok(json), body) == Ok::<Seq<char>, ErrorView>(id),
        !(list[0].get("subscription_id"@) matches Some(JsonView::Str(_))) ==> subscribed(event_type, Ok(json), body)
            is Err,
        subscribed(event_type, Err(e), body) is Err,
        subscribed(event_type, Ok(json), body) is Err ==> subscribed(event_type, Ok(json), body)->Err_0 is KickApi,
        first_entry(json) == list[0],
{
}

/// The key is read from `public_key` under `data`, and from nowhere else.
pub proof fn law_the_key_is_read_from_its_member(json: JsonView, body: Seq<char>, data: JsonView, pem: Seq<char>)
    ensures
        json.get("data"@) == Some(data) && data.get("public_key"@) == Some(JsonView::Str(pem)) ==> pem_in(
            Ok(json),
            body,
        ) == Ok::<Seq<char>, ErrorView>(pem),
        json.get("data"@) == Some(data) && !(data.get("public_key"@) matches Some(JsonView::Str(_))) ==> pem_in(
            Ok(json),
            body,
        ) is Err,
        json.get("data"@) is None ==> pem_in(Ok(json), body) is Err,
        pem_in(Err(pem), body) is Err,
{
}

/// What is signed is the delivery's identifier, its timestamp and its body, in this order, with a
/// full stop behind each of the first two.
pub proof fn law_identifier_timestamp_and_body_are_signed(message_id: Seq<char>, timestamp: Seq<char>, body: Seq<u8>)
    ensures
        ({
            let first: int = encode_utf8(message_id).len() as int;
            let second: int = first + 1 + encode_utf8(timestamp).len();
            let signed = signed_bytes(message_id, timestamp, body);
            &&& signed.len() == second + 1 + body.len()
            &&& signed.take(first) == encode_utf8(message_id)
            &&& signed[first] == 46
            &&& signed.subrange(first + 1, second) == encode_utf8(timestamp)
            &&& signed[second] == 46
            &&& signed.skip(second + 1) == body
        }),
{
    let first: int = encode_utf8(message_id).len() as int;
    let second: int = first + 1 + encode_utf8(timestamp).len();
    let signed = signed_bytes(message_id, timestamp, body);
    assert(signed.take(first) =~= encode_utf8(message_id));
    assert(signed.subrange(first + 1, second) =~= encode_utf8(timestamp));
    assert(signed.skip(second + 1) =~= body);
}

/// A delivery is accepted where it lies within ten minutes of the clock and the signature in its
/// header is the key's over the digest of what is signed; else it is not.
pub proof fn law_a_delivery_is_accepted_by_its_signature(
    key: SigningKey,
    message_id: Seq<char>,
    timestamp: Seq<char>,
    body: Seq<u8>,
    header: Seq<char>,
    now: Timestamp,
)
    ensures
        ({
            let sent = rfc3339(timestamp);
            let signature = base64_bytes(trimmed(header));
            let minutes = 10 * 60 * 1_000_000_000;
            &&& is_fresh(sent, now) == (sent is Some && -minutes <= elapsed_nanos(now, sent->0) <= minutes)
            &&& accepted(key, message_id, timestamp, body, header, now) == (is_fresh(sent, now) && signature is Some
                && rsa_verified(
                key.modulus@,
                key.exponent@,
                sha256(signed_bytes(message_id, timestamp, body)),
                signature->0,
            ))
        }),
{
}

/// A verifier is the base64 of its bytes, and a new one that of seventy-two; its challenge is its digest.
pub proof fn law_a_verifier_is_made_of_bytes(
    bytes: Vec<u8>,
    verifier: String,
    fresh: String,
    given: &str,
    answer: String,
)
    requires
        call_ensures(code_verifier_from, (&bytes,), verifier),
        call_ensures(new_code_verifier, (), fresh),
        call_ensures(pkce_s256, (given,), answer),
    ensures
        verifier@ == base64url(bytes@),
        fresh@.len() == 96,
        exists|b: Seq<u8>| b.len() == 72 && fresh@ == #[trigger] base64url(b),
        answer@ == base64url(sha256(encode_utf8(given@))),
        answer@.len() == 43,
{
}

} // verus!
