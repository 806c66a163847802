//! Kick's API: signing in with PKCE, reading users and channels, subscribing to events, and
//! telling Kick's deliveries from forgeries.

use rsa::pkcs8::DecodePublicKey;
use rsa::traits::PublicKeyParts;
use vstd::prelude::*;
use vstd::string::*;
use vstd::utf8::*;

use crate::crypto::{
    base64_bytes, base64url, decode_base64, digest, encode_base64url, is_url_safe, law_base64url_is_url_safe,
    law_base64url_length, random_bytes, sha256,
};
use crate::error::{AppError, ErrorView};
use crate::json::{array_view, json_text, jsons, object_view, parse_text, reading, Json, JsonView};
use crate::text::{push_bytes, push_signed_decimal, push_text, signed_decimal, trim, trimmed};
use crate::time::{elapsed_nanos, nanos_between, now, parse_rfc3339, rfc3339, Timestamp};
use crate::url::{encode_form, fields, form};

verus! {

/// Where a user signs in.
pub const AUTHORIZE_URL: &'static str = "https://id.kick.com/oauth/authorize";

/// Where tokens are had.
pub const TOKEN_URL: &'static str = "https://id.kick.com/oauth/token";

/// The API.
pub const API_BASE: &'static str = "https://api.kick.com/public/v1";

/// How many bytes of chance make a code verifier.
pub const VERIFIER_BYTES: usize = 72;

/// How many nanoseconds a delivery's timestamp may lie from the clock: ten minutes.
pub const MAX_AGE_NANOS: i128 = 600_000_000_000;

/// A Kick account.
#[derive(Debug)]
pub struct KickUser {
    /// The account's number, which never changes.
    pub user_id: i64,
    pub name: String,
    pub email: Option<String>,
    pub profile_picture: Option<String>,
}

/// A channel.
#[derive(Debug)]
pub struct KickChannel {
    pub broadcaster_user_id: i64,
    pub slug: String,
    pub stream_title: Option<String>,
    pub category: Option<KickCategory>,
    pub stream: Option<KickStream>,
}

/// What a channel streams.
#[derive(Debug, Clone)]
pub struct KickCategory {
    pub id: Option<i64>,
    pub name: Option<String>,
}

/// A channel's stream.
#[derive(Debug, Clone)]
pub struct KickStream {
    pub is_live: bool,
    pub viewer_count: i64,
    pub start_time: Option<String>,
}

/// The tokens that Kick gives out.
#[derive(Debug)]
pub struct TokenResponse {
    pub access_token: String,
    pub refresh_token: Option<String>,
    pub expires_in: i64,
    pub scope: Option<String>,
    pub token_type: Option<String>,
}

/// The credentials of this service with Kick.
#[derive(Clone)]
pub struct KickClient {
    client_id: String,
    client_secret: String,
}

/// A field of a form.
fn field(name: &str, value: &str) -> (r: (String, String))
    ensures
        (r.0@, r.1@) == (name@, value@),
{
    (name.to_owned(), value.to_owned())
}

/// The S256 challenge of a verifier.
pub open spec fn challenge(verifier: Seq<char>) -> Seq<char> {
    base64url(sha256(encode_utf8(verifier)))
}

/// The S256 challenge of a verifier: the digest of its bytes, in URL-safe base64. It has 43
/// characters.
pub fn pkce_s256(verifier: &str) -> (r: String)
    ensures
        r@ == challenge(verifier@),
        r@.len() == 43,
{
    let d = digest(verifier.as_bytes());
    proof {
        law_base64url_length(d@);
    }
    encode_base64url(d.as_slice())
}

/// The code verifier that the bytes make.
pub fn code_verifier_from(bytes: &Vec<u8>) -> (r: String)
    ensures
        r@ == base64url(bytes@),
{
    encode_base64url(bytes.as_slice())
}

/// A new code verifier: 96 characters that can stand in a URL as they are.
pub fn new_code_verifier() -> (r: String)
    ensures
        exists|bytes: Seq<u8>| bytes.len() == VERIFIER_BYTES && r@ == #[trigger] base64url(bytes),
        r@.len() == 96,
        forall|i: int| 0 <= i < r@.len() ==> is_url_safe(#[trigger] r@[i]),
{
    let bytes = random_bytes(VERIFIER_BYTES);
    proof {
        law_base64url_length(bytes@);
        law_base64url_is_url_safe(bytes@);
    }
    code_verifier_from(&bytes)
}

/// The fields with which a user is sent to sign in.
pub open spec fn authorize_fields(
    client_id: Seq<char>,
    redirect_uri: Seq<char>,
    scope: Seq<char>,
    state: Seq<char>,
    code_verifier: Seq<char>,
) -> Seq<(Seq<char>, Seq<char>)> {
    seq![
        ("client_id"@, client_id),
        ("redirect_uri"@, redirect_uri),
        ("response_type"@, "code"@),
        ("scope"@, scope),
        ("state"@, state),
        ("code_challenge"@, challenge(code_verifier)),
        ("code_challenge_method"@, "S256"@),
    ]
}

/// The fields with which a code is exchanged for tokens.
pub open spec fn exchange_fields(
    client_id: Seq<char>,
    client_secret: Seq<char>,
    redirect_uri: Seq<char>,
    code: Seq<char>,
    code_verifier: Seq<char>,
) -> Seq<(Seq<char>, Seq<char>)> {
    seq![
        ("grant_type"@, "authorization_code"@),
        ("client_id"@, client_id),
        ("client_secret"@, client_secret),
        ("redirect_uri"@, redirect_uri),
        ("code"@, code),
        ("code_verifier"@, code_verifier),
    ]
}

/// The fields with which a token is refreshed.
pub open spec fn refresh_fields(
    client_id: Seq<char>,
    client_secret: Seq<char>,
    refresh_token: Seq<char>,
) -> Seq<(Seq<char>, Seq<char>)> {
    seq![
        ("grant_type"@, "refresh_token"@),
        ("client_id"@, client_id),
        ("client_secret"@, client_secret),
        ("refresh_token"@, refresh_token),
    ]
}

/// The address to which a user is sent to sign in, on behalf of the client with this identifier.
pub fn build_authorize(client_id: &str, redirect_uri: &str, scope: &str, state: &str, code_verifier: &str) -> (r: String)
    ensures
        r@ == AUTHORIZE_URL@ + "?"@ + form(
            authorize_fields(client_id@, redirect_uri@, scope@, state@, code_verifier@),
        ),
{
    let challenge = pkce_s256(code_verifier);
    let pairs = vec![
        field("client_id", client_id),
        field("redirect_uri", redirect_uri),
        field("response_type", "code"),
        field("scope", scope),
        field("state", state),
        field("code_challenge", challenge.as_str()),
        field("code_challenge_method", "S256"),
    ];
    assert(fields(pairs@) =~= authorize_fields(client_id@, redirect_uri@, scope@, state@, code_verifier@));
    let query = encode_form(&pairs);
    AUTHORIZE_URL.to_owned().concat("?").concat(query.as_str())
}

impl KickClient {
    /// The identifier of this service with Kick.
    pub closed spec fn id(&self) -> Seq<char> {
        self.client_id@
    }

    /// The secret of this service with Kick.
    pub closed spec fn secret(&self) -> Seq<char> {
        self.client_secret@
    }

    /// The client with these credentials.
    pub fn new(client_id: String, client_secret: String) -> (r: Self)
        ensures
            r.id() == client_id@,
            r.secret() == client_secret@,
    {
        KickClient { client_id, client_secret }
    }

    /// The identifier of this service with Kick.
    pub fn client_id(&self) -> (r: &str)
        ensures
            r@ == self.id(),
    {
        self.client_id.as_str()
    }

    /// The address to which a user is sent to sign in.
    pub fn authorize_url(&self, redirect_uri: &str, scope: &str, state: &str, code_verifier: &str) -> (r: String)
        ensures
            r@ == AUTHORIZE_URL@ + "?"@ + form(
                authorize_fields(self.id(), redirect_uri@, scope@, state@, code_verifier@),
            ),
    {
        build_authorize(self.client_id.as_str(), redirect_uri, scope, state, code_verifier)
    }

    /// The form that exchanges a code for tokens.
    pub fn exchange_form(&self, code: &str, redirect_uri: &str, code_verifier: &str) -> (r: Vec<(String, String)>)
        ensures
            fields(r@) == exchange_fields(self.id(), self.secret(), redirect_uri@, code@, code_verifier@),
    {
        let pairs = vec![
            field("grant_type", "authorization_code"),
            field("client_id", self.client_id.as_str()),
            field("client_secret", self.client_secret.as_str()),
            field("redirect_uri", redirect_uri),
            field("code", code),
            field("code_verifier", code_verifier),
        ];
        assert(fields(pairs@) =~= exchange_fields(
            self.id(),
            self.secret(),
            redirect_uri@,
            code@,
            code_verifier@,
        ));
        pairs
    }

    /// The form that refreshes a token.
    pub fn refresh_form(&self, refresh_token: &str) -> (r: Vec<(String, String)>)
        ensures
            fields(r@) == refresh_fields(self.id(), self.secret(), refresh_token@),
    {
        let pairs = vec![
            field("grant_type", "refresh_token"),
            field("client_id", self.client_id.as_str()),
            field("client_secret", self.client_secret.as_str()),
            field("refresh_token", refresh_token),
        ];
        assert(fields(pairs@) =~= refresh_fields(self.id(), self.secret(), refresh_token@));
        pairs
    }
}

/// The address of the caller's own record.
pub fn users_url() -> (r: String)
    ensures
        r@ == API_BASE@ + "/users"@,
{
    API_BASE.to_owned().concat("/users")
}

/// The address of a broadcaster's channel.
pub fn channels_url(broadcaster_user_id: i64) -> (r: String)
    ensures
        r@ == API_BASE@ + "/channels?broadcaster_user_id="@ + signed_decimal(broadcaster_user_id as int),
{
    let mut r = API_BASE.to_owned().concat("/channels?broadcaster_user_id=");
    push_signed_decimal(&mut r, broadcaster_user_id);
    r
}

/// The address of the event subscriptions.
pub fn subscriptions_url() -> (r: String)
    ensures
        r@ == API_BASE@ + "/events/subscriptions"@,
{
    API_BASE.to_owned().concat("/events/subscriptions")
}

/// The address of the key with which Kick signs its deliveries.
pub fn public_key_url() -> (r: String)
    ensures
        r@ == API_BASE@ + "/public-key"@,
{
    API_BASE.to_owned().concat("/public-key")
}

/// The request to be told of an event on a channel.
pub open spec fn subscription_request(event_type: Seq<char>, broadcaster_user_id: i64) -> JsonView {
    object_view().with("broadcaster_user_id"@, JsonView::Int(broadcaster_user_id)).with(
        "events"@,
        array_view().and(
            object_view().with("name"@, JsonView::Str(event_type)).with("version"@, JsonView::Int(1)),
        ),
    ).with("method"@, JsonView::Str("webhook"@))
}

/// The request to be told of an event on a channel.
pub fn subscribe_body(event_type: &str, broadcaster_user_id: i64) -> (r: Json)
    ensures
        r@ == subscription_request(event_type@, broadcaster_user_id),
{
    let event = Json::object().with("name", Json::text(event_type)).with("version", Json::Int(1));
    Json::object().with("broadcaster_user_id", Json::Int(broadcaster_user_id)).with(
        "events",
        Json::list().and(event),
    ).with("method", Json::text("webhook"))
}

/// A call of the API.
#[derive(Debug, Clone)]
pub enum ApiCall {
    ExchangeCode,
    RefreshToken,
    Users,
    Channels,
    /// A subscription to the named event.
    Subscribe(String),
    PublicKey,
}

/// What came back from a call.
#[derive(Debug)]
pub enum Fetched {
    /// The request could not be sent, and why.
    SendFailed(String),
    /// The answer's body could not be read, and why.
    BodyFailed(String),
    /// An answer: its status as a number and as text, and its body.
    Answer { code: u16, status: String, body: String },
}

impl ApiCall {
    /// What messages call this call by.
    pub open spec fn label(self) -> Seq<char> {
        match self {
            ApiCall::ExchangeCode => "token exchange"@,
            ApiCall::RefreshToken => "refresh"@,
            ApiCall::Users => "users"@,
            ApiCall::Channels => "channels"@,
            ApiCall::Subscribe(_) => "subscribe"@,
            ApiCall::PublicKey => "public-key"@,
        }
    }

    /// How the message begins that a refusal is answered with.
    pub open spec fn refusal(self) -> Seq<char> {
        match self {
            ApiCall::ExchangeCode => "token exchange failed"@,
            ApiCall::RefreshToken => "refresh failed"@,
            ApiCall::Users => "get_authenticated_user"@,
            ApiCall::Channels => "get_channel_by_user"@,
            ApiCall::Subscribe(event) => "subscribe "@ + event@,
            ApiCall::PublicKey => "fetch_public_key"@,
        }
    }

    /// What messages call this call by.
    fn name(&self) -> (r: &'static str)
        ensures
            r@ == self.label(),
    {
        match self {
            ApiCall::ExchangeCode => "token exchange",
            ApiCall::RefreshToken => "refresh",
            ApiCall::Users => "users",
            ApiCall::Channels => "channels",
            ApiCall::Subscribe(_) => "subscribe",
            ApiCall::PublicKey => "public-key",
        }
    }

    /// How the message begins that a refusal is answered with.
    fn refused(&self) -> (r: String)
        ensures
            r@ == self.refusal(),
    {
        match self {
            ApiCall::ExchangeCode => "token exchange failed".to_owned(),
            ApiCall::RefreshToken => "refresh failed".to_owned(),
            ApiCall::Users => "get_authenticated_user".to_owned(),
            ApiCall::Channels => "get_channel_by_user".to_owned(),
            ApiCall::Subscribe(event) => "subscribe ".to_owned().concat(event.as_str()),
            ApiCall::PublicKey => "fetch_public_key".to_owned(),
        }
    }

    /// The body of an answer that was a success, or the failure.
    pub fn accept(&self, fetched: Fetched) -> (r: Result<String, AppError>)
        ensures
            match fetched {
                Fetched::SendFailed(e) => r is Err && r->Err_0@ == ErrorView::KickApi(
                    self.label() + " request failed: "@ + e@,
                ),
                Fetched::BodyFailed(e) => r is Err && r->Err_0@ == ErrorView::KickApi(
                    self.label() + " body: "@ + e@,
                ),
                Fetched::Answer { code, status, body } => if 200 <= code < 300 {
                    r is Ok && r->Ok_0@ == body@
                } else {
                    r is Err && r->Err_0@ == ErrorView::KickApi(
                        self.refusal() + ": "@ + status@ + " - "@ + body@,
                    )
                },
            },
    {
        match fetched {
            Fetched::SendFailed(e) => Err(
                AppError::KickApi(self.name().to_owned().concat(" request failed: ").concat(e.as_str())),
            ),
            Fetched::BodyFailed(e) => Err(
                AppError::KickApi(self.name().to_owned().concat(" body: ").concat(e.as_str())),
            ),
            Fetched::Answer { code, status, body } => {
                if 200 <= code && code < 300 {
                    Ok(body)
                } else {
                    Err(
                        AppError::KickApi(
                            self.refused().concat(": ").concat(status.as_str()).concat(" - ").concat(
                                body.as_str(),
                            ),
                        ),
                    )
                }
            },
        }
    }

    /// The failure to read a body, for the reason `e`.
    pub open spec fn unparsed(self, e: Seq<char>, body: Seq<char>) -> ErrorView {
        ErrorView::KickApi(self.label() + " parse: "@ + e + " | body: "@ + body)
    }

    /// The failure to read a body.
    pub fn parse_error(&self, e: &str, body: &str) -> (r: AppError)
        ensures
            r@ == self.unparsed(e@, body@),
    {
        AppError::KickApi(self.name().to_owned().concat(" parse: ").concat(e).concat(" | body: ").concat(body))
    }

    /// The first of the records in an answer, or the failure where there is none.
    pub fn first<T>(&self, data: Vec<T>) -> (r: Result<T, AppError>)
        ensures
            if data.len() > 0 {
                r is Ok && r->Ok_0 == data@[0]
            } else {
                r is Err && r->Err_0@ == ErrorView::KickApi(self.label() + " response had no data"@)
            },
    {
        let mut data = data;
        if data.len() == 0 {
            return Err(AppError::KickApi(self.name().to_owned().concat(" response had no data")));
        }
        Ok(data.remove(0))
    }
}

/// The first element of the member `data`, null where there is none.
pub open spec fn first_entry(json: JsonView) -> JsonView {
    match json.array_at("data"@) {
        Some(a) => if a.len() > 0 {
            a[0]
        } else {
            JsonView::Null
        },
        None => JsonView::Null,
    }
}

/// What an answer to a subscription says: its identifier, or the failure. A refused event comes
/// back as a success with a message in `error`.
pub open spec fn subscribed(
    event_type: Seq<char>,
    parsed: Result<JsonView, Seq<char>>,
    body: Seq<char>,
) -> Result<Seq<char>, ErrorView> {
    match parsed {
        Err(e) => Err(ErrorView::KickApi("subscribe parse: "@ + e + " | body: "@ + body)),
        Ok(json) => {
            let entry = first_entry(json);
            match entry.str_at("error"@) {
                Some(error) if error.len() > 0 => Err(
                    ErrorView::KickApi("subscribe "@ + event_type + " rejected: "@ + error),
                ),
                _ => match entry.str_at("subscription_id"@) {
                    Some(id) => Ok(id),
                    None => Err(ErrorView::KickApi("subscribe response missing subscription_id"@)),
                },
            }
        },
    }
}

/// What a result is.
pub open spec fn told(r: Result<String, AppError>) -> Result<Seq<char>, ErrorView> {
    match r {
        Ok(s) => Ok(s@),
        Err(e) => Err(e@),
    }
}

/// What an answer to a subscription, read as JSON, says.
pub fn read_subscription(event_type: &str, parsed: Result<Json, String>, body: &str) -> (r: Result<String, AppError>)
    ensures
        told(r) == subscribed(event_type@, reading(parsed), body@),
{
    let json = match parsed {
        Ok(json) => json,
        Err(e) => return Err(
            AppError::KickApi("subscribe parse: ".to_owned().concat(e.as_str()).concat(" | body: ").concat(body)),
        ),
    };
    let nothing = Json::Null;
    let entry = match json.array_at("data") {
        Some(a) => if a.len() > 0 {
            assert(jsons(a@)[0] == a@[0]@);
            &a[0]
        } else {
            &nothing
        },
        None => &nothing,
    };
    assert(entry@ == first_entry(json@));
    if let Some(error) = entry.str_at("error") {
        if error.unicode_len() > 0 {
            return Err(
                AppError::KickApi(
                    "subscribe ".to_owned().concat(event_type).concat(" rejected: ").concat(error),
                ),
            );
        }
    }
    match entry.str_at("subscription_id") {
        Some(id) => Ok(id.to_owned()),
        None => Err(AppError::KickApi("subscribe response missing subscription_id".to_owned())),
    }
}

/// What the answer to a subscription says.
pub fn parse_subscription(event_type: &str, body: &str) -> (r: Result<String, AppError>)
    ensures
        told(r) == subscribed(event_type@, json_text(body@), body@),
{
    read_subscription(event_type, parse_text(body), body)
}

/// The key with which Kick signs its deliveries: modulus and exponent, the highest byte first.
#[derive(Debug, Clone)]
pub struct SigningKey {
    pub modulus: Vec<u8>,
    pub exponent: Vec<u8>,
}

/// The modulus and the exponent of the key that a PEM text holds, or why it holds none.
pub uninterp spec fn pem_key(pem: Seq<char>) -> Result<(Seq<u8>, Seq<u8>), Seq<char>>;

/// What reading a key gave.
pub open spec fn key_parts(r: Result<SigningKey, String>) -> Result<(Seq<u8>, Seq<u8>), Seq<char>> {
    match r {
        Ok(k) => Ok((k.modulus@, k.exponent@)),
        Err(e) => Err(e@),
    }
}

/// `rsa`'s `DecodePublicKey::from_public_key_pem`: the key that the text holds, or the message of
/// the error.
#[verifier::external_body]
fn read_pem(pem: &str) -> (r: Result<SigningKey, String>)
    ensures
        key_parts(r) == pem_key(pem@),
{
    match rsa::RsaPublicKey::from_public_key_pem(pem) {
        Ok(k) => Ok(SigningKey { modulus: k.n().to_bytes_be(), exponent: k.e().to_bytes_be() }),
        Err(e) => Err(e.to_string()),
    }
}

/// Whether a signature of a SHA-256 digest is one of the key with this modulus and exponent.
pub uninterp spec fn rsa_verified(
    modulus: Seq<u8>,
    exponent: Seq<u8>,
    hashed: Seq<u8>,
    signature: Seq<u8>,
) -> bool;

/// `rsa::RsaPublicKey::verify` by PKCS #1 v1.5 with SHA-256. Where the numbers make no key, nothing
/// verifies.
#[verifier::external_body]
fn verify(key: &SigningKey, hashed: &[u8], signature: &[u8]) -> (r: bool)
    ensures
        r == rsa_verified(key.modulus@, key.exponent@, hashed@, signature@),
{
    let n = rsa::BigUint::from_bytes_be(key.modulus.as_slice());
    let e = rsa::BigUint::from_bytes_be(key.exponent.as_slice());
    match rsa::RsaPublicKey::new(n, e) {
        Ok(k) => k.verify(rsa::Pkcs1v15Sign::new::<sha2::Sha256>(), hashed, signature).is_ok(),
        Err(_) => false,
    }
}

/// The PEM text in an answer, or the failure.
pub open spec fn pem_in(parsed: Result<JsonView, Seq<char>>, body: Seq<char>) -> Result<Seq<char>, ErrorView> {
    match parsed {
        Err(e) => Err(ErrorView::KickApi("public-key parse: "@ + e + " | body: "@ + body)),
        Ok(json) => match json.get("data"@) {
            Some(data) => match data.str_at("public_key"@) {
                Some(pem) => Ok(pem),
                None => Err(ErrorView::KickApi("public-key response missing data.public_key"@)),
            },
            None => Err(ErrorView::KickApi("public-key response missing data.public_key"@)),
        },
    }
}

/// The PEM text in an answer, read as JSON.
pub fn read_public_key(parsed: Result<Json, String>, body: &str) -> (r: Result<String, AppError>)
    ensures
        told(r) == pem_in(reading(parsed), body@),
{
    let json = match parsed {
        Ok(json) => json,
        Err(e) => return Err(
            AppError::KickApi("public-key parse: ".to_owned().concat(e.as_str()).concat(" | body: ").concat(body)),
        ),
    };
    if let Some(data) = json.get("data") {
        if let Some(pem) = data.str_at("public_key") {
            return Ok(pem.to_owned());
        }
    }
    Err(AppError::KickApi("public-key response missing data.public_key".to_owned()))
}

/// The key that the answer to a request for it holds.
pub fn parse_public_key(body: &str) -> (r: Result<SigningKey, AppError>)
    ensures
        match pem_in(json_text(body@), body@) {
            Err(e) => r is Err && r->Err_0@ == e,
            Ok(pem) => match pem_key(pem) {
                Ok(k) => r is Ok && (r->Ok_0.modulus@, r->Ok_0.exponent@) == k,
                Err(e) => r is Err && r->Err_0@ == ErrorView::KickApi("public-key PEM parse: "@ + e),
            },
        },
{
    let pem = match read_public_key(parse_text(body), body) {
        Ok(pem) => pem,
        Err(e) => return Err(e),
    };
    match read_pem(pem.as_str()) {
        Ok(k) => Ok(k),
        Err(e) => Err(AppError::KickApi("public-key PEM parse: ".to_owned().concat(e.as_str()))),
    }
}

/// The bytes that a delivery's signature is made over.
pub open spec fn signed_bytes(message_id: Seq<char>, timestamp: Seq<char>, body: Seq<u8>) -> Seq<u8> {
    encode_utf8(message_id) + seq![0x2E] + encode_utf8(timestamp) + seq![0x2E] + body
}

/// The bytes that a delivery's signature is made over.
pub fn signed_message(message_id: &str, timestamp: &str, body: &[u8]) -> (r: Vec<u8>)
    ensures
        r@ == signed_bytes(message_id@, timestamp@, body@),
{
    let mut r: Vec<u8> = Vec::new();
    push_text(&mut r, message_id);
    r.push(0x2E);
    push_text(&mut r, timestamp);
    r.push(0x2E);
    push_bytes(&mut r, body);
    assert(r@ =~= signed_bytes(message_id@, timestamp@, body@));
    r
}

/// Whether a delivery's timestamp lies near enough to the clock, on either side.
pub open spec fn is_fresh(sent: Option<Timestamp>, now: Timestamp) -> bool {
    match sent {
        Some(t) => -MAX_AGE_NANOS <= elapsed_nanos(now, t) <= MAX_AGE_NANOS,
        None => false,
    }
}

/// Whether a delivery's timestamp lies near enough to the clock, on either side.
pub fn fresh(sent: Option<Timestamp>, now: Timestamp) -> (r: bool)
    ensures
        r == is_fresh(sent, now),
{
    match sent {
        Some(t) => {
            let age: i128 = nanos_between(now, t);
            -MAX_AGE_NANOS <= age && age <= MAX_AGE_NANOS
        },
        None => false,
    }
}

/// Whether the signature in a header is the key's, over the delivery.
pub open spec fn signature_holds(
    modulus: Seq<u8>,
    exponent: Seq<u8>,
    message_id: Seq<char>,
    timestamp: Seq<char>,
    body: Seq<u8>,
    header: Seq<char>,
) -> bool {
    match base64_bytes(trimmed(header)) {
        Some(signature) => rsa_verified(
            modulus,
            exponent,
            sha256(signed_bytes(message_id, timestamp, body)),
            signature,
        ),
        None => false,
    }
}

/// Whether a delivery is accepted, at the instant `now`: it is fresh, and its signature is the
/// key's.
pub open spec fn accepted(
    key: SigningKey,
    message_id: Seq<char>,
    timestamp: Seq<char>,
    body: Seq<u8>,
    header: Seq<char>,
    now: Timestamp,
) -> bool {
    is_fresh(rfc3339(timestamp), now) && signature_holds(
        key.modulus@,
        key.exponent@,
        message_id,
        timestamp,
        body,
        header,
    )
}

/// Whether a delivery comes from Kick and is no older than it may be, at the instant `now`.
pub fn verify_webhook_signature_at(
    public_key: &SigningKey,
    message_id: &str,
    timestamp: &str,
    body: &[u8],
    signature_header: &str,
    now: Timestamp,
) -> (r: bool)
    ensures
        r == accepted(*public_key, message_id@, timestamp@, body@, signature_header@, now),
{
    if !fresh(parse_rfc3339(timestamp), now) {
        return false;
    }
    let header = trim(signature_header);
    let signature = match decode_base64(header.as_str()) {
        Some(s) => s,
        None => return false,
    };
    let message = signed_message(message_id, timestamp, body);
    let hashed = digest(message.as_slice());
    verify(public_key, hashed.as_slice(), signature.as_slice())
}

/// Whether a delivery comes from Kick and is no older than it may be.
pub fn verify_webhook_signature(
    public_key: &SigningKey,
    message_id: &str,
    timestamp: &str,
    body: &[u8],
    signature_header: &str,
) -> (r: bool)
    ensures
        exists|now: Timestamp|
            now.valid() && r == #[trigger] accepted(
                *public_key,
                message_id@,
                timestamp@,
                body@,
                signature_header@,
                now,
            ),
{
    let instant = now();
    verify_webhook_signature_at(public_key, message_id, timestamp, body, signature_header, instant)
}

/// A delivery without a timestamp that can be read is refused, whatever it is signed with, and so
/// is one that lies more than ten minutes from the clock, on either side.
pub proof fn law_stale_deliveries_are_refused(sent: Option<Timestamp>, now: Timestamp)
    ensures
        sent is None ==> !is_fresh(sent, now),
        sent is Some && elapsed_nanos(now, sent->0) > 600_000_000_000 ==> !is_fresh(sent, now),
        sent is Some && elapsed_nanos(now, sent->0) < -600_000_000_000 ==> !is_fresh(sent, now),
{
}

} // verus!
