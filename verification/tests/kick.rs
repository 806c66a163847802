use base64::Engine;
use kick_channel_role::error::AppError;
use kick_channel_role::json::{parse_text, Json};
use kick_channel_role::services::kick::{
    channels_url, code_verifier_from, fresh, new_code_verifier, parse_public_key, parse_subscription, pkce_s256,
    public_key_url, read_public_key, read_subscription, signed_message, subscribe_body, subscriptions_url,
    users_url, verify_webhook_signature, verify_webhook_signature_at, ApiCall, Fetched, KickClient, SigningKey,
    AUTHORIZE_URL,
};
use kick_channel_role::time::Timestamp;
use rsa::pkcs1v15::Pkcs1v15Sign;
use rsa::pkcs8::EncodePublicKey;
use rsa::traits::PublicKeyParts;
use rsa::RsaPrivateKey;
use sha2::{Digest, Sha256};

fn signing_key(k: &rsa::RsaPublicKey) -> SigningKey {
    SigningKey { modulus: k.n().to_bytes_be(), exponent: k.e().to_bytes_be() }
}

fn kick_api(e: AppError) -> String {
    match e {
        AppError::KickApi(s) => s,
        other => panic!("expected a failure of Kick, got {other:?}"),
    }
}

#[test]
fn pkce_challenge_known_vector() {
    let verifier = "dBjftJeZ4CVP-mB92K27uhbUJU1p1r_wW1gFWFOEjXk";
    let challenge = "E9Melhoa2OwvFrEMTJguCHaoeK1t8URWbuGJSstw-cM";
    assert_eq!(pkce_s256(verifier), challenge);
}

#[test]
fn verifier_has_enough_entropy() {
    let v = new_code_verifier();
    assert!(v.len() >= 43 && v.len() <= 128);
}

#[test]
fn webhook_signature_roundtrip() {
    let mut rng = rand::thread_rng();
    let priv_key = RsaPrivateKey::new(&mut rng, 2048).expect("keygen");
    let pub_key = signing_key(&priv_key.to_public_key());

    let id = "msg-1";
    let ts = chrono::Utc::now().to_rfc3339();
    let body: &[u8] = br#"{"hello":"world"}"#;

    let mut message = Vec::new();
    message.extend_from_slice(id.as_bytes());
    message.push(b'.');
    message.extend_from_slice(ts.as_bytes());
    message.push(b'.');
    message.extend_from_slice(body);
    let digest = Sha256::digest(&message);
    let sig = priv_key.sign(Pkcs1v15Sign::new::<Sha256>(), &digest).expect("sign");
    let sig_b64 = base64::engine::general_purpose::STANDARD.encode(sig);

    assert!(verify_webhook_signature(&pub_key, id, &ts, body, &sig_b64));
    assert!(!verify_webhook_signature(&pub_key, "msg-2", &ts, body, &sig_b64));
    let old_ts = (chrono::Utc::now() - chrono::Duration::hours(1)).to_rfc3339();
    assert!(!verify_webhook_signature(&pub_key, id, &old_ts, body, &sig_b64));
    assert!(!verify_webhook_signature(&pub_key, id, &ts, body, "!!!"));
}

#[test]
fn authorize_url_includes_required_params() {
    let c = KickClient::new("id123".into(), "secret".into());
    let url = c.authorize_url(
        "https://example.com/cb",
        "user:read channel:read",
        "state123",
        "verifier-abcdefghij",
    );
    assert!(url.starts_with(AUTHORIZE_URL));
    assert!(url.contains("client_id=id123"));
    assert!(url.contains("state=state123"));
    assert!(url.contains("code_challenge_method=S256"));
    assert!(url.contains("response_type=code"));
}

#[test]
fn the_sign_in_address_is_a_form() {
    let c = KickClient::new("a b".into(), "s".into());
    assert_eq!(c.client_id(), "a b");
    let url = c.authorize_url("https://x/cb?é", "user:read", "s*-._~", "dBjftJeZ4CVP-mB92K27uhbUJU1p1r_wW1gFWFOEjXk");
    assert_eq!(
        url,
        "https://id.kick.com/oauth/authorize?client_id=a+b&redirect_uri=https%3A%2F%2Fx%2Fcb%3F%C3%A9\
         &response_type=code&scope=user%3Aread&state=s*-._%7E\
         &code_challenge=E9Melhoa2OwvFrEMTJguCHaoeK1t8URWbuGJSstw-cM&code_challenge_method=S256"
    );
}

#[test]
fn verifiers_are_long_random_and_fit_for_addresses() {
    let a = new_code_verifier();
    let b = new_code_verifier();
    assert_eq!(a.len(), 96);
    assert_ne!(a, b);
    assert!(a.chars().all(|c| c.is_ascii_alphanumeric() || c == '-' || c == '_'));
    assert_eq!(code_verifier_from(&vec![0xFB, 0xEF, 0xFF, 0x00]), "--__AA");
    assert_eq!(code_verifier_from(&vec![0x4D, 0x61]), "TWE");
    assert_eq!(code_verifier_from(&vec![]), "");
}

#[test]
fn forms_carry_the_credentials() {
    let c = KickClient::new("id".into(), "secret".into());
    let pair = |a: &str, b: &str| (a.to_string(), b.to_string());
    assert_eq!(
        c.exchange_form("code", "https://x/cb", "ver"),
        vec![
            pair("grant_type", "authorization_code"),
            pair("client_id", "id"),
            pair("client_secret", "secret"),
            pair("redirect_uri", "https://x/cb"),
            pair("code", "code"),
            pair("code_verifier", "ver"),
        ]
    );
    assert_eq!(
        c.refresh_form("old"),
        vec![
            pair("grant_type", "refresh_token"),
            pair("client_id", "id"),
            pair("client_secret", "secret"),
            pair("refresh_token", "old"),
        ]
    );
}

#[test]
fn addresses_of_the_api() {
    assert_eq!(users_url(), "https://api.kick.com/public/v1/users");
    assert_eq!(channels_url(-42), "https://api.kick.com/public/v1/channels?broadcaster_user_id=-42");
    assert_eq!(channels_url(1_234_567_890_123), "https://api.kick.com/public/v1/channels?broadcaster_user_id=1234567890123");
    assert_eq!(subscriptions_url(), "https://api.kick.com/public/v1/events/subscriptions");
    assert_eq!(public_key_url(), "https://api.kick.com/public/v1/public-key");
}

#[test]
fn a_subscription_is_asked_for_and_understood() {
    let b = subscribe_body("channel.followed", 7);
    assert_eq!(b.i64_at("broadcaster_user_id"), Some(7));
    assert_eq!(b.str_at("method"), Some("webhook"));
    let events = b.array_at("events").unwrap();
    assert_eq!(events.len(), 1);
    assert_eq!(events[0].str_at("name"), Some("channel.followed"));
    assert_eq!(events[0].i64_at("version"), Some(1));

    assert_eq!(parse_subscription("e", r#"{"data":[{"subscription_id":"s1","error":""}]}"#).unwrap(), "s1");
    assert_eq!(
        kick_api(parse_subscription("e", r#"{"data":[{"subscription_id":"s1","error":"no scope"}]}"#).unwrap_err()),
        "subscribe e rejected: no scope"
    );
    for missing in [r#"{"data":[]}"#, r#"{"data":{}}"#, "[]", r#"{"data":[{"subscription_id":5}]}"#] {
        assert_eq!(
            kick_api(parse_subscription("e", missing).unwrap_err()),
            "subscribe response missing subscription_id"
        );
    }
    assert!(kick_api(parse_subscription("e", "<html>").unwrap_err()).ends_with(" | body: <html>"));
    assert_eq!(
        kick_api(read_subscription("e", Err("why".into()), "b").unwrap_err()),
        "subscribe parse: why | body: b"
    );
}

#[test]
fn answers_of_the_api_are_taken_or_refused() {
    let ok = Fetched::Answer { code: 204, status: "204 No Content".into(), body: "b".into() };
    assert_eq!(ApiCall::Users.accept(ok).unwrap(), "b");
    let answer = |code: u16| Fetched::Answer { code, status: "S".into(), body: "b".into() };
    assert_eq!(kick_api(ApiCall::ExchangeCode.accept(answer(300)).unwrap_err()), "token exchange failed: S - b");
    assert_eq!(kick_api(ApiCall::RefreshToken.accept(answer(199)).unwrap_err()), "refresh failed: S - b");
    assert_eq!(kick_api(ApiCall::Users.accept(answer(500)).unwrap_err()), "get_authenticated_user: S - b");
    assert_eq!(kick_api(ApiCall::Channels.accept(answer(404)).unwrap_err()), "get_channel_by_user: S - b");
    assert_eq!(kick_api(ApiCall::Subscribe("e".into()).accept(answer(400)).unwrap_err()), "subscribe e: S - b");
    assert_eq!(kick_api(ApiCall::PublicKey.accept(answer(403)).unwrap_err()), "fetch_public_key: S - b");
    assert_eq!(
        kick_api(ApiCall::ExchangeCode.accept(Fetched::SendFailed("dns".into())).unwrap_err()),
        "token exchange request failed: dns"
    );
    assert_eq!(
        kick_api(ApiCall::Channels.accept(Fetched::BodyFailed("cut".into())).unwrap_err()),
        "channels body: cut"
    );
    assert_eq!(kick_api(ApiCall::RefreshToken.parse_error("eof", "{")), "refresh parse: eof | body: {");
    assert_eq!(ApiCall::Users.first(vec![4, 5]).unwrap(), 4);
    assert_eq!(kick_api(ApiCall::Users.first(Vec::<i64>::new()).unwrap_err()), "users response had no data");
}

#[test]
fn the_key_of_kick_is_read_from_its_answer() {
    let mut rng = rand::thread_rng();
    let key = rsa::RsaPrivateKey::new(&mut rng, 1024).expect("keygen").to_public_key();
    let pem = key.to_public_key_pem(rsa::pkcs8::LineEnding::LF).unwrap();
    let body = format!(r#"{{"data":{{"public_key":"{}"}}}}"#, pem.replace('\n', "\\n"));
    let read = parse_public_key(&body).unwrap();
    assert_eq!(read.modulus, key.n().to_bytes_be());
    assert_eq!(read.exponent, vec![1, 0, 1]);
    assert_eq!(read_public_key(parse_text(&body), &body).unwrap(), pem);
    for missing in ["{}", r#"{"data":{}}"#, r#"{"data":{"public_key":1}}"#] {
        assert_eq!(
            kick_api(parse_public_key(missing).unwrap_err()),
            "public-key response missing data.public_key"
        );
    }
    assert!(kick_api(parse_public_key("nope").unwrap_err()).starts_with("public-key parse: "));
    assert!(kick_api(parse_public_key(r#"{"data":{"public_key":"nope"}}"#).unwrap_err())
        .starts_with("public-key PEM parse: "));
    assert_eq!(kick_api(read_public_key(Ok(Json::Null), "").unwrap_err()), "public-key response missing data.public_key");
}

#[test]
fn deliveries_are_fresh_for_ten_minutes_on_either_side() {
    let now = Timestamp { secs: 1_000_000, nanos: 0 };
    let at = |secs: i64, nanos: u32| Some(Timestamp { secs, nanos });
    assert!(fresh(at(1_000_000, 0), now));
    assert!(fresh(at(1_000_000 - 600, 0), now));
    assert!(!fresh(at(1_000_000 - 601, 999_999_999), now));
    assert!(!fresh(at(1_000_000 - 630, 0), now), "half a minute too old");
    assert!(fresh(at(1_000_000 + 600, 0), now));
    assert!(!fresh(at(1_000_000 + 600, 1), now));
    assert!(!fresh(None, now));
}

#[test]
fn the_signature_covers_identifier_timestamp_and_body() {
    assert_eq!(signed_message("id", "ts", b"{}"), b"id.ts.{}".to_vec());
    let mut rng = rand::thread_rng();
    let key = rsa::RsaPrivateKey::new(&mut rng, 1024).expect("keygen");
    let public = signing_key(&key.to_public_key());
    let ts = "2026-01-02T03:04:05+02:00";
    let now = Timestamp { secs: 1_767_315_845, nanos: 0 };
    let digest = Sha256::digest(signed_message("m", ts, b"body"));
    let sig = key.sign(Pkcs1v15Sign::new::<Sha256>(), &digest).expect("sign");
    let header = format!("  {}\n", base64::engine::general_purpose::STANDARD.encode(&sig));
    assert!(verify_webhook_signature_at(&public, "m", ts, b"body", &header, now));
    assert!(!verify_webhook_signature_at(&public, "m", ts, b"Body", &header, now));
    assert!(!verify_webhook_signature_at(&public, "m", "yesterday", b"body", &header, now));
    let bare = header.trim().trim_end_matches('=');
    assert!(!verify_webhook_signature_at(&public, "m", ts, b"body", bare, now), "padding is asked for");
    let alphabet = "ABCDEFGHIJKLMNOPQRSTUVWXYZabcdefghijklmnopqrstuvwxyz0123456789+/";
    let last = alphabet.find(bare.chars().last().unwrap()).unwrap();
    let loose = format!("{}{}=", &bare[..bare.len() - 1], &alphabet[last + 1..last + 2]);
    assert!(!verify_webhook_signature_at(&public, "m", ts, b"body", &loose, now), "no bit may be left over");
    let nonsense = SigningKey { modulus: vec![2], exponent: vec![2] };
    assert!(!verify_webhook_signature_at(&nonsense, "m", ts, b"body", &header, now));
}
