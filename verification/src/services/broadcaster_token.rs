//! A broadcaster's access token: used as it is while it is good, and refreshed in time.

use vstd::prelude::*;
use vstd::string::*;
use vstd::utf8::*;

use crate::error::{AppError, ErrorView};
use crate::json::string_opt;
use crate::routes::oauth::{token_expiry, token_seconds};
use crate::services::kick::{told, TokenResponse};
use crate::text::{push_signed_decimal, signed_decimal};
use crate::time::{can_wait, later, seconds_after, Timestamp};

verus! {

/// How many seconds before its end a token is refreshed.
pub const REFRESH_SKEW_SECS: i64 = 300;

/// What is kept of a broadcaster's tokens, encrypted.
pub struct StoredTokens {
    pub access_token_enc: Vec<u8>,
    pub refresh_token_enc: Vec<u8>,
    pub token_expires_at: Timestamp,
}

/// That a broadcaster is not known.
pub open spec fn unknown_broadcaster(kick_channel_id: i64) -> ErrorView {
    ErrorView::NotFound("broadcaster "@ + signed_decimal(kick_channel_id as int) + " not found"@)
}

/// What is kept of a broadcaster's tokens, or that the broadcaster is not known.
pub fn require_tokens(row: Option<StoredTokens>, kick_channel_id: i64) -> (r: Result<StoredTokens, AppError>)
    ensures
        match row {
            Some(tokens) => r is Ok && r->Ok_0 == tokens,
            None => r is Err && r->Err_0@ == unknown_broadcaster(kick_channel_id),
        },
{
    match row {
        Some(tokens) => Ok(tokens),
        None => {
            let mut message = "broadcaster ".to_owned();
            push_signed_decimal(&mut message, kick_channel_id);
            Err(AppError::NotFound(message.concat(" not found")))
        },
    }
}

/// Whether a token that ends at an instant is to be refreshed, at the instant `now`.
pub open spec fn is_due(expires_at: Timestamp, now: Timestamp) -> bool {
    expires_at.not_after(later(now, REFRESH_SKEW_SECS as int))
}

/// Whether a token that ends at an instant is to be refreshed.
pub fn needs_refresh(expires_at: Timestamp, now: Timestamp) -> (r: bool)
    requires
        can_wait(now, REFRESH_SKEW_SECS as int),
    ensures
        r == is_due(expires_at, now),
{
    expires_at.is_not_after(seconds_after(now, REFRESH_SKEW_SECS))
}

/// What is to be done for a token that is good for a while yet.
pub enum TokenStep {
    /// Decrypt the access token and use it.
    Use { access_token_enc: Vec<u8> },
    /// Decrypt the refresh token and have Kick give new ones for it.
    Refresh { refresh_token_enc: Vec<u8> },
}

/// What is to be done for a token that is good for a while yet, given what is kept of a
/// broadcaster's tokens.
pub fn token_step(row: Option<StoredTokens>, kick_channel_id: i64, now: Timestamp) -> (r: Result<TokenStep, AppError>)
    requires
        can_wait(now, REFRESH_SKEW_SECS as int),
    ensures
        match row {
            Some(kept) => r is Ok && r->Ok_0 == (if is_due(kept.token_expires_at, now) {
                TokenStep::Refresh { refresh_token_enc: kept.refresh_token_enc }
            } else {
                TokenStep::Use { access_token_enc: kept.access_token_enc }
            }),
            None => r is Err && r->Err_0@ == unknown_broadcaster(kick_channel_id),
        },
{
    let kept = match require_tokens(row, kick_channel_id) {
        Ok(kept) => kept,
        Err(e) => return Err(e),
    };
    if needs_refresh(kept.token_expires_at, now) {
        Ok(TokenStep::Refresh { refresh_token_enc: kept.refresh_token_enc })
    } else {
        Ok(TokenStep::Use { access_token_enc: kept.access_token_enc })
    }
}

/// `String::from_utf8`: the text that the bytes encode, where they encode one.
#[verifier::external_body]
fn text_from(bytes: Vec<u8>) -> (r: Option<String>)
    ensures
        string_opt(r) == (if valid_utf8(bytes@) {
            Some(decode_utf8(bytes@))
        } else {
            None
        }),
{
    String::from_utf8(bytes).ok()
}

/// A token that was decrypted, or why there is none; `name` is what messages call it by.
pub open spec fn token_text(name: Seq<char>, decrypted: Result<Seq<u8>, Seq<char>>) -> Result<Seq<char>, ErrorView> {
    match decrypted {
        Err(e) => Err(ErrorView::Internal("decrypt "@ + name + ": "@ + e)),
        Ok(bytes) => if valid_utf8(bytes) {
            Ok(decode_utf8(bytes))
        } else {
            Err(ErrorView::Internal(name + " not UTF-8"@))
        },
    }
}

/// What decrypting gave.
pub open spec fn decryption(r: Result<Vec<u8>, String>) -> Result<Seq<u8>, Seq<char>> {
    match r {
        Ok(bytes) => Ok(bytes@),
        Err(e) => Err(e@),
    }
}

/// A token that was decrypted.
fn decrypted_token(name: &str, decrypted: Result<Vec<u8>, String>) -> (r: Result<String, AppError>)
    ensures
        told(r) == token_text(name@, decryption(decrypted)),
{
    match decrypted {
        Err(e) => Err(
            AppError::Internal("decrypt ".to_owned().concat(name).concat(": ").concat(e.as_str())),
        ),
        Ok(bytes) => match text_from(bytes) {
            Some(text) => Ok(text),
            None => Err(AppError::Internal(name.to_owned().concat(" not UTF-8"))),
        },
    }
}

/// The access token that was decrypted.
pub fn access_token(decrypted: Result<Vec<u8>, String>) -> (r: Result<String, AppError>)
    ensures
        told(r) == token_text("access token"@, decryption(decrypted)),
{
    decrypted_token("access token", decrypted)
}

/// The refresh token that was decrypted.
pub fn refresh_token(decrypted: Result<Vec<u8>, String>) -> (r: Result<String, AppError>)
    ensures
        told(r) == token_text("refresh token"@, decryption(decrypted)),
{
    decrypted_token("refresh token", decrypted)
}

/// What is kept after a refresh.
pub struct Refreshed {
    pub access_token: String,
    pub refresh_token: String,
    pub expires_at: Timestamp,
}

/// What is kept after a refresh at the instant `now`: the old refresh token, where Kick gave no new
/// one.
pub fn refreshed(tokens: TokenResponse, old_refresh_token: String, now: Timestamp) -> (r: Refreshed)
    requires
        can_wait(now, token_seconds(tokens.expires_in) as int),
    ensures
        r.access_token@ == tokens.access_token@,
        r.refresh_token@ == (match tokens.refresh_token {
            Some(t) => t@,
            None => old_refresh_token@,
        }),
        r.expires_at == later(now, token_seconds(tokens.expires_in) as int),
{
    let expires_at = token_expiry(tokens.expires_in, now);
    let refresh_token = match tokens.refresh_token {
        Some(t) => t,
        None => old_refresh_token,
    };
    Refreshed { access_token: tokens.access_token, refresh_token, expires_at }
}

/// A token that was just refreshed and lasts longer than the margin is not due at once.
pub proof fn law_a_fresh_token_is_not_due(expires_in: i64, now: Timestamp)
    requires
        can_wait(now, token_seconds(expires_in) as int),
        expires_in > REFRESH_SKEW_SECS,
    ensures
        !is_due(later(now, token_seconds(expires_in) as int), now),
{
}

/// A token is due from five minutes before its end, and from its end on.
pub proof fn law_a_token_is_due_five_minutes_early(expires_at: Timestamp, now: Timestamp)
    requires
        can_wait(now, 300),
    ensures
        is_due(expires_at, now) <==> expires_at.secs < now.secs + 300 || (expires_at.secs == now.secs + 300
            && expires_at.nanos <= now.nanos),
{
}

/// A token that is due is refreshed by the refresh token that is kept, and any other is used as it is
/// kept; without either the broadcaster is not known.
pub proof fn law_a_token_is_used_until_it_is_due(
    row: Option<StoredTokens>,
    channel: i64,
    now: Timestamp,
    r: Result<TokenStep, AppError>,
)
    requires
        call_ensures(token_step, (row, channel, now), r),
        can_wait(now, 300),
    ensures
        r is Ok <==> row is Some,
        r is Err ==> r->Err_0@ == ErrorView::NotFound(
            "broadcaster "@ + signed_decimal(channel as int) + " not found"@,
        ),
        row matches Some(kept) ==> {
            &&& is_due(kept.token_expires_at, now) ==> r->Ok_0 == (TokenStep::Refresh {
                refresh_token_enc: kept.refresh_token_enc,
            })
            &&& !is_due(kept.token_expires_at, now) ==> r->Ok_0 == (TokenStep::Use {
                access_token_enc: kept.access_token_enc,
            })
        },
{
}

/// What is kept after a refresh is what Kick gave, the old refresh token where it gave no new one,
/// and the end that it gave, one minute on at least.
pub proof fn law_a_refresh_keeps_what_kick_gave(tokens: TokenResponse, old: String, now: Timestamp, r: Refreshed)
    requires
        call_ensures(refreshed, (tokens, old, now), r),
        can_wait(now, tokens.expires_in as int),
        can_wait(now, 60),
    ensures
        r.access_token@ == tokens.access_token@,
        tokens.refresh_token matches Some(t) ==> r.refresh_token@ == t@,
        tokens.refresh_token is None ==> r.refresh_token@ == old@,
        tokens.expires_in >= 60 ==> r.expires_at.secs == now.secs + tokens.expires_in,
        tokens.expires_in < 60 ==> r.expires_at.secs == now.secs + 60,
{
}

/// A token is the text that its bytes encode; where they could not be decrypted, or encode none, that
/// is a failure of the service's own.
pub proof fn law_a_token_is_its_text(
    decrypted: Result<Vec<u8>, String>,
    access: Result<String, AppError>,
    refresh: Result<String, AppError>,
)
    requires
        call_ensures(access_token, (decrypted,), access),
        call_ensures(refresh_token, (decrypted,), refresh),
    ensures
        access is Ok <==> decrypted is Ok && valid_utf8(decrypted->Ok_0@),
        refresh is Ok <==> access is Ok,
        access is Ok ==> access->Ok_0@ == decode_utf8(decrypted->Ok_0@) && refresh->Ok_0@ == access->Ok_0@,
        access is Err ==> access->Err_0 is Internal && refresh->Err_0 is Internal,
{
}

} // verus!
