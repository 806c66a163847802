//! Keys with which other services read a guild's linked users.
//!
//! A key is bound to one guild. Only its digest is kept: the key itself is shown once, when it is
//! made, and a request that presents it is found by its digest.

use governor::clock::Clock;
use vstd::prelude::*;
use vstd::string::*;
use vstd::utf8::*;

use crate::crypto::{
    base64url, digest, encode_base64url, law_base64url_is_injective, law_base64url_length, random_bytes, sha256,
};
use crate::error::{AppError, ErrorView};
use crate::json::{string_opt, text_opt};
use crate::text::{begins_with, chars_of, holds_text, starts_with, string_of, strip_prefix, texts, trim, trimmed};
use crate::time::Timestamp;

verus! {

/// How every key begins.
pub const TOKEN_PREFIX: &'static str = "kck_";

/// The scope that lets a key read the linked users.
pub const SCOPE_USERS_READ: &'static str = "users:read";

/// How many keys of a guild may be live at once.
pub const MAX_ACTIVE_KEYS_PER_GUILD: i64 = 10;

/// How many characters of a key are kept in clear, to tell it from others.
pub const PREFIX_DISPLAY_LEN: usize = 12;

/// Requests per minute that a key is good for.
pub const RATE_PER_MINUTE: u32 = 120;

/// Requests that a key may make at once.
pub const RATE_BURST: u32 = 30;

/// How many bytes of chance make a key.
pub const TOKEN_BYTES: usize = 32;

/// What a request without a key is told.
pub const MISSING: &'static str = "Missing API key. Send `Authorization: Bearer kck_…` — mint one from the plugin's \
     role settings in the RoleLogic dashboard.";

/// What a request is told whose key does not work, whatever the reason.
pub const REJECTED: &'static str = "Invalid or revoked API key.";

/// A limit on the requests made with each key.
#[verifier::external_body]
pub struct KeyRateLimiter {
    inner: governor::RateLimiter<
        i64,
        governor::state::keyed::DefaultKeyedStateStore<i64>,
        governor::clock::DefaultClock,
    >,
}

/// The requests per minute, and the requests at once, that a limit was made for.
pub uninterp spec fn quota_of(limiter: KeyRateLimiter) -> (u32, u32);

/// Whether a limit may, at one time or another, give this answer to a request made with the key: let
/// it through, or have it wait so many seconds.
pub uninterp spec fn may_answer(limiter: KeyRateLimiter, key_id: i64, checked: Result<(), u64>) -> bool;

/// `governor::RateLimiter::keyed` with `Quota::per_minute` and `Quota::allow_burst`: a limit of so
/// many requests per minute, and so many at once, for each key. The nanoseconds in which all the
/// requests at once but one come back are counted in 64 bits.
#[verifier::external_body]
fn limiter_with(per_minute: u32, burst: u32) -> (r: KeyRateLimiter)
    requires
        per_minute > 0,
        burst > 0,
        60_000_000_000int / per_minute as int * (burst - 1) <= u64::MAX,
    ensures
        quota_of(r) == (per_minute, burst),
{
    let rate = std::num::NonZeroU32::new(per_minute).expect("not zero");
    let most = std::num::NonZeroU32::new(burst).expect("not zero");
    let quota = governor::Quota::per_minute(rate).allow_burst(most);
    KeyRateLimiter { inner: governor::RateLimiter::keyed(quota) }
}

impl KeyRateLimiter {
    /// `governor::RateLimiter::check_key`, then `NotUntil::wait_time_from`: lets a request of the
    /// key through, or gives the whole seconds to wait. The answer is one that this limit gives to
    /// this key; which one, rests on the clock and on the requests before, and is not said.
    #[verifier::external_body]
    fn check(&self, key_id: i64) -> (r: Result<(), u64>)
        ensures
            may_answer(*self, key_id, r),
    {
        match self.inner.check_key(&key_id) {
            Ok(_) => Ok(()),
            Err(until) => {
                let now = governor::clock::DefaultClock::default().now();
                Err(until.wait_time_from(now).as_secs())
            },
        }
    }

    /// Lets a request of the key through, or says when to come again: in a second at the earliest.
    /// The limit is asked about this key, and its answer decides.
    pub fn check_key(&self, key_id: &i64) -> (r: Result<(), AppError>)
        ensures
            exists|checked: Result<(), u64>|
                #[trigger] may_answer(*self, *key_id, checked) && (match limit_error(checked) {
                    None => r is Ok,
                    Some(e) => r is Err && r->Err_0@ == e,
                }),
            r matches Err(e) ==> e@ matches ErrorView::RateLimited { retry_after } && retry_after >= 1,
    {
        limited(self.check(*key_id))
    }
}

/// The limit on the requests made with each key.
pub fn new_rate_limiter() -> (r: KeyRateLimiter)
    ensures
        quota_of(r) == (RATE_PER_MINUTE, RATE_BURST),
{
    limiter_with(RATE_PER_MINUTE, RATE_BURST)
}

/// What a limit's answer means for the request.
pub open spec fn limit_error(checked: Result<(), u64>) -> Option<ErrorView> {
    match checked {
        Ok(_) => None,
        Err(wait) => Some(
            ErrorView::RateLimited {
                retry_after: if wait < 1 {
                    1
                } else {
                    wait
                },
            },
        ),
    }
}

/// What a limit's answer means for the request.
pub fn limited(checked: Result<(), u64>) -> (r: Result<(), AppError>)
    ensures
        match limit_error(checked) {
            None => r is Ok,
            Some(e) => r is Err && r->Err_0@ == e,
        },
{
    match checked {
        Ok(_) => Ok(()),
        Err(wait) => {
            let retry_after: u64 = if wait < 1 {
                1
            } else {
                wait
            };
            Err(AppError::RateLimited { retry_after })
        },
    }
}

/// A new key, with what is kept of it.
pub struct Minted {
    /// The key itself.
    pub raw: String,
    pub hash: Vec<u8>,
    pub prefix: String,
}

/// The key that the bytes make.
pub open spec fn token_of(bytes: Seq<u8>) -> Seq<char> {
    TOKEN_PREFIX@ + base64url(bytes)
}

/// What is kept in clear of a key.
pub open spec fn shown_of(raw: Seq<char>) -> Seq<char> {
    if raw.len() < PREFIX_DISPLAY_LEN {
        raw
    } else {
        raw.take(PREFIX_DISPLAY_LEN as int)
    }
}

/// The digest by which a key is found.
pub open spec fn hash_of(raw: Seq<char>) -> Seq<u8> {
    sha256(encode_utf8(raw))
}

impl Minted {
    /// Whether this is the key that the bytes make.
    pub open spec fn made_of(self, bytes: Seq<u8>) -> bool {
        &&& self.raw@ == token_of(bytes)
        &&& self.hash@ == hash_of(self.raw@)
        &&& self.prefix@ == shown_of(self.raw@)
    }
}

/// The digest by which a key is found.
pub fn hash_token(raw: &str) -> (r: Vec<u8>)
    ensures
        r@ == hash_of(raw@),
        r.len() == 32,
{
    digest(raw.as_bytes())
}

/// The key that the bytes make.
pub fn mint_from(bytes: &Vec<u8>) -> (r: Minted)
    ensures
        r.made_of(bytes@),
        r.hash.len() == 32,
{
    let digits = encode_base64url(bytes.as_slice());
    let raw = TOKEN_PREFIX.to_owned().concat(digits.as_str());
    let chars = chars_of(raw.as_str());
    let shown: usize = if chars.len() < PREFIX_DISPLAY_LEN {
        chars.len()
    } else {
        PREFIX_DISPLAY_LEN
    };
    let prefix = string_of(&chars, 0, shown);
    assert(prefix@ =~= shown_of(raw@));
    let hash = hash_token(raw.as_str());
    Minted { raw, hash, prefix }
}

/// A new key, made of 32 bytes of chance: 43 characters behind the prefix, of which 8 are kept in
/// clear.
pub fn mint() -> (r: Minted)
    ensures
        exists|bytes: Seq<u8>| bytes.len() == TOKEN_BYTES && #[trigger] r.made_of(bytes),
        r.raw@.len() == 47,
        r.prefix@.len() == PREFIX_DISPLAY_LEN,
        r.hash.len() == 32,
        begins_with(r.raw@, TOKEN_PREFIX@),
        begins_with(r.raw@, r.prefix@),
{
    let bytes = random_bytes(TOKEN_BYTES);
    let r = mint_from(&bytes);
    proof {
        law_base64url_length(bytes@);
        reveal_strlit("kck_");
        assert(TOKEN_PREFIX@.len() == 4);
        assert(r.raw@.subrange(0, 4) =~= TOKEN_PREFIX@);
        assert(r.raw@.subrange(0, 12) =~= r.prefix@);
    }
    r
}

/// Different bytes make different keys.
pub proof fn law_keys_differ_as_their_bytes_do(a: Seq<u8>, b: Seq<u8>)
    requires
        a != b,
    ensures
        token_of(a) != token_of(b),
{
    if token_of(a) == token_of(b) {
        let n = TOKEN_PREFIX@.len() as int;
        assert(base64url(a) =~= token_of(a).skip(n));
        assert(base64url(b) =~= token_of(b).skip(n));
        law_base64url_is_injective(a, b);
    }
}

/// What is kept of a key.
#[derive(Debug)]
pub struct KeyLookup {
    pub id: i64,
    pub guild_id: String,
    pub label: String,
    pub scopes: Vec<String>,
    pub revoked_at: Option<Timestamp>,
}

/// Who makes a request.
#[derive(Debug)]
pub struct ApiKeyContext {
    pub key_id: i64,
    pub guild_id: String,
    pub label: String,
    pub scopes: Vec<String>,
}

impl ApiKeyContext {
    /// Whether the key carries exactly this scope.
    pub fn has_scope(&self, scope: &str) -> (r: bool)
        ensures
            r == texts(self.scopes@).contains(scope@),
    {
        holds_text(&self.scopes, scope)
    }
}

/// The key in a header's value: what follows `Bearer `, without the space around it, where any is
/// left.
pub open spec fn bearer(header: Option<Seq<char>>) -> Option<Seq<char>> {
    match header {
        Some(value) => if begins_with(value, "Bearer "@) && trimmed(value.skip(7)).len() > 0 {
            Some(trimmed(value.skip(7)))
        } else {
            None
        },
        None => None,
    }
}

/// The key in the value of an `Authorization` header.
pub fn extract_bearer(header: Option<&str>) -> (r: Option<String>)
    ensures
        string_opt(r) == bearer(text_opt(header)),
{
    let value = match header {
        Some(v) => v,
        None => return None,
    };
    proof {
        reveal_strlit("Bearer ");
        assert("Bearer "@.len() == 7);
    }
    match strip_prefix(value, "Bearer ") {
        Some(rest) => {
            let token = trim(rest.as_str());
            if token.as_str().unicode_len() > 0 {
                Some(token)
            } else {
                None
            }
        },
        None => None,
    }
}

/// The digest to look a request's key up by, or why there is nothing to look up.
pub open spec fn presented(header: Option<Seq<char>>) -> Result<Seq<u8>, ErrorView> {
    match bearer(header) {
        None => Err(ErrorView::UnauthorizedWith(MISSING@)),
        Some(raw) => if begins_with(raw, TOKEN_PREFIX@) {
            Ok(hash_of(raw))
        } else {
            Err(ErrorView::UnauthorizedWith(REJECTED@))
        },
    }
}

/// The digest to look a request's key up by. What is not shaped like a key never gets that far.
pub fn present(header: Option<&str>) -> (r: Result<Vec<u8>, AppError>)
    ensures
        match presented(text_opt(header)) {
            Ok(hash) => r is Ok && r->Ok_0@ == hash,
            Err(e) => r is Err && r->Err_0@ == e,
        },
{
    let raw = match extract_bearer(header) {
        Some(raw) => raw,
        None => return Err(AppError::UnauthorizedWith(MISSING.to_owned())),
    };
    if !starts_with(raw.as_str(), TOKEN_PREFIX) {
        return Err(AppError::UnauthorizedWith(REJECTED.to_owned()));
    }
    Ok(hash_token(raw.as_str()))
}

/// Whether the lookup found a key that is live.
pub open spec fn is_live(found: Option<KeyLookup>) -> bool {
    found is Some && found->0.revoked_at is None
}

/// Why a request is refused whose key was looked up, given what the limit said; none where it is
/// let through.
pub open spec fn refusal(
    found: Option<KeyLookup>,
    checked: Result<(), u64>,
    required_scope: Seq<char>,
) -> Option<ErrorView> {
    if !is_live(found) {
        Some(ErrorView::UnauthorizedWith(REJECTED@))
    } else if checked is Err {
        limit_error(checked)
    } else if !texts(found->0.scopes@).contains(required_scope) {
        Some(
            ErrorView::Forbidden("This API key does not carry the `"@ + required_scope + "` scope."@),
        )
    } else {
        None
    }
}

impl ApiKeyContext {
    /// Whether this is who presented the key that was found.
    pub open spec fn is_of(self, found: KeyLookup) -> bool {
        &&& self.key_id == found.id
        &&& self.guild_id@ == found.guild_id@
        &&& self.label@ == found.label@
        &&& texts(self.scopes@) == texts(found.scopes@)
    }
}

/// Whether a result lets the request through as the key's owner, or refuses it for the reason.
pub open spec fn settles(
    r: Result<ApiKeyContext, AppError>,
    found: Option<KeyLookup>,
    checked: Result<(), u64>,
    required_scope: Seq<char>,
) -> bool {
    match refusal(found, checked, required_scope) {
        Some(e) => r is Err && r->Err_0@ == e,
        None => r is Ok && r->Ok_0.is_of(found->0),
    }
}

/// Lets a request through whose key was found live, given what the limit said.
pub fn grant(found: KeyLookup, checked: Result<(), u64>, required_scope: &str) -> (r: Result<ApiKeyContext, AppError>)
    requires
        found.revoked_at is None,
    ensures
        settles(r, Some(found), checked, required_scope@),
{
    if let Err(e) = limited(checked) {
        return Err(e);
    }
    let ctx = ApiKeyContext {
        key_id: found.id,
        guild_id: found.guild_id,
        label: found.label,
        scopes: found.scopes,
    };
    if !ctx.has_scope(required_scope) {
        return Err(
            AppError::Forbidden(
                "This API key does not carry the `".to_owned().concat(required_scope).concat("` scope."),
            ),
        );
    }
    Ok(ctx)
}

/// Lets a request through, or refuses it, by what the lookup of its key found. Only a live key is
/// held against the limit, and against its own: the limit is asked about that key.
pub fn authenticate(limiter: &KeyRateLimiter, found: Option<KeyLookup>, required_scope: &str) -> (r: Result<
    ApiKeyContext,
    AppError,
>)
    ensures
        is_live(found) ==> exists|checked: Result<(), u64>|
            #[trigger] may_answer(*limiter, found->0.id, checked) && settles(
                r,
                found,
                checked,
                required_scope@,
            ),
        !is_live(found) ==> r is Err && r->Err_0@ == ErrorView::UnauthorizedWith(REJECTED@),
{
    match found {
        Some(key) => {
            if key.revoked_at.is_some() {
                return Err(AppError::UnauthorizedWith(REJECTED.to_owned()));
            }
            let checked = limiter.check(key.id);
            grant(key, checked, required_scope)
        },
        None => Err(AppError::UnauthorizedWith(REJECTED.to_owned())),
    }
}

/// A key that is no key, one that nobody has and one that was revoked are refused alike, whatever
/// the limit said: the answer does not tell which keys exist.
pub proof fn law_refusals_do_not_tell_which_keys_exist(
    header: Option<Seq<char>>,
    revoked: KeyLookup,
    checked: Result<(), u64>,
    required_scope: Seq<char>,
)
    requires
        bearer(header) is Some,
        !begins_with(bearer(header)->0, TOKEN_PREFIX@),
        revoked.revoked_at is Some,
    ensures
        refusal(None, checked, required_scope) == refusal(Some(revoked), checked, required_scope),
        presented(header) == Err::<Seq<u8>, ErrorView>(refusal(None, checked, required_scope)->0),
{
}

/// A key is `kck_` and the base64 of its bytes, is found by the digest of all of it, and is told from
/// others by its first twelve characters.
pub proof fn law_a_key_is_kept_by_its_digest(bytes: Vec<u8>, r: Minted, raw: &str, hash: Vec<u8>)
    requires
        call_ensures(mint_from, (&bytes,), r),
        call_ensures(hash_token, (raw,), hash),
    ensures
        r.raw@ == "kck_"@ + base64url(bytes@),
        r.hash@ == sha256(encode_utf8(r.raw@)),
        raw@ == r.raw@ ==> hash@ == r.hash@,
        r.raw@.len() >= 12 ==> r.prefix@ == r.raw@.take(12),
        r.raw@.len() < 12 ==> r.prefix@ == r.raw@,
{
}

/// A key is read from behind `Bearer `, without the space around it; a header that does not begin so,
/// or has nothing behind it, has none.
pub proof fn law_a_key_is_read_from_behind_the_scheme(value: Seq<char>, token: Seq<char>)
    ensures
        bearer(None) is None,
        bearer(Some("Bearer "@ + token)) == (if trimmed(token).len() > 0 {
            Some(trimmed(token))
        } else {
            None
        }),
        !begins_with(value, "Bearer "@) ==> bearer(Some(value)) is None,
{
    reveal_strlit("Bearer ");
    let header = "Bearer "@ + token;
    assert("Bearer "@.len() == 7);
    assert(header.skip(7) =~= token);
    assert(header.subrange(0, 7) =~= "Bearer "@);
}

/// A request that presents a key is looked up by the key's digest; one without a key is told to send
/// one, and one with something else that it is not valid.
pub proof fn law_a_key_is_looked_up_by_its_digest(header: Option<Seq<char>>)
    ensures
        presented(header) is Ok <==> bearer(header) is Some && begins_with(bearer(header)->0, "kck_"@),
        presented(header) is Ok ==> presented(header)->Ok_0 == sha256(encode_utf8(bearer(header)->0)),
        bearer(header) is None ==> presented(header)->Err_0 is UnauthorizedWith,
        bearer(header) is Some && presented(header) is Err ==> presented(header)->Err_0
            == ErrorView::UnauthorizedWith("Invalid or revoked API key."@),
{
}

/// A request is let through where its key is live, the limit lets it, and it carries the scope; else it
/// is refused for the first of these that fails.
pub proof fn law_a_request_needs_a_live_key_with_the_scope(
    found: Option<KeyLookup>,
    checked: Result<(), u64>,
    scope: Seq<char>,
)
    ensures
        ({
            let live = found is Some && found->0.revoked_at is None;
            let r = refusal(found, checked, scope);
            &&& r is None <==> live && checked is Ok && exists|i: int|
                0 <= i < found->0.scopes@.len() && (#[trigger] found->0.scopes@[i])@ == scope
            &&& !live <==> r is Some && r->0 is UnauthorizedWith
            &&& live && checked is Err ==> r->0 is RateLimited && r->0->retry_after >= 1 && r->0->retry_after
                >= checked->Err_0
            &&& live && checked is Err && checked->Err_0 >= 1 ==> r->0->retry_after == checked->Err_0
            &&& live && checked is Ok && r is Some ==> r->0 is Forbidden
        }),
{
    if found is Some {
        let list = found->0.scopes@;
        if texts(list).contains(scope) {
            let i = texts(list).index_of(scope);
            assert(list[i]@ == scope);
        }
        if exists|i: int| 0 <= i < list.len() && (#[trigger] list[i])@ == scope {
            let i = choose|i: int| 0 <= i < list.len() && (#[trigger] list[i])@ == scope;
            assert(texts(list)[i] == scope);
        }
    }
}

/// Whoever is let through is the key's owner, as it was found: its number, its guild, its label and
/// its scopes.
pub proof fn law_a_request_is_made_as_the_keys_owner(
    found: KeyLookup,
    checked: Result<(), u64>,
    scope: &str,
    r: Result<ApiKeyContext, AppError>,
)
    requires
        call_ensures(grant, (found, checked, scope), r),
        found.revoked_at is None,
        r is Ok,
    ensures
        r->Ok_0.key_id == found.id,
        r->Ok_0.guild_id@ == found.guild_id@,
        r->Ok_0.label@ == found.label@,
        r->Ok_0.scopes@.len() == found.scopes@.len(),
        forall|i: int| 0 <= i < found.scopes@.len() ==> (#[trigger] r->Ok_0.scopes@[i])@ == found.scopes@[i]@,
{
    let a = r->Ok_0.scopes@;
    let b = found.scopes@;
    assert(texts(a) == texts(b));
    assert(texts(a).len() == a.len() && texts(b).len() == b.len());
    assert forall|i: int| 0 <= i < b.len() implies (#[trigger] a[i])@ == b[i]@ by {
        assert(texts(a)[i] == texts(b)[i]);
    }
}

/// A key is good for two requests a second, and for thirty at once; its numbers are as they are told.
pub proof fn law_keys_are_good_for_so_many_requests(limiter: KeyRateLimiter)
    requires
        call_ensures(new_rate_limiter, (), limiter),
    ensures
        quota_of(limiter) == (120u32, 30u32),
        MAX_ACTIVE_KEYS_PER_GUILD == 10,
        SCOPE_USERS_READ@ == "users:read"@,
{
}

} // verus!
