//! Reading a channel's user card: what it says of a viewer, or why it says nothing.
//!
//! Three answers are told apart: the viewer follows, the viewer does not, and no answer at all.
//! Only the first two are evidence of anything.

use vstd::prelude::*;
use vstd::string::*;
use vstd::utf8::*;

use crate::json::{json_text, jsons, parse_text, reading, Json, JsonView};
use crate::text::{
    chars_of, eq_ignore_ascii_case, in_range, lowered, parse_i64, signed_numeral, str_eq, trim, trim_end_char,
    trimmed, without_trailing,
};
use crate::time::{naive_utc, parse_naive_utc, parse_rfc3339, rfc3339, valid_opt, Timestamp};
use crate::url::{
    encode_segment, law_plain_text_is_its_own_encoding, percent_encoded, segment_byte,
};

verus! {

/// What a card says.
#[derive(Debug, Clone, Copy)]
pub struct CardFacts {
    pub is_following: bool,
    /// When the follow began, where the card gives a time that can be read.
    pub following_since: Option<Timestamp>,
    /// Months subscribed; 0 where there is no subscription.
    pub subscribed_for_months: i64,
    pub is_subscriber: bool,
    pub is_vip: bool,
    pub is_moderator: bool,
    pub is_og: bool,
}

/// The card of a viewer who has nothing to do with the channel.
pub open spec fn blank_card() -> CardFacts {
    CardFacts {
        is_following: false,
        following_since: None,
        subscribed_for_months: 0,
        is_subscriber: false,
        is_vip: false,
        is_moderator: false,
        is_og: false,
    }
}

impl Default for CardFacts {
    fn default() -> (r: Self)
        ensures
            r == blank_card(),
    {
        CardFacts {
            is_following: false,
            following_since: None,
            subscribed_for_months: 0,
            is_subscriber: false,
            is_vip: false,
            is_moderator: false,
            is_og: false,
        }
    }
}

/// What a probe learned.
#[derive(Debug, Clone)]
pub enum ProbeOutcome {
    /// A card that can be trusted in both directions.
    Usable(CardFacts),
    /// No answer, and why. Never evidence of anything.
    Unavailable(String),
}

/// What an outcome is.
pub enum OutcomeView {
    Usable(CardFacts),
    Unavailable(Seq<char>),
}

impl View for ProbeOutcome {
    type V = OutcomeView;

    open spec fn view(&self) -> OutcomeView {
        match *self {
            ProbeOutcome::Usable(f) => OutcomeView::Usable(f),
            ProbeOutcome::Unavailable(s) => OutcomeView::Unavailable(s@),
        }
    }
}

/// A character that identifiers on Kick are made of.
pub open spec fn is_safe_char(c: char) -> bool {
    ||| '0' <= c && c <= '9'
    ||| 'A' <= c && c <= 'Z'
    ||| 'a' <= c && c <= 'z'
    ||| c == '_'
    ||| c == '-'
    ||| c == '.'
}

/// Whether a text can stand as a path segment: 1 to 64 of the characters that identifiers are
/// made of, and neither of the two segments that stand for another place in the path.
pub open spec fn safe_segment(s: Seq<char>) -> bool {
    &&& 1 <= s.len() <= 64
    &&& s != "."@
    &&& s != ".."@
    &&& forall|i: int| 0 <= i < s.len() ==> is_safe_char(#[trigger] s[i])
}

/// Whether a slug or a username can stand as a path segment.
pub fn is_safe_segment(s: &str) -> (r: bool)
    ensures
        r == safe_segment(s@),
{
    let chars = chars_of(s);
    if chars.len() == 0 || chars.len() > 64 || str_eq(s, ".") || str_eq(s, "..") {
        return false;
    }
    let mut i: usize = 0;
    while i < chars.len()
        invariant
            i <= chars.len(),
            chars@ == s@,
            1 <= chars.len() <= 64,
            s@ != "."@,
            s@ != ".."@,
            forall|j: int| 0 <= j < i ==> is_safe_char(#[trigger] s@[j]),
        decreases chars.len() - i,
    {
        let c = chars[i];
        let safe = ('0' <= c && c <= '9') || ('A' <= c && c <= 'Z') || ('a' <= c && c <= 'z') || c == '_' || c
            == '-' || c == '.';
        if !safe {
            assert(!is_safe_char(s@[i as int]));
            return false;
        }
        i = i + 1;
    }
    true
}

/// A safe segment needs no encoding, holds no separator, and does not climb: it is one segment of
/// the path, and the one that was meant.
pub proof fn law_safe_segment_stands_as_it_is(s: Seq<char>)
    requires
        safe_segment(s),
    ensures
        percent_encoded(encode_utf8(s)) == s,
        s != "."@,
        s != ".."@,
        !s.contains('/'),
        !s.contains('%'),
        !s.contains('?'),
        !s.contains('#'),
{
    assert(is_ascii_chars(s)) by {
        assert forall|i: int| 0 <= i < s.len() implies '\0' <= #[trigger] s[i] <= '\u{7f}' by {
            assert(is_safe_char(s[i]));
        }
    }
    is_ascii_chars_encode_utf8(s);
    let bytes = encode_utf8(s);
    assert forall|i: int| 0 <= i < bytes.len() implies (#[trigger] segment_byte(bytes[i])).len() == 1 by {
        assert(is_safe_char(s[i]));
        assert(s[i] as u8 == bytes[i]);
    }
    law_plain_text_is_its_own_encoding(s);
    assert forall|i: int| 0 <= i < s.len() implies s[i] != '/' && s[i] != '%' && s[i] != '?' && s[i] != '#' by {
        assert(is_safe_char(s[i]));
    }
}

/// The address of a viewer's card on a channel.
pub open spec fn card_url(base: Seq<char>, slug: Seq<char>, username: Seq<char>) -> Seq<char> {
    base + "/api/v2/channels/"@ + percent_encoded(encode_utf8(slug)) + "/users/"@ + percent_encoded(
        encode_utf8(username),
    )
}

/// Where cards are read, and how often at most.
#[derive(Debug, Clone)]
pub struct FollowProbe {
    /// The site, without a slash at its end.
    pub base: String,
    /// Requests per minute.
    pub rpm: u32,
}

impl FollowProbe {
    /// The probe for a site, with a budget of at least one request per minute.
    pub fn new(base: String, rpm: u32) -> (r: Self)
        ensures
            r.base@ == without_trailing(base@, '/'),
            r.rpm == (if rpm == 0 {
                1u32
            } else {
                rpm
            }),
    {
        FollowProbe {
            base: trim_end_char(base.as_str(), '/'),
            rpm: if rpm == 0 {
                1
            } else {
                rpm
            },
        }
    }

    /// The address to read, or the outcome where a name cannot stand in it.
    pub fn request(&self, slug: &str, username: &str) -> (r: Result<String, ProbeOutcome>)
        ensures
            r is Ok <==> safe_segment(slug@) && safe_segment(username@),
            match r {
                Ok(url) => url@ == card_url(self.base@, slug@, username@),
                Err(outcome) => outcome@ == OutcomeView::Unavailable("slug/username not URL-safe"@),
            },
    {
        if !is_safe_segment(slug) || !is_safe_segment(username) {
            return Err(ProbeOutcome::Unavailable("slug/username not URL-safe".to_owned()));
        }
        let slug = encode_segment(slug);
        let username = encode_segment(username);
        Ok(
            self.base.clone().concat("/api/v2/channels/").concat(slug.as_str()).concat("/users/").concat(
                username.as_str(),
            ),
        )
    }
}

/// The member of a card: under `data` where that is an object, else the body itself.
pub open spec fn card_of(body: JsonView) -> JsonView {
    match body.get("data"@) {
        Some(JsonView::Object(m)) => JsonView::Object(m),
        _ => body,
    }
}

/// Whether an element of the badges is of the named type, whatever its case.
pub open spec fn is_badge(badge: JsonView, name: Seq<char>) -> bool {
    match badge.str_at("type"@) {
        Some(t) => lowered(t) == lowered(name),
        None => false,
    }
}

/// Whether one of the badges is of the named type.
pub open spec fn any_badge(badges: Seq<JsonView>, name: Seq<char>) -> bool {
    exists|i: int| 0 <= i < badges.len() && is_badge(#[trigger] badges[i], name)
}

/// Whether the card shows a badge of the named type.
pub open spec fn has_badge(card: JsonView, name: Seq<char>) -> bool {
    match card.array_at("badges"@) {
        Some(badges) => any_badge(badges, name),
        None => false,
    }
}

/// The months subscribed that a card gives, as a number or as a numeral.
pub open spec fn card_months(card: JsonView) -> int {
    let months = match card.get("subscribed_for"@) {
        Some(JsonView::Int(n)) => n as int,
        Some(JsonView::Str(s)) => match in_range(signed_numeral(s), i64::MIN as int, i64::MAX as int) {
            Some(n) => n,
            None => 0,
        },
        _ => 0,
    };
    if months > 0 {
        months
    } else {
        0
    }
}

/// What a card says, given the time at which it has the follow begin.
pub open spec fn facts_given(card: JsonView, since: Option<Timestamp>) -> CardFacts {
    CardFacts {
        is_following: card.get("following_since"@) is Some && card.get("following_since"@)->0 !is Null,
        following_since: since,
        subscribed_for_months: card_months(card) as i64,
        is_subscriber: has_badge(card, "subscriber"@) || has_badge(card, "founder"@) || card_months(card) > 0,
        is_vip: has_badge(card, "vip"@),
        is_moderator: has_badge(card, "moderator"@) || card.bool_at("is_moderator"@) == Some(true),
        is_og: has_badge(card, "og"@),
    }
}

/// What a body says, given the time at which its card has the follow begin. A body that is no
/// card is no answer; above all one without `following_since`, which says nothing of the follow.
pub open spec fn outcome_given(body: Result<JsonView, Seq<char>>, since: Option<Timestamp>) -> OutcomeView {
    match body {
        Err(e) => OutcomeView::Unavailable("non-JSON body: "@ + e),
        Ok(json) => if card_of(json) !is Object {
            OutcomeView::Unavailable("body was not a JSON object"@)
        } else if card_of(json).get("following_since"@) is None {
            OutcomeView::Unavailable("card missing `following_since` field"@)
        } else {
            OutcomeView::Usable(facts_given(card_of(json), since))
        },
    }
}

/// The instant that a text writes in one of the forms that Kick has used.
pub open spec fn written_time(s: Seq<char>) -> Option<Timestamp> {
    if s.len() == 0 {
        None
    } else if rfc3339(s) is Some {
        rfc3339(s)
    } else if naive_utc(s, "%Y-%m-%d %H:%M:%S%.f"@) is Some {
        naive_utc(s, "%Y-%m-%d %H:%M:%S%.f"@)
    } else {
        naive_utc(s, "%Y-%m-%dT%H:%M:%S%.f"@)
    }
}

/// The instant that a JSON value gives.
pub open spec fn kick_time(v: JsonView) -> Option<Timestamp> {
    match v {
        JsonView::Str(s) => written_time(trimmed(s)),
        _ => None,
    }
}

/// The time at which a body's card has the follow begin.
pub open spec fn card_since(body: Result<JsonView, Seq<char>>) -> Option<Timestamp> {
    match body {
        Ok(json) => match card_of(json).get("following_since"@) {
            Some(v) => kick_time(v),
            None => None,
        },
        Err(_) => None,
    }
}

/// The instant that a JSON value gives.
pub fn parse_kick_timestamp(v: &Json) -> (r: Option<Timestamp>)
    ensures
        r == kick_time(v@),
        valid_opt(r),
{
    match v.as_str() {
        Some(s) => {
            let s = trim(s);
            let s = s.as_str();
            if s.unicode_len() == 0 {
                return None;
            }
            if let Some(t) = parse_rfc3339(s) {
                return Some(t);
            }
            if let Some(t) = parse_naive_utc(s, "%Y-%m-%d %H:%M:%S%.f") {
                return Some(t);
            }
            parse_naive_utc(s, "%Y-%m-%dT%H:%M:%S%.f")
        },
        None => None,
    }
}

/// The card in a body.
fn find_card(body: &Json) -> (r: &Json)
    ensures
        r@ == card_of(body@),
{
    match body.get("data") {
        Some(d) => match d {
            Json::Object(_) => d,
            _ => body,
        },
        None => body,
    }
}

/// Whether the card shows a badge of the named type.
fn badge_shown(card: &Json, name: &str) -> (r: bool)
    ensures
        r == has_badge(card@, name@),
{
    match card.array_at("badges") {
        Some(badges) => {
            let ghost all = jsons(badges@);
            let mut i: usize = 0;
            while i < badges.len()
                invariant
                    i <= badges.len(),
                    all == jsons(badges@),
                    card@.array_at("badges"@) == Some(all),
                    forall|j: int| 0 <= j < i ==> !is_badge(#[trigger] all[j], name@),
                decreases badges.len() - i,
            {
                assert(all[i as int] == badges@[i as int]@);
                if let Some(t) = badges[i].str_at("type") {
                    if eq_ignore_ascii_case(t, name) {
                        assert(any_badge(all, name@));
                        return true;
                    }
                }
                i = i + 1;
            }
            false
        },
        None => false,
    }
}

/// What a card says, given the time at which it has the follow begin.
pub fn read_facts(card: &Json, since: Option<Timestamp>) -> (r: CardFacts)
    ensures
        r == facts_given(card@, since),
{
    let is_following = match card.get("following_since") {
        Some(v) => !matches!(v, Json::Null),
        None => false,
    };
    let months: i64 = match card.get("subscribed_for") {
        Some(v) => match v.as_i64() {
            Some(n) => n,
            None => match v.as_str() {
                Some(s) => match parse_i64(s) {
                    Some(n) => n,
                    None => 0,
                },
                None => 0,
            },
        },
        None => 0,
    };
    let months: i64 = if months > 0 {
        months
    } else {
        0
    };
    let flagged = match card.bool_at("is_moderator") {
        Some(b) => b,
        None => false,
    };
    CardFacts {
        is_following,
        following_since: since,
        subscribed_for_months: months,
        is_subscriber: badge_shown(card, "subscriber") || badge_shown(card, "founder") || months > 0,
        is_vip: badge_shown(card, "vip"),
        is_moderator: badge_shown(card, "moderator") || flagged,
        is_og: badge_shown(card, "og"),
    }
}

/// What a body, read as JSON, says.
pub fn read_card(body: Result<Json, String>) -> (r: ProbeOutcome)
    ensures
        r@ == outcome_given(reading(body), card_since(reading(body))),
        r matches ProbeOutcome::Usable(f) ==> valid_opt(f.following_since),
{
    let json = match body {
        Ok(json) => json,
        Err(e) => return ProbeOutcome::Unavailable("non-JSON body: ".to_owned().concat(e.as_str())),
    };
    let card = find_card(&json);
    match card {
        Json::Object(_) => {},
        _ => return ProbeOutcome::Unavailable("body was not a JSON object".to_owned()),
    }
    match card.get("following_since") {
        Some(v) => {
            let since = parse_kick_timestamp(v);
            ProbeOutcome::Usable(read_facts(card, since))
        },
        None => ProbeOutcome::Unavailable("card missing `following_since` field".to_owned()),
    }
}

/// What the body of a card says, or why it cannot be used.
pub fn parse_card(body: &str) -> (r: ProbeOutcome)
    ensures
        r@ == outcome_given(json_text(body@), card_since(json_text(body@))),
        r matches ProbeOutcome::Usable(f) ==> valid_opt(f.following_since),
{
    read_card(parse_text(body))
}

/// What came back from a request for a card.
#[derive(Debug, Clone)]
pub enum CardResponse {
    /// The request failed, and how.
    Failed(String),
    /// An answer with a status that is not a success.
    Refused(String),
    /// The answer's body could not be read, and why.
    Unreadable(String),
    /// The answer's body.
    Body(String),
}

/// What came back from a request says. Only a body can be an answer.
pub open spec fn response_outcome(response: CardResponse) -> OutcomeView {
    match response {
        CardResponse::Failed(e) => OutcomeView::Unavailable("request failed: "@ + e@),
        CardResponse::Refused(status) => OutcomeView::Unavailable("http "@ + status@),
        CardResponse::Unreadable(e) => OutcomeView::Unavailable("body read failed: "@ + e@),
        CardResponse::Body(body) => outcome_given(json_text(body@), card_since(json_text(body@))),
    }
}

/// What came back from a request says.
pub fn read_response(response: CardResponse) -> (r: ProbeOutcome)
    ensures
        r@ == response_outcome(response),
        r matches ProbeOutcome::Usable(f) ==> valid_opt(f.following_since),
{
    match response {
        CardResponse::Failed(e) => ProbeOutcome::Unavailable(
            "request failed: ".to_owned().concat(e.as_str()),
        ),
        CardResponse::Refused(status) => ProbeOutcome::Unavailable(
            "http ".to_owned().concat(status.as_str()),
        ),
        CardResponse::Unreadable(e) => ProbeOutcome::Unavailable(
            "body read failed: ".to_owned().concat(e.as_str()),
        ),
        CardResponse::Body(body) => parse_card(body.as_str()),
    }
}

/// A viewer is said not to follow only by a card that has `following_since`, with null in it:
/// whatever else comes back is no such answer.
pub proof fn law_only_an_explicit_null_says_not_following(
    body: Result<JsonView, Seq<char>>,
    since: Option<Timestamp>,
)
    ensures
        outcome_given(body, since) matches OutcomeView::Usable(f) ==> {
            &&& body is Ok
            &&& card_of(body->Ok_0).get("following_since"@) is Some
            &&& !f.is_following <==> card_of(body->Ok_0).get("following_since"@) == Some(JsonView::Null)
        },
{
}

} // verus!
