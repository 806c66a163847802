//! What a card's members and badges come to, from the body to the row.

use vstd::prelude::*;
use vstd::string::*;

use crate::json::{json_text, JsonView};
use crate::services::follow_sync::{decided, write_of, RelationRow, RowWrite, Standing};
use crate::services::kick_probe::{
    any_badge, card_months, card_of, card_since, facts_given, has_badge, is_badge, kick_time,
    law_safe_segment_stands_as_it_is, outcome_given, response_outcome, safe_segment, CardFacts, CardResponse,
    FollowProbe, OutcomeView, ProbeOutcome,
};
use crate::services::relation::Relation;
use crate::text::{law_numerals_read_back, lowered, signed_decimal, trimmed, without_trailing};
use crate::time::{elapsed_nanos, naive_utc, rfc3339, Timestamp};

verus! {

/// Whether a card has, among its badges, one of this type, in whatever case.
pub open spec fn shows(card: JsonView, kind: Seq<char>) -> bool {
    match card.get("badges"@) {
        Some(JsonView::Array(list)) => exists|i: int|
            0 <= i < list.len() && of_kind(#[trigger] list[i], kind),
        _ => false,
    }
}

/// Whether a badge is of this type, in whatever case.
pub open spec fn of_kind(badge: JsonView, kind: Seq<char>) -> bool {
    badge.get("type"@) matches Some(JsonView::Str(t)) && lowered(t) == kind
}

proof fn lemma_small_letters()
    ensures
        lowered("vip"@) == "vip"@,
        lowered("og"@) == "og"@,
        lowered("moderator"@) == "moderator"@,
        lowered("subscriber"@) == "subscriber"@,
        lowered("founder"@) == "founder"@,
{
    reveal_strlit("vip");
    reveal_strlit("og");
    reveal_strlit("moderator");
    reveal_strlit("subscriber");
    reveal_strlit("founder");
    assert(lowered("vip"@) =~= "vip"@);
    assert(lowered("og"@) =~= "og"@);
    assert(lowered("moderator"@) =~= "moderator"@);
    assert(lowered("subscriber"@) =~= "subscriber"@);
    assert(lowered("founder"@) =~= "founder"@);
}

proof fn lemma_shows(card: JsonView, kind: Seq<char>)
    requires
        lowered(kind) == kind,
    ensures
        has_badge(card, kind) == shows(card, kind),
{
    if let Some(JsonView::Array(list)) = card.get("badges"@) {
        assert forall|i: int| 0 <= i < list.len() implies is_badge(#[trigger] list[i], kind) == of_kind(
            list[i],
            kind,
        ) by {}
        if any_badge(list, kind) {
            let i = choose|i: int| 0 <= i < list.len() && is_badge(#[trigger] list[i], kind);
            assert(of_kind(list[i], kind));
        }
        if shows(card, kind) {
            let i = choose|i: int| 0 <= i < list.len() && of_kind(#[trigger] list[i], kind);
            assert(is_badge(list[i], kind));
        }
    }
}

/// A card is taken at its badges: who has the one of type `vip` is a VIP, who has that of type `og`
/// an OG, and who has that of type `moderator`, or the flag `is_moderator`, a moderator. A badge of
/// a subscriber or of a founder, or a month subscribed, makes a subscriber.
pub proof fn law_a_card_is_taken_at_its_badges(card: JsonView, since: Option<Timestamp>)
    ensures
        ({
            let f = facts_given(card, since);
            let flagged = card.get("is_moderator"@) == Some(JsonView::Bool(true));
            &&& f.is_vip == shows(card, "vip"@)
            &&& f.is_og == shows(card, "og"@)
            &&& f.is_moderator == (shows(card, "moderator"@) || flagged)
            &&& f.is_subscriber == (shows(card, "subscriber"@) || shows(card, "founder"@) || f.subscribed_for_months
                > 0)
        }),
{
    lemma_small_letters();
    lemma_shows(card, "vip"@);
    lemma_shows(card, "og"@);
    lemma_shows(card, "moderator"@);
    lemma_shows(card, "subscriber"@);
    lemma_shows(card, "founder"@);
    lemma_months_in_range(card);
}

proof fn lemma_months_in_range(card: JsonView)
    ensures
        0 <= card_months(card) <= i64::MAX,
{
}

/// A card whose badges are all of one type sets the flag of that type and no other.
pub proof fn law_one_kind_of_badge_sets_one_flag(
    card: JsonView,
    since: Option<Timestamp>,
    list: Seq<JsonView>,
    kind: Seq<char>,
)
    requires
        card.get("badges"@) == Some(JsonView::Array(list)),
        list.len() > 0,
        forall|i: int| 0 <= i < list.len() ==> of_kind(#[trigger] list[i], kind),
        card.get("is_moderator"@) != Some(JsonView::Bool(true)),
        card.get("subscribed_for"@) is None,
    ensures
        facts_given(card, since).is_vip == (kind == "vip"@),
        facts_given(card, since).is_og == (kind == "og"@),
        facts_given(card, since).is_moderator == (kind == "moderator"@),
        facts_given(card, since).is_subscriber == (kind == "subscriber"@ || kind == "founder"@),
{
    law_a_card_is_taken_at_its_badges(card, since);
    assert(of_kind(list[0], kind));
    assert forall|other: Seq<char>| other != kind implies !#[trigger] shows(card, other) by {}
    assert(shows(card, kind));
}

/// A card says that the viewer follows where `following_since` is there and not null, and since when;
/// and how long the viewer has subscribed for, as a number or as its numeral. What is not there, or
/// below none, is none.
pub proof fn law_a_card_gives_its_follow_and_months(card: JsonView, since: Option<Timestamp>, n: i64)
    ensures
        facts_given(card, since).is_following == (card.get("following_since"@) is Some && card.get(
            "following_since"@,
        ) != Some(JsonView::Null)),
        facts_given(card, since).following_since == since,
        card.get("subscribed_for"@) == Some(JsonView::Int(n)) || card.get("subscribed_for"@) == Some(
            JsonView::Str(signed_decimal(n as int)),
        ) ==> facts_given(card, since).subscribed_for_months == (if n > 0 {
            n
        } else {
            0
        }),
        card.get("subscribed_for"@) is None ==> facts_given(card, since).subscribed_for_months == 0,
{
    law_numerals_read_back(n as int);
}

/// A body that wraps the card in `data` says what the card alone says.
pub proof fn law_a_card_may_be_wrapped(body: JsonView, card: JsonView)
    requires
        body.get("data"@) == Some(card),
        card is Object,
        !(card.get("data"@) matches Some(JsonView::Object(_))),
    ensures
        card_of(body) == card,
        card_of(card) == card,
        outcome_given(Ok(body), card_since(Ok(body))) == outcome_given(Ok(card), card_since(Ok(card))),
        card_since(Ok(body)) == (match card.get("following_since"@) {
            Some(v) => kick_time(v),
            None => None,
        }),
{
}

/// What a card shows is added to the row of this viewer and channel: each flag by the badge of its
/// own type, and nothing but the follow is ever taken away. The months grow to those of the card.
pub proof fn law_a_probe_adds_what_its_card_shows(
    viewer: i64,
    row: RelationRow,
    card: JsonView,
    confirmations: i16,
    known: Relation,
    now: Timestamp,
)
    requires
        card is Object,
        !(card.get("data"@) matches Some(JsonView::Object(_))),
        card.get("following_since"@) is Some,
    ensures
        ({
            let outcome = outcome_given(Ok(card), card_since(Ok(card)));
            let flagged = card.get("is_moderator"@) == Some(JsonView::Bool(true));
            write_of(viewer, row, outcome, confirmations, now) matches RowWrite::Update(u) && {
                let after = known.updated(u, now);
                &&& u.kick_user_id == viewer
                &&& u.kick_channel_id == row.kick_channel_id
                &&& after.is_vip == (known.is_vip || shows(card, "vip"@))
                &&& after.is_og == (known.is_og || shows(card, "og"@))
                &&& after.is_moderator == (known.is_moderator || shows(card, "moderator"@) || flagged)
                &&& shows(card, "subscriber"@) || shows(card, "founder"@) ==> after.is_subscriber
                &&& known.is_subscriber ==> after.is_subscriber
                &&& after.sub_months_cumulative >= known.sub_months_cumulative
                &&& 0 <= card_months(card) <= i32::MAX ==> after.sub_months_cumulative >= card_months(card)
                &&& card.get("following_since"@) != Some(JsonView::Null) ==> after.is_follower
                    && after.follow_confirmed_at == Some(now) && after.follow_probe_misses == 0
                &&& after.is_follower && known.followed_at is Some ==> after.followed_at == known.followed_at
                &&& after.is_follower && known.followed_at is None ==> after.followed_at == (if card_since(Ok(card)) is Some {
                    card_since(Ok(card))
                } else {
                    Some(now)
                })
                &&& !after.is_follower ==> after.followed_at is None
                &&& after.follow_probed_at == Some(now)
                &&& after.kicks_donated == known.kicks_donated
                &&& after.gifted_subs_given == known.gifted_subs_given
                &&& after.chat_messages_30d == known.chat_messages_30d
                &&& after.sub_expires_at == known.sub_expires_at
            }
        }),
{
    law_a_card_is_taken_at_its_badges(card, card_since(Ok(card)));
    lemma_months_in_range(card);
}

/// A body that says nothing has the attempt noted for this viewer and channel, and nothing else.
pub proof fn law_no_answer_is_noted_as_an_attempt(
    viewer: i64,
    row: RelationRow,
    reason: Seq<char>,
    confirmations: i16,
    now: Timestamp,
)
    ensures
        write_of(viewer, row, OutcomeView::Unavailable(reason), confirmations, now) == (RowWrite::Attempt {
            kick_channel_id: row.kick_channel_id,
            kick_user_id: viewer,
        }),
{
}

/// A follow is taken away by a card without one, from someone who is held to follow, where six hours
/// have passed since the last miss that counted and this is the last of the misses that it takes; by
/// nothing else. A miss that counts is one more, and one that comes too early is none.
pub proof fn law_a_follow_is_taken_by_the_last_miss(s: Standing, f: CardFacts, confirmations: i16, now: Timestamp)
    requires
        s.misses < i16::MAX,
    ensures
        ({
            let d = decided(s, f, confirmations, now);
            let hours = 6 * 3600 * 1_000_000_000;
            let apart = s.missed_at is None || elapsed_nanos(now, s.missed_at->0) >= hours;
            let missed = s.is_follower && !f.is_following && apart;
            &&& d.removes_follow == (missed && s.misses + 1 >= confirmations)
            &&& d.is_follower == (f.is_following || (s.is_follower && !d.removes_follow))
            &&& d.counted_miss == missed
            &&& missed && !d.removes_follow ==> d.misses == s.misses + 1
            &&& s.is_follower && !f.is_following && !apart ==> d.misses == s.misses
            &&& f.is_following || d.removes_follow || !s.is_follower ==> d.misses == 0
        }),
{
}

/// Facts are said to change where a follow comes or goes, or a card shows what the row does not.
pub proof fn law_facts_change_where_a_card_tells_more(s: Standing, f: CardFacts, confirmations: i16, now: Timestamp)
    ensures
        ({
            let d = decided(s, f, confirmations, now);
            &&& d.is_follower != s.is_follower ==> d.changed_facts
            &&& f.is_subscriber && !s.is_subscriber ==> d.changed_facts
            &&& f.is_vip && !s.is_vip ==> d.changed_facts
            &&& f.is_moderator && !s.is_moderator ==> d.changed_facts
            &&& f.is_og && !s.is_og ==> d.changed_facts
            &&& f.subscribed_for_months > s.months ==> d.changed_facts
            &&& d.changed_facts ==> {
                ||| d.is_follower != s.is_follower
                ||| f.is_subscriber && !s.is_subscriber
                ||| f.is_vip && !s.is_vip
                ||| f.is_moderator && !s.is_moderator
                ||| f.is_og && !s.is_og
                ||| f.subscribed_for_months > s.months
            }
        }),
{
}

/// A card is asked for at the site, under the channel's name and the viewer's, where both are such as
/// names on Kick are; else nothing is asked. The site has no slash at its end, and at least one request
/// a minute is allowed.
pub proof fn law_a_card_is_asked_for_by_name(
    base: String,
    rpm: u32,
    probe: FollowProbe,
    slug: &str,
    username: &str,
    r: Result<String, ProbeOutcome>,
)
    requires
        call_ensures(FollowProbe::new, (base, rpm), probe),
        call_ensures(FollowProbe::request, (&probe, slug, username), r),
    ensures
        probe.base@ == without_trailing(base@, '/'),
        rpm >= 1 ==> probe.rpm == rpm,
        rpm == 0 ==> probe.rpm == 1,
        r is Ok <==> is_name(slug@) && is_name(username@),
        r is Ok ==> r->Ok_0@ == without_trailing(base@, '/') + "/api/v2/channels/"@ + slug@ + "/users/"@ + username@,
        r is Err ==> r->Err_0 is Unavailable,
{
    assert(safe_segment(slug@) == is_name(slug@));
    assert(safe_segment(username@) == is_name(username@));
    if r is Ok {
        law_safe_segment_stands_as_it_is(slug@);
        law_safe_segment_stands_as_it_is(username@);
    }
}

/// Whether a text is such as names on Kick are: up to 64 letters, digits, underscores, hyphens and full
/// stops, but not one or two full stops alone.
pub open spec fn is_name(s: Seq<char>) -> bool {
    &&& 1 <= s.len() <= 64
    &&& s != "."@
    &&& s != ".."@
    &&& forall|i: int|
        0 <= i < s.len() ==> {
            ||| '0' <= #[trigger] s[i] <= '9'
            ||| 'A' <= s[i] <= 'Z'
            ||| 'a' <= s[i] <= 'z'
            ||| s[i] == '_'
            ||| s[i] == '-'
            ||| s[i] == '.'
        }
}

/// Only a body is an answer: what failed, was refused or could not be read says nothing of the viewer.
pub proof fn law_only_a_body_is_an_answer(response: CardResponse)
    ensures
        response_outcome(response) is Usable ==> response is Body,
        response matches CardResponse::Body(body) ==> response_outcome(response) == outcome_given(
            json_text(body@),
            card_since(json_text(body@)),
        ),
        outcome_given(Err(seq![]), None) is Unavailable,
{
}

/// An instant is read in the first of the forms that Kick has used which the text is written in, without
/// the space around it; what is no text is none.
pub proof fn law_instants_are_read_in_the_forms_of_kick(s: Seq<char>, v: JsonView)
    ensures
        ({
            let t = trimmed(s);
            let read = kick_time(JsonView::Str(s));
            &&& t.len() == 0 ==> read is None
            &&& t.len() > 0 && rfc3339(t) is Some ==> read == rfc3339(t)
            &&& t.len() > 0 && rfc3339(t) is None && naive_utc(t, "%Y-%m-%d %H:%M:%S%.f"@) is Some ==> read
                == naive_utc(t, "%Y-%m-%d %H:%M:%S%.f"@)
            &&& t.len() > 0 && rfc3339(t) is None && naive_utc(t, "%Y-%m-%d %H:%M:%S%.f"@) is None ==> read
                == naive_utc(t, "%Y-%m-%dT%H:%M:%S%.f"@)
        }),
        !(v is Str) ==> kick_time(v) is None,
{
}

/// A blank card shows nothing.
pub proof fn law_a_blank_card_shows_nothing(r: CardFacts)
    requires
        call_ensures(<CardFacts as Default>::default, (), r),
    ensures
        !r.is_following && !r.is_subscriber && !r.is_vip && !r.is_moderator && !r.is_og,
        r.following_since is None,
        r.subscribed_for_months == 0,
{
}

} // verus!
