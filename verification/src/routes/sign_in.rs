//! A sign-in from its state to the link that it makes: what is kept of it in the database, and that
//! a state serves once, an account is linked once, and nothing is kept of a viewer's tokens.

use vstd::prelude::*;

use crate::error::ErrorView;
use crate::json::string_opt;
use crate::routes::oauth::{already_linked, is_og, state_error, Flow, OauthState, OG_USER_ID_THRESHOLD};
use crate::services::kick::KickUser;
use crate::time::Timestamp;

verus! {

/// The statement that takes out the state that a sign-in was begun with; `$1` is the state.
pub const CONSUME_STATE: &'static str = "DELETE FROM kick_oauth_states \
    WHERE state = $1 AND expires_at > now() \
    RETURNING code_verifier, flow, discord_id, guild_id";

/// The statement that links a viewer's account; its parameters are the fields of a link, in order.
pub const LINK_VIEWER: &'static str = "INSERT INTO kick_users (\
    discord_id, kick_user_id, kick_username, kick_created_at, is_og, discord_name, linked_at, refreshed_at\
    ) VALUES ($1,$2,$3,$4,$5,$6, now(), now()) \
    ON CONFLICT (discord_id) DO UPDATE SET \
    kick_user_id = EXCLUDED.kick_user_id, \
    kick_username = EXCLUDED.kick_username, \
    kick_created_at = EXCLUDED.kick_created_at, \
    is_og = EXCLUDED.is_og, \
    discord_name = COALESCE(EXCLUDED.discord_name, kick_users.discord_name), \
    refreshed_at = now()";

/// A viewer's link, as it is written.
#[derive(Debug)]
pub struct ViewerLink {
    pub discord_id: String,
    pub kick_user_id: i64,
    pub kick_username: String,
    /// When the account was made. Kick does not say; it is held to be new.
    pub kick_created_at: Timestamp,
    pub is_og: bool,
    /// The name on Discord, where it is known.
    pub discord_name: Option<String>,
}

/// What a link is.
pub struct LinkView {
    pub discord_id: Seq<char>,
    pub kick_user_id: i64,
    pub kick_username: Seq<char>,
    pub kick_created_at: Timestamp,
    pub is_og: bool,
    pub discord_name: Option<Seq<char>>,
}

impl View for ViewerLink {
    type V = LinkView;

    open spec fn view(&self) -> LinkView {
        LinkView {
            discord_id: self.discord_id@,
            kick_user_id: self.kick_user_id,
            kick_username: self.kick_username@,
            kick_created_at: self.kick_created_at,
            is_og: self.is_og,
            discord_name: string_opt(self.discord_name),
        }
    }
}

/// The link that a sign-in makes, at the instant `now`.
pub open spec fn link_of(row: OauthState, user: KickUser, discord_name: Option<Seq<char>>, now: Timestamp) -> LinkView {
    LinkView {
        discord_id: row.discord_id@,
        kick_user_id: user.user_id,
        kick_username: user.name@,
        kick_created_at: now,
        is_og: user.user_id < OG_USER_ID_THRESHOLD,
        discord_name,
    }
}

/// The link that a sign-in makes, at the instant `now`. It is made of who signed in and of the
/// account, and of no token.
pub fn viewer_link(row: &OauthState, user: &KickUser, discord_name: Option<String>, now: Timestamp) -> (r: ViewerLink)
    ensures
        r@ == link_of(*row, *user, string_opt(discord_name), now),
{
    ViewerLink {
        discord_id: row.discord_id.clone(),
        kick_user_id: user.user_id,
        kick_username: user.name.clone(),
        kick_created_at: now,
        is_og: is_og(user.user_id),
        discord_name,
    }
}

/// A state that is kept, and when it is too late.
pub struct KeptState {
    pub row: OauthState,
    pub expires_at: Timestamp,
}

/// A linked account, as it is kept.
pub struct LinkedViewer {
    pub kick_user_id: i64,
    pub kick_username: Seq<char>,
    pub kick_created_at: Timestamp,
    pub is_og: bool,
    pub discord_name: Option<Seq<char>>,
    pub linked_at: Timestamp,
    pub refreshed_at: Timestamp,
}

/// The tables that a sign-in reads and writes: the states, and the links by Discord account.
pub struct SignIns {
    pub states: Map<Seq<char>, KeptState>,
    pub links: Map<Seq<char>, LinkedViewer>,
}

/// What the statement that takes out a state finds, at the instant `now`.
pub open spec fn found_state(states: Map<Seq<char>, KeptState>, state: Seq<char>, now: Timestamp) -> Option<OauthState> {
    if states.dom().contains(state) && !states[state].expires_at.not_after(now) {
        Some(states[state].row)
    } else {
        None
    }
}

/// The states after the statement was carried out, at the instant `now`.
pub open spec fn after_consuming(
    states: Map<Seq<char>, KeptState>,
    state: Seq<char>,
    now: Timestamp,
) -> Map<Seq<char>, KeptState> {
    if found_state(states, state, now) is Some {
        states.remove(state)
    } else {
        states
    }
}

/// Whether the account is linked to someone else.
pub open spec fn taken(links: Map<Seq<char>, LinkedViewer>, link: LinkView) -> bool {
    exists|d: Seq<char>|
        #[trigger] links.dom().contains(d) && d != link.discord_id && links[d].kick_user_id == link.kick_user_id
}

/// The links after the statement that links an account was carried out, at the instant `now`. One
/// that is linked to someone else is not linked again; a name and the day of the first link stay
/// where there is nothing newer.
pub open spec fn after_linking(
    links: Map<Seq<char>, LinkedViewer>,
    link: LinkView,
    now: Timestamp,
) -> Map<Seq<char>, LinkedViewer> {
    if taken(links, link) {
        links
    } else {
        let known = links.dom().contains(link.discord_id);
        links.insert(
            link.discord_id,
            LinkedViewer {
                kick_user_id: link.kick_user_id,
                kick_username: link.kick_username,
                kick_created_at: link.kick_created_at,
                is_og: link.is_og,
                discord_name: if link.discord_name is None && known {
                    links[link.discord_id].discord_name
                } else {
                    link.discord_name
                },
                linked_at: if known {
                    links[link.discord_id].linked_at
                } else {
                    now
                },
                refreshed_at: now,
            },
        )
    }
}

/// How a viewer's sign-in ends, and what it leaves behind: the state is looked for at the instant
/// `at`, and where Kick then names an account, that is linked at the instant `now`.
pub open spec fn viewer_ending(
    t: SignIns,
    state: Seq<char>,
    at: Timestamp,
    account: Result<KickUser, ErrorView>,
    discord_name: Option<Seq<char>>,
    now: Timestamp,
) -> (Option<ErrorView>, SignIns) {
    let found = found_state(t.states, state, at);
    let left = SignIns { states: after_consuming(t.states, state, at), links: t.links };
    match state_error(Flow::Viewer, found) {
        Some(e) => (Some(e), left),
        None => match account {
            Err(e) => (Some(e), left),
            Ok(user) => {
                let link = link_of(found->0, user, discord_name, now);
                let error = if taken(t.links, link) {
                    Some(already_linked(user.name@))
                } else {
                    None
                };
                (error, SignIns { links: after_linking(t.links, link, now), ..left })
            },
        },
    }
}

/// A state serves once: whoever comes back with it a second time is refused, whatever came of the
/// first time, and whichever of the two ways to sign in it is. No other state is touched.
pub proof fn law_a_state_serves_once(
    states: Map<Seq<char>, KeptState>,
    state: Seq<char>,
    other: Seq<char>,
    flow: Flow,
    first: Timestamp,
    again: Timestamp,
)
    requires
        first.not_after(again),
        other != state,
    ensures
        ({
            let left = after_consuming(states, state, first);
            &&& found_state(left, state, again) is None
            &&& state_error(flow, found_state(left, state, again)) == Some(ErrorView::BadRequest(flow.expired()))
            &&& found_state(left, other, again) == found_state(states, other, again)
        }),
{
}

/// A viewer who comes back a second time with the same state is refused, and the links stay as the
/// first time left them.
pub proof fn law_a_second_callback_is_refused(
    t: SignIns,
    state: Seq<char>,
    first: Timestamp,
    again: Timestamp,
    accounts: (Result<KickUser, ErrorView>, Result<KickUser, ErrorView>),
    names: (Option<Seq<char>>, Option<Seq<char>>),
    instants: (Timestamp, Timestamp),
)
    requires
        first.not_after(again),
    ensures
        ({
            let left = viewer_ending(t, state, first, accounts.0, names.0, instants.0).1;
            viewer_ending(left, state, again, accounts.1, names.1, instants.1) == (
                Some(ErrorView::BadRequest(Flow::Viewer.expired())),
                left,
            )
        }),
{
}

/// A sign-in that is refused changes no link. One whose state is not known, too old or of the other
/// way to sign in is refused as a bad request.
pub proof fn law_a_refused_sign_in_changes_no_link(
    t: SignIns,
    state: Seq<char>,
    at: Timestamp,
    account: Result<KickUser, ErrorView>,
    discord_name: Option<Seq<char>>,
    now: Timestamp,
)
    ensures
        ({
            let (error, left) = viewer_ending(t, state, at, account, discord_name, now);
            let found = found_state(t.states, state, at);
            &&& error is Some ==> left.links == t.links
            &&& found is None || found->0.flow@ != Flow::Viewer.key() ==> error is Some && error->0 is BadRequest
        }),
{
}

/// Whether no account is linked to two members.
pub open spec fn linked_once(links: Map<Seq<char>, LinkedViewer>) -> bool {
    forall|a: Seq<char>, b: Seq<char>|
        #[trigger] links.dom().contains(a) && #[trigger] links.dom().contains(b) && a != b ==> links[a].kick_user_id
            != links[b].kick_user_id
}

/// No account is ever linked to two members: one that is linked to someone else is refused, and both
/// links stay as they were.
pub proof fn law_accounts_are_linked_once(
    t: SignIns,
    state: Seq<char>,
    at: Timestamp,
    user: KickUser,
    discord_name: Option<Seq<char>>,
    now: Timestamp,
)
    requires
        linked_once(t.links),
    ensures
        ({
            let (error, left) = viewer_ending(t, state, at, Ok(user), discord_name, now);
            let found = found_state(t.states, state, at);
            &&& linked_once(left.links)
            &&& state_error(Flow::Viewer, found) is None && taken(
                t.links,
                link_of(found->0, user, discord_name, now),
            ) ==> error == Some(already_linked(user.name@)) && left.links == t.links
        }),
{
}

/// A sign-in whose state serves and whose account is free links the account to the Discord account that
/// began it: with the account's number and name, linked since now or since it first was, and no other
/// link is touched.
pub proof fn law_a_sign_in_links_the_account(
    t: SignIns,
    state: Seq<char>,
    at: Timestamp,
    user: KickUser,
    discord_name: Option<Seq<char>>,
    now: Timestamp,
    other: Seq<char>,
)
    requires
        state_error(Flow::Viewer, found_state(t.states, state, at)) is None,
        !taken(t.links, link_of(found_state(t.states, state, at)->0, user, discord_name, now)),
        other != found_state(t.states, state, at)->0.discord_id@,
    ensures
        ({
            let me = found_state(t.states, state, at)->0.discord_id@;
            let (error, left) = viewer_ending(t, state, at, Ok(user), discord_name, now);
            &&& error is None
            &&& left.links.dom().contains(me)
            &&& left.links[me].kick_user_id == user.user_id
            &&& left.links[me].kick_username == user.name@
            &&& left.links[me].is_og == (user.user_id < 1_000_000)
            &&& left.links[me].refreshed_at == now
            &&& discord_name is Some ==> left.links[me].discord_name == discord_name
            &&& !t.links.dom().contains(me) ==> left.links[me].linked_at == now
            &&& t.links.dom().contains(me) ==> left.links[me].linked_at == t.links[me].linked_at
            &&& left.links.dom().contains(other) == t.links.dom().contains(other)
            &&& t.links.dom().contains(other) ==> left.links[other] == t.links[other]
            &&& !left.states.dom().contains(state)
        }),
{
}

/// A state is found by its own value, and until the instant at which it ends; what is found is what was
/// kept.
pub proof fn law_a_state_is_found_until_it_ends(
    states: Map<Seq<char>, KeptState>,
    state: Seq<char>,
    now: Timestamp,
)
    ensures
        found_state(states, state, now) is Some <==> states.dom().contains(state) && (now.secs
            < states[state].expires_at.secs || (now.secs == states[state].expires_at.secs && now.nanos
            < states[state].expires_at.nanos)),
        found_state(states, state, now) is Some ==> found_state(states, state, now)->0 == states[state].row,
{
}

} // verus!
