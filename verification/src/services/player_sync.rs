//! The round over one member, step by step, and what the member has after it.
//!
//! A lookup that fails ends the round with nothing changed.

use vstd::prelude::*;

use crate::error::{AppError, ErrorView};
use crate::models::facts::Facts;
use crate::services::role_sync::answer;
use crate::services::sync::{
    action_for, actions, actions_for, among, facts_opt, plan_player, qualifies, Action, ActionView, MemberView,
    RoleLink,
};
use crate::time::Timestamp;

verus! {

/// What is to be done next for a member.
#[derive(Debug)]
pub enum PlayerStep {
    /// Nothing.
    Stop,
    /// Report the failure.
    Fail(AppError),
    /// See that the member has a relation to each channel of the guilds, and look up the guilds'
    /// roles.
    LookAtRoles,
    /// Look up the member's facts where a rule needs them, and the roles that the member has.
    LookAtFacts,
    /// Give these roles and take those.
    Change(Vec<Action>),
}

/// What a step is.
pub enum PlayerStepView {
    Stop,
    Fail(ErrorView),
    LookAtRoles,
    LookAtFacts,
    Change(Seq<ActionView>),
}

impl View for PlayerStep {
    type V = PlayerStepView;

    open spec fn view(&self) -> PlayerStepView {
        match *self {
            PlayerStep::Stop => PlayerStepView::Stop,
            PlayerStep::Fail(e) => PlayerStepView::Fail(e@),
            PlayerStep::LookAtRoles => PlayerStepView::LookAtRoles,
            PlayerStep::LookAtFacts => PlayerStepView::LookAtFacts,
            PlayerStep::Change(list) => PlayerStepView::Change(actions(list@)),
        }
    }
}

/// The step once the member's guilds were asked for.
pub open spec fn guilds_step(guilds: Result<usize, ErrorView>) -> PlayerStepView {
    match guilds {
        Err(e) => PlayerStepView::Fail(e),
        Ok(count) => if count == 0 {
            PlayerStepView::Stop
        } else {
            PlayerStepView::LookAtRoles
        },
    }
}

/// The step once the member's guilds were asked for: how many they are.
pub fn with_guilds(guilds: Result<usize, AppError>) -> (r: PlayerStep)
    ensures
        r@ == guilds_step(answer(guilds)),
{
    match guilds {
        Err(e) => PlayerStep::Fail(e),
        Ok(count) => if count == 0 {
            PlayerStep::Stop
        } else {
            PlayerStep::LookAtRoles
        },
    }
}

/// The step once the guilds' roles were looked up.
pub open spec fn links_step(links: nat) -> PlayerStepView {
    if links == 0 {
        PlayerStepView::Stop
    } else {
        PlayerStepView::LookAtFacts
    }
}

/// The step once the guilds' roles were looked up.
pub fn with_links(links: &Vec<RoleLink>) -> (r: PlayerStep)
    ensures
        r@ == links_step(links@.len()),
{
    if links.len() == 0 {
        PlayerStep::Stop
    } else {
        PlayerStep::LookAtFacts
    }
}

/// The step once all is known.
pub open spec fn facts_step(
    links: Seq<RoleLink>,
    facts: Seq<Option<Facts>>,
    member: MemberView,
    now: Timestamp,
) -> PlayerStepView {
    let due = actions_for(links, facts, member, now);
    if due.len() == 0 {
        PlayerStepView::Stop
    } else {
        PlayerStepView::Change(due)
    }
}

/// The step once all is known: the member's facts for each role, the roles that the member has, and
/// whether an account is linked.
pub fn with_facts(
    links: &Vec<RoleLink>,
    facts: &Vec<Option<Facts>>,
    existing: &Vec<(String, String)>,
    is_linked: bool,
    now: Timestamp,
) -> (r: PlayerStep)
    requires
        links.len() == facts.len(),
    ensures
        r@ == facts_step(links@, facts@, (MemberView { is_linked, existing: existing@ }), now),
{
    let due = plan_player(links, facts, existing, is_linked, now);
    assert(actions(due@).len() == due.len());
    if due.len() == 0 {
        PlayerStep::Stop
    } else {
        PlayerStep::Change(due)
    }
}

/// All that the world outside has to say in a round.
pub struct PlayerWorld {
    pub guilds: Result<usize, ErrorView>,
    pub links: Seq<RoleLink>,
    pub facts: Seq<Option<Facts>>,
    pub member: MemberView,
    pub now: Timestamp,
}

/// What a round comes to: its last step.
pub open spec fn player_ending(w: PlayerWorld) -> PlayerStepView {
    match guilds_step(w.guilds) {
        PlayerStepView::LookAtRoles => match links_step(w.links.len()) {
            PlayerStepView::LookAtFacts => facts_step(w.links, w.facts, w.member, w.now),
            last => last,
        },
        last => last,
    }
}

/// A lookup of the guilds that fails changes no role: the failure is reported.
pub proof fn law_a_failed_guild_lookup_changes_no_role(w: PlayerWorld)
    requires
        w.guilds is Err,
    ensures
        player_ending(w) == PlayerStepView::Fail(w.guilds->Err_0),
{
}

/// Whether an action gives a role.
pub open spec fn gives(a: ActionView, guild_id: Seq<char>, role_id: Seq<char>) -> bool {
    a matches ActionView::Add { guild_id: g, role_id: r, .. } && g == guild_id && r == role_id
}

/// Whether an action takes a role.
pub open spec fn takes(a: ActionView, guild_id: Seq<char>, role_id: Seq<char>) -> bool {
    a matches ActionView::Remove { guild_id: g, role_id: r, .. } && g == guild_id && r == role_id
}

/// Whether a member has a role once all the actions were carried out.
pub open spec fn has_after(
    existing: Seq<(String, String)>,
    done: Seq<ActionView>,
    guild_id: Seq<char>,
    role_id: Seq<char>,
) -> bool {
    ||| exists|i: int| 0 <= i < done.len() && gives(#[trigger] done[i], guild_id, role_id)
    ||| among(existing, guild_id, role_id) && !(exists|i: int|
        0 <= i < done.len() && takes(#[trigger] done[i], guild_id, role_id))
}

/// Whether no two links are for the same role.
pub open spec fn distinct_roles(links: Seq<RoleLink>) -> bool {
    forall|i: int, j: int|
        0 <= i < j < links.len() ==> !((#[trigger] links[i]).guild_id@ == (#[trigger] links[j]).guild_id@
            && links[i].role_id@ == links[j].role_id@)
}

/// Whether a member qualifies for the role of a link.
pub open spec fn is_due(link: RoleLink, facts: Option<Facts>, member: MemberView, now: Timestamp) -> bool {
    qualifies(link.tree@, link.kick_channel_id, member.is_linked, facts_opt(facts), now)
}

/// What is done is done for a link, and what is due for a link is done.
proof fn lemma_actions_come_from_links(
    links: Seq<RoleLink>,
    facts: Seq<Option<Facts>>,
    member: MemberView,
    now: Timestamp,
)
    requires
        links.len() == facts.len(),
    ensures
        forall|k: int|
            0 <= k < actions_for(links, facts, member, now).len() ==> exists|i: int|
                0 <= i < links.len() && #[trigger] action_for(links[i], facts[i], member, now) == Some(
                    #[trigger] actions_for(links, facts, member, now)[k],
                ),
        forall|i: int|
            0 <= i < links.len() && action_for(#[trigger] links[i], facts[i], member, now) is Some
                ==> actions_for(links, facts, member, now).contains(
                action_for(links[i], facts[i], member, now)->0,
            ),
    decreases links.len(),
{
    if links.len() > 0 {
        let n = links.len() - 1;
        let init = links.drop_last();
        let first = facts.take(n);
        lemma_actions_come_from_links(init, first, member, now);
        let before = actions_for(init, first, member, now);
        let all = actions_for(links, facts, member, now);
        let last = action_for(links[n], facts[n], member, now);
        assert forall|k: int| 0 <= k < all.len() implies exists|i: int|
            0 <= i < links.len() && #[trigger] action_for(links[i], facts[i], member, now) == Some(
                #[trigger] all[k],
            ) by {
            if k < before.len() {
                let i = choose|i: int|
                    0 <= i < init.len() && #[trigger] action_for(init[i], first[i], member, now) == Some(before[k]);
                assert(action_for(links[i], facts[i], member, now) == Some(all[k]));
            } else {
                assert(action_for(links[n], facts[n], member, now) == Some(all[k]));
            }
        }
        assert forall|i: int|
            0 <= i < links.len() && action_for(#[trigger] links[i], facts[i], member, now) is Some implies all.contains(
            action_for(links[i], facts[i], member, now)->0,
        ) by {
            let a = action_for(links[i], facts[i], member, now)->0;
            if i < n {
                assert(init[i] == links[i] && first[i] == facts[i]);
                assert(before.contains(a));
                let k = before.index_of(a);
                assert(all[k] == a);
            } else {
                assert(all[before.len() as int] == a);
            }
        }
    }
}

/// Once a round's actions were carried out, a member has each of the roles if and only if the
/// member qualifies for it; what the member has beside them stays.
pub proof fn law_a_round_brings_all_roles_in_line(
    links: Seq<RoleLink>,
    facts: Seq<Option<Facts>>,
    member: MemberView,
    now: Timestamp,
)
    requires
        links.len() == facts.len(),
        distinct_roles(links),
    ensures
        ({
            let done = actions_for(links, facts, member, now);
            &&& forall|i: int|
                0 <= i < links.len() ==> (has_after(member.existing, done, links[i].guild_id@, links[i].role_id@)
                    == #[trigger] is_due(links[i], facts[i], member, now))
            &&& forall|guild_id: Seq<char>, role_id: Seq<char>|
                (forall|i: int|
                    0 <= i < links.len() ==> !((#[trigger] links[i]).guild_id@ == guild_id && links[i].role_id@
                        == role_id)) ==> (#[trigger] has_after(member.existing, done, guild_id, role_id) == among(
                    member.existing,
                    guild_id,
                    role_id,
                ))
        }),
{
    let done = actions_for(links, facts, member, now);
    lemma_actions_come_from_links(links, facts, member, now);
    assert forall|i: int| 0 <= i < links.len() implies (has_after(
        member.existing,
        done,
        links[i].guild_id@,
        links[i].role_id@,
    ) == #[trigger] is_due(links[i], facts[i], member, now)) by {
        let g = links[i].guild_id@;
        let r = links[i].role_id@;
        let own = action_for(links[i], facts[i], member, now);
        assert forall|k: int| 0 <= k < done.len() && (gives(done[k], g, r) || takes(#[trigger] done[k], g, r)) implies own
            == Some(done[k]) by {
            let j = choose|j: int|
                0 <= j < links.len() && #[trigger] action_for(links[j], facts[j], member, now) == Some(done[k]);
            if j < i {
                assert(!(links[j].guild_id@ == links[i].guild_id@ && links[j].role_id@ == links[i].role_id@));
            } else if i < j {
                assert(!(links[i].guild_id@ == links[j].guild_id@ && links[i].role_id@ == links[j].role_id@));
            }
        }
        if own is Some {
            let k = done.index_of(own->0);
            assert(done[k] == own->0);
            if is_due(links[i], facts[i], member, now) {
                assert(gives(done[k], g, r));
            } else {
                assert(takes(done[k], g, r));
            }
        }
    }
    assert forall|guild_id: Seq<char>, role_id: Seq<char>|
        (forall|i: int|
            0 <= i < links.len() ==> !((#[trigger] links[i]).guild_id@ == guild_id && links[i].role_id@
                == role_id)) implies (#[trigger] has_after(member.existing, done, guild_id, role_id) == among(
        member.existing,
        guild_id,
        role_id,
    )) by {
        assert forall|k: int| 0 <= k < done.len() implies !gives(#[trigger] done[k], guild_id, role_id) && !takes(
            done[k],
            guild_id,
            role_id,
        ) by {
            let j = choose|j: int|
                0 <= j < links.len() && #[trigger] action_for(links[j], facts[j], member, now) == Some(done[k]);
            assert(!(links[j].guild_id@ == guild_id && links[j].role_id@ == role_id));
        }
    }
}

} // verus!
