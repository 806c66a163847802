//! The round over one role, step by step: whom it is given to, and what is left alone.
//!
//! A lookup that fails ends the round with nothing changed. Only a rule that holds of nobody, or a
//! guild without members, empties a role.

use vstd::prelude::*;

use crate::error::{AppError, ErrorView};
use crate::services::rule_sql::{bound, rule_binds, BindView};
use crate::services::sync::{
    after_refused_info, after_upload, drains, grants_nobody, members_query, members_statement, unchanged, Followup,
    LinkQuery, RoleLink,
};
use crate::text::texts;

verus! {

/// What is to be done next for a role.
#[derive(Debug)]
pub enum RoleStep {
    /// Nothing.
    Stop,
    /// Report the failure.
    Fail(AppError),
    /// Ask who is in the guild.
    FetchMembers,
    /// Ask how many members the role may have.
    FetchLimit,
    /// Find whom the rule holds of, and no more than so many.
    Find { query: LinkQuery, limit: u64 },
    /// See whether anyone has the role.
    CheckAnyone,
    /// Give the role to these, and to nobody else.
    Upload,
    /// Give the role to nobody.
    UploadNobody,
    /// Write down who has the role now.
    Replace,
    /// Write down that nobody has the role now.
    Clear,
    /// Take the role's link out.
    DeleteOrphan,
}

/// What a step is.
pub enum RoleStepView {
    Stop,
    Fail(ErrorView),
    FetchMembers,
    FetchLimit,
    Find { statement: Seq<char>, channel: Option<i64>, binds: Seq<BindView>, limit: u64 },
    CheckAnyone,
    Upload,
    UploadNobody,
    Replace,
    Clear,
    DeleteOrphan,
}

impl View for RoleStep {
    type V = RoleStepView;

    open spec fn view(&self) -> RoleStepView {
        match *self {
            RoleStep::Stop => RoleStepView::Stop,
            RoleStep::Fail(e) => RoleStepView::Fail(e@),
            RoleStep::FetchMembers => RoleStepView::FetchMembers,
            RoleStep::FetchLimit => RoleStepView::FetchLimit,
            RoleStep::Find { query, limit } => RoleStepView::Find {
                statement: query.text@,
                channel: query.channel,
                binds: bound(query.binds@),
                limit,
            },
            RoleStep::CheckAnyone => RoleStepView::CheckAnyone,
            RoleStep::Upload => RoleStepView::Upload,
            RoleStep::UploadNobody => RoleStepView::UploadNobody,
            RoleStep::Replace => RoleStepView::Replace,
            RoleStep::Clear => RoleStepView::Clear,
            RoleStep::DeleteOrphan => RoleStepView::DeleteOrphan,
        }
    }
}

/// What a lookup said.
pub open spec fn answer<T>(r: Result<T, AppError>) -> Result<T, ErrorView> {
    match r {
        Ok(v) => Ok(v),
        Err(e) => Err(e@),
    }
}

/// The first step.
pub open spec fn link_step(link: Option<RoleLink>) -> RoleStepView {
    match link {
        None => RoleStepView::Stop,
        Some(l) => if grants_nobody(l.tree@, l.kick_channel_id) {
            RoleStepView::CheckAnyone
        } else {
            RoleStepView::FetchMembers
        },
    }
}

/// The first step, once the role's link was looked up.
pub fn start(link: &Option<RoleLink>) -> (r: RoleStep)
    ensures
        r@ == link_step(*link),
{
    match link {
        None => RoleStep::Stop,
        Some(l) => if drains(l) {
            RoleStep::CheckAnyone
        } else {
            RoleStep::FetchMembers
        },
    }
}

/// The step once the guild's members were asked for.
pub open spec fn members_step(members: Result<usize, ErrorView>) -> RoleStepView {
    match members {
        Err(e) => RoleStepView::Fail(e),
        Ok(count) => if count == 0 {
            RoleStepView::CheckAnyone
        } else {
            RoleStepView::FetchLimit
        },
    }
}

/// The step once the guild's members were asked for: how many they are.
pub fn with_members(members: Result<usize, AppError>) -> (r: RoleStep)
    ensures
        r@ == members_step(answer(members)),
{
    match members {
        Err(e) => RoleStep::Fail(e),
        Ok(count) => if count == 0 {
            RoleStep::CheckAnyone
        } else {
            RoleStep::FetchLimit
        },
    }
}

/// The step once it was asked how many members the role may have.
pub open spec fn limit_step(link: RoleLink, limit: Result<u64, ErrorView>) -> RoleStepView {
    match limit {
        Ok(limit) => RoleStepView::Find {
            statement: members_statement(link.tree@),
            channel: if link.tree@.grant_on_any_relation {
                None
            } else {
                link.kick_channel_id
            },
            binds: rule_binds(link.tree@),
            limit,
        },
        Err(ErrorView::RoleLinkNotFound) => RoleStepView::DeleteOrphan,
        Err(ErrorView::RoleLinkDisabled) => RoleStepView::Stop,
        Err(e) => RoleStepView::Fail(e),
    }
}

/// The step once it was asked how many members the role may have.
pub fn with_limit(link: &RoleLink, limit: Result<u64, AppError>) -> (r: RoleStep)
    requires
        !grants_nobody(link.tree@, link.kick_channel_id),
        rule_binds(link.tree@).len() + 3 <= usize::MAX,
    ensures
        r@ == limit_step(*link, answer(limit)),
{
    match limit {
        Ok(limit) => RoleStep::Find { query: members_query(link), limit },
        Err(e) => match after_refused_info(e) {
            Followup::DeleteOrphan => RoleStep::DeleteOrphan,
            Followup::Fail(e) => RoleStep::Fail(e),
            _ => RoleStep::Stop,
        },
    }
}

/// The step once it is known whom the rule holds of, and who has the role.
pub open spec fn found_step(current: Seq<Seq<char>>, wanted: Seq<Seq<char>>) -> RoleStepView {
    if current == wanted {
        RoleStepView::Stop
    } else {
        RoleStepView::Upload
    }
}

/// The step once it is known whom the rule holds of, and who has the role: where they are the same,
/// the role is left alone.
pub fn with_found(current: &Vec<String>, wanted: &Vec<String>) -> (r: RoleStep)
    ensures
        r@ == found_step(texts(current@), texts(wanted@)),
{
    if unchanged(current, wanted) {
        RoleStep::Stop
    } else {
        RoleStep::Upload
    }
}

/// The step once it is known whether anyone has a role that nobody is to have.
pub open spec fn anyone_step(anyone: bool) -> RoleStepView {
    if anyone {
        RoleStepView::UploadNobody
    } else {
        RoleStepView::Stop
    }
}

/// The step once it is known whether anyone has a role that nobody is to have.
pub fn with_anyone(anyone: bool) -> (r: RoleStep)
    ensures
        r@ == anyone_step(anyone),
{
    if anyone {
        RoleStep::UploadNobody
    } else {
        RoleStep::Stop
    }
}

/// The step once the role service took up who has the role, or did not.
pub open spec fn uploaded_step(uploaded: Result<(), ErrorView>, nobody: bool) -> RoleStepView {
    match uploaded {
        Ok(_) => if nobody {
            RoleStepView::Clear
        } else {
            RoleStepView::Replace
        },
        Err(ErrorView::RoleLinkNotFound) => RoleStepView::DeleteOrphan,
        Err(e) => RoleStepView::Fail(e),
    }
}

/// The step once the role service took up who has the role, or did not; `nobody` where it was asked
/// to give the role to nobody.
pub fn with_uploaded(uploaded: Result<(), AppError>, nobody: bool) -> (r: RoleStep)
    ensures
        r@ == uploaded_step(answer(uploaded), nobody),
{
    match after_upload(uploaded) {
        Followup::DeleteOrphan => RoleStep::DeleteOrphan,
        Followup::Fail(e) => RoleStep::Fail(e),
        _ => if nobody {
            RoleStep::Clear
        } else {
            RoleStep::Replace
        },
    }
}

/// All that the world outside has to say in a round.
pub struct RoleWorld {
    pub members: Result<usize, ErrorView>,
    pub limit: Result<u64, ErrorView>,
    pub current: Seq<Seq<char>>,
    pub wanted: Seq<Seq<char>>,
    pub anyone: bool,
    pub uploaded: Result<(), ErrorView>,
}

/// What a round comes to: whom the role was given to, where it was touched at all, and the last
/// step.
pub struct RoleEnding {
    pub given: Option<Seq<Seq<char>>>,
    pub last: RoleStepView,
}

/// What the emptying of a role comes to.
pub open spec fn drained(w: RoleWorld) -> RoleEnding {
    match anyone_step(w.anyone) {
        RoleStepView::UploadNobody => RoleEnding { given: Some(seq![]), last: uploaded_step(w.uploaded, true) },
        last => RoleEnding { given: None, last },
    }
}

/// What a round comes to.
pub open spec fn role_ending(link: Option<RoleLink>, w: RoleWorld) -> RoleEnding {
    match link_step(link) {
        RoleStepView::CheckAnyone => drained(w),
        RoleStepView::FetchMembers => match members_step(w.members) {
            RoleStepView::CheckAnyone => drained(w),
            RoleStepView::FetchLimit => match limit_step(link->0, w.limit) {
                RoleStepView::Find { .. } => match found_step(w.current, w.wanted) {
                    RoleStepView::Upload => RoleEnding {
                        given: Some(w.wanted),
                        last: uploaded_step(w.uploaded, false),
                    },
                    last => RoleEnding { given: None, last },
                },
                last => RoleEnding { given: None, last },
            },
            last => RoleEnding { given: None, last },
        },
        last => RoleEnding { given: None, last },
    }
}

/// A lookup that fails changes nothing: the role is not touched, and the failure is reported.
pub proof fn law_a_failed_lookup_changes_no_role(link: RoleLink, w: RoleWorld)
    requires
        !grants_nobody(link.tree@, link.kick_channel_id),
        w.members is Err,
    ensures
        role_ending(Some(link), w) == (RoleEnding { given: None, last: RoleStepView::Fail(w.members->Err_0) }),
{
}

/// A role is emptied only where its rule holds of nobody for want of a channel or groups, where the
/// guild has no members, or where the rule was found to hold of nobody.
pub proof fn law_roles_are_emptied_for_a_reason(link: RoleLink, w: RoleWorld)
    requires
        role_ending(Some(link), w).given == Some(Seq::<Seq<char>>::empty()),
    ensures
        grants_nobody(link.tree@, link.kick_channel_id) || w.members == Ok::<usize, ErrorView>(0usize) || w.wanted
            == Seq::<Seq<char>>::empty(),
{
}

/// Where those who have the role are those whom the rule holds of, the role is left alone.
pub proof fn law_an_unchanged_role_is_left_alone(link: RoleLink, w: RoleWorld)
    requires
        !grants_nobody(link.tree@, link.kick_channel_id),
        w.members is Ok && w.members->Ok_0 > 0,
        w.limit is Ok,
        w.current == w.wanted,
    ensures
        role_ending(Some(link), w) == (RoleEnding { given: None, last: RoleStepView::Stop }),
{
}

} // verus!
