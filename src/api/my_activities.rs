//! Requests on the activities assigned to the signed-in user.

use vstd::prelude::*;
use crate::api::plan::{
    finds,
    updates,
    find_step,
    update_step,
    text_param,
    null_param,
    time_param,
    Stamps,
    Step,
    FORBIDDEN,
    NOT_FOUND,
    INTERNAL_SERVER_ERROR,
};
use crate::query::{params_view, text_view, timestamp_view, ArchiveFilter, Param};
use crate::activity::{Activity, ActivityError};
use crate::authentication::AuthenticationError;
use crate::team::TeamError;

verus! {

/// The failure of a request, by the part of the system that raised it.
#[derive(Debug, Clone, Copy, PartialEq, Eq, Structural)]
pub enum ResponseError {
    Activity(ActivityError),
    Authentication(AuthenticationError),
    Team(TeamError),
}

/// The statements of listing the activities assigned to the user, and those whose
/// team id is the user's id.
pub fn get_activities_plan(user_id: &String) -> (r: Vec<Step<ResponseError>>)
    ensures
        r@.len() == 2,
        finds::<Activity, ResponseError>(
            r@[0],
            ArchiveFilter::Unarchived,
            false,
            seq![("assigned_to"@, text_view(user_id@))],
            NOT_FOUND,
            ResponseError::Activity(ActivityError::ActivityNotFound),
        ),
        finds::<Activity, ResponseError>(
            r@[1],
            ArchiveFilter::Unarchived,
            false,
            seq![("team_id"@, text_view(user_id@))],
            NOT_FOUND,
            ResponseError::Activity(ActivityError::ActivityNotFound),
        ),
{
    let mut steps: Vec<Step<ResponseError>> = Vec::new();
    let ps: Vec<Param> = vec![text_param("assigned_to", user_id)];
    proof {
        assert(params_view(ps@) =~= seq![("assigned_to"@, text_view(user_id@))]);
    }
    steps.push(find_step::<Activity, ResponseError>(
        ps,
        ArchiveFilter::Unarchived,
        false,
        NOT_FOUND,
        ResponseError::Activity(ActivityError::ActivityNotFound),
    ));
    let ps: Vec<Param> = vec![text_param("team_id", user_id)];
    proof {
        assert(params_view(ps@) =~= seq![("team_id"@, text_view(user_id@))]);
    }
    steps.push(find_step::<Activity, ResponseError>(
        ps,
        ArchiveFilter::Unarchived,
        false,
        NOT_FOUND,
        ResponseError::Activity(ActivityError::ActivityNotFound),
    ));
    steps
}

/// The statement of reading one activity assigned to the user.
pub fn get_activity_plan(user_id: &String, activity_id: &String) -> (r: Vec<Step<ResponseError>>)
    ensures
        r@.len() == 1,
        finds::<Activity, ResponseError>(
            r@[0],
            ArchiveFilter::Unarchived,
            true,
            seq![("id"@, text_view(activity_id@)), ("assigned_to"@, text_view(user_id@))],
            NOT_FOUND,
            ResponseError::Activity(ActivityError::ActivityNotFound),
        ),
{
    let mut steps: Vec<Step<ResponseError>> = Vec::new();
    let ps: Vec<Param> = vec![text_param("id", activity_id), text_param("assigned_to", user_id)];
    proof {
        assert(params_view(ps@) =~= seq![("id"@, text_view(activity_id@)), ("assigned_to"@, text_view(user_id@))]);
    }
    steps.push(find_step::<Activity, ResponseError>(
        ps,
        ArchiveFilter::Unarchived,
        true,
        NOT_FOUND,
        ResponseError::Activity(ActivityError::ActivityNotFound),
    ));
    steps
}

/// The first statement of changing an activity's state: the activity, whose
/// assignee `check_assignee` then compares with the user.
pub fn activity_lookup_plan(activity_id: &String) -> (r: Vec<Step<ResponseError>>)
    ensures
        r@.len() == 1,
        finds::<Activity, ResponseError>(
            r@[0],
            ArchiveFilter::Unarchived,
            true,
            seq![("id"@, text_view(activity_id@))],
            NOT_FOUND,
            ResponseError::Activity(ActivityError::ActivityNotFound),
        ),
{
    let mut steps: Vec<Step<ResponseError>> = Vec::new();
    let ps: Vec<Param> = vec![text_param("id", activity_id)];
    proof {
        assert(params_view(ps@) =~= seq![("id"@, text_view(activity_id@))]);
    }
    steps.push(find_step::<Activity, ResponseError>(
        ps,
        ArchiveFilter::Unarchived,
        true,
        NOT_FOUND,
        ResponseError::Activity(ActivityError::ActivityNotFound),
    ));
    steps
}

/// The statement that completes an activity: `completed_at` becomes now. The
/// updated row is then read again by its id.
pub fn complete_activity_plan(activity_id: &String, stamps: &Stamps) -> (r: Vec<Step<ResponseError>>)
    ensures
        r@.len() == 2,
        updates::<Activity, ResponseError>(
            r@[0],
            seq![("completed_at"@, timestamp_view(stamps.now@))],
            activity_id@,
            *stamps,
            INTERNAL_SERVER_ERROR,
            ResponseError::Activity(ActivityError::ActivityNotFound),
        ),
        finds::<Activity, ResponseError>(
            r@[1],
            ArchiveFilter::Any,
            true,
            seq![("id"@, text_view(activity_id@))],
            INTERNAL_SERVER_ERROR,
            ResponseError::Activity(ActivityError::ActivityNotFound),
        ),
{
    let mut steps: Vec<Step<ResponseError>> = Vec::new();
    let ps: Vec<Param> = vec![time_param("completed_at", &stamps.now)];
    proof {
        assert(params_view(ps@) =~= seq![("completed_at"@, timestamp_view(stamps.now@))]);
    }
    steps.push(update_step::<Activity, ResponseError>(
        ps,
        activity_id,
        stamps,
        INTERNAL_SERVER_ERROR,
        ResponseError::Activity(ActivityError::ActivityNotFound),
    ));
    let ps: Vec<Param> = vec![text_param("id", activity_id)];
    proof {
        assert(params_view(ps@) =~= seq![("id"@, text_view(activity_id@))]);
    }
    steps.push(find_step::<Activity, ResponseError>(
        ps,
        ArchiveFilter::Any,
        true,
        INTERNAL_SERVER_ERROR,
        ResponseError::Activity(ActivityError::ActivityNotFound),
    ));
    steps
}

/// The statement that reopens an activity: its completion is cleared. The updated
/// row is then read again by its id.
pub fn reopen_activity_plan(activity_id: &String, stamps: &Stamps) -> (r: Vec<Step<ResponseError>>)
    ensures
        r@.len() == 2,
        updates::<Activity, ResponseError>(
            r@[0],
            seq![("completed_at"@, (0nat, None::<Seq<char>>))],
            activity_id@,
            *stamps,
            INTERNAL_SERVER_ERROR,
            ResponseError::Activity(ActivityError::ActivityNotFound),
        ),
        finds::<Activity, ResponseError>(
            r@[1],
            ArchiveFilter::Any,
            true,
            seq![("id"@, text_view(activity_id@))],
            INTERNAL_SERVER_ERROR,
            ResponseError::Activity(ActivityError::ActivityNotFound),
        ),
{
    let mut steps: Vec<Step<ResponseError>> = Vec::new();
    let ps: Vec<Param> = vec![null_param("completed_at")];
    proof {
        assert(params_view(ps@) =~= seq![("completed_at"@, (0nat, None::<Seq<char>>))]);
    }
    steps.push(update_step::<Activity, ResponseError>(
        ps,
        activity_id,
        stamps,
        INTERNAL_SERVER_ERROR,
        ResponseError::Activity(ActivityError::ActivityNotFound),
    ));
    let ps: Vec<Param> = vec![text_param("id", activity_id)];
    proof {
        assert(params_view(ps@) =~= seq![("id"@, text_view(activity_id@))]);
    }
    steps.push(find_step::<Activity, ResponseError>(
        ps,
        ArchiveFilter::Any,
        true,
        INTERNAL_SERVER_ERROR,
        ResponseError::Activity(ActivityError::ActivityNotFound),
    ));
    steps
}

/// The statement that pauses an activity: `paused_at` becomes now. The updated row
/// is then read again by its id.
pub fn pause_activity_plan(activity_id: &String, stamps: &Stamps) -> (r: Vec<Step<ResponseError>>)
    ensures
        r@.len() == 2,
        updates::<Activity, ResponseError>(
            r@[0],
            seq![("paused_at"@, timestamp_view(stamps.now@))],
            activity_id@,
            *stamps,
            INTERNAL_SERVER_ERROR,
            ResponseError::Activity(ActivityError::ActivityNotFound),
        ),
        finds::<Activity, ResponseError>(
            r@[1],
            ArchiveFilter::Any,
            true,
            seq![("id"@, text_view(activity_id@))],
            INTERNAL_SERVER_ERROR,
            ResponseError::Activity(ActivityError::ActivityNotFound),
        ),
{
    let mut steps: Vec<Step<ResponseError>> = Vec::new();
    let ps: Vec<Param> = vec![time_param("paused_at", &stamps.now)];
    proof {
        assert(params_view(ps@) =~= seq![("paused_at"@, timestamp_view(stamps.now@))]);
    }
    steps.push(update_step::<Activity, ResponseError>(
        ps,
        activity_id,
        stamps,
        INTERNAL_SERVER_ERROR,
        ResponseError::Activity(ActivityError::ActivityNotFound),
    ));
    let ps: Vec<Param> = vec![text_param("id", activity_id)];
    proof {
        assert(params_view(ps@) =~= seq![("id"@, text_view(activity_id@))]);
    }
    steps.push(find_step::<Activity, ResponseError>(
        ps,
        ArchiveFilter::Any,
        true,
        INTERNAL_SERVER_ERROR,
        ResponseError::Activity(ActivityError::ActivityNotFound),
    ));
    steps
}

/// The statement that resumes an activity: `paused_at` is cleared. The updated row
/// is then read again by its id.
pub fn resume_activity_plan(activity_id: &String, stamps: &Stamps) -> (r: Vec<Step<ResponseError>>)
    ensures
        r@.len() == 2,
        updates::<Activity, ResponseError>(
            r@[0],
            seq![("paused_at"@, (0nat, None::<Seq<char>>))],
            activity_id@,
            *stamps,
            INTERNAL_SERVER_ERROR,
            ResponseError::Activity(ActivityError::ActivityNotFound),
        ),
        finds::<Activity, ResponseError>(
            r@[1],
            ArchiveFilter::Any,
            true,
            seq![("id"@, text_view(activity_id@))],
            INTERNAL_SERVER_ERROR,
            ResponseError::Activity(ActivityError::ActivityNotFound),
        ),
{
    let mut steps: Vec<Step<ResponseError>> = Vec::new();
    let ps: Vec<Param> = vec![null_param("paused_at")];
    proof {
        assert(params_view(ps@) =~= seq![("paused_at"@, (0nat, None::<Seq<char>>))]);
    }
    steps.push(update_step::<Activity, ResponseError>(
        ps,
        activity_id,
        stamps,
        INTERNAL_SERVER_ERROR,
        ResponseError::Activity(ActivityError::ActivityNotFound),
    ));
    let ps: Vec<Param> = vec![text_param("id", activity_id)];
    proof {
        assert(params_view(ps@) =~= seq![("id"@, text_view(activity_id@))]);
    }
    steps.push(find_step::<Activity, ResponseError>(
        ps,
        ArchiveFilter::Any,
        true,
        INTERNAL_SERVER_ERROR,
        ResponseError::Activity(ActivityError::ActivityNotFound),
    ));
    steps
}

/// Only the assignee of an activity may change its state: anyone else, and
/// anyone at all while it is unassigned, is refused.
pub fn check_assignee(activity: &Activity, user_id: &String) -> (r: Option<(u16, ResponseError)>)
    ensures
        r is None <==> (activity.assigned_to matches Some(a) && a@ == user_id@),
        r matches Some(e) ==> e == (FORBIDDEN, ResponseError::Activity(ActivityError::ActivityNotFound)),
{
    match activity.assigned_to.as_ref() {
        Some(a) => {
            if a.eq(user_id) {
                None
            } else {
                Some((FORBIDDEN, ResponseError::Activity(ActivityError::ActivityNotFound)))
            }
        },
        None => Some((FORBIDDEN, ResponseError::Activity(ActivityError::ActivityNotFound))),
    }
}

} // verus!
